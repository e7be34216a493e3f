//! The event catalog: kernel event sources and their argument fields.
//!
//! Events are identified by a hierarchical name (`category/subject`). The
//! catalog answers whether an argument exists on an event, with its type and
//! access path; names that are not event arguments may still resolve as
//! system variables (`time`, `pid`, `tgid`, `cpu`, `comm`, `cgroup`).

use vstd::prelude::*;

verus! {

use crate::errors::EbqlError;
use crate::program_types::ProgramType;
use crate::text::str_eq;
use crate::types::{Field, FieldV, Type, TypeV, seq_fields_view, lemma_seq_fields_view_index,
    lemma_seq_fields_view_push};
use vstd::string::{StringExecFns, StrSliceExecFns};

/// Storage size of the kernel's fixed-length task name.
pub const TASK_COMM_LEN: usize = 16;

/// System variables: pseudo-fields resolved by kernel helpers rather than
/// event arguments.
#[derive(Clone, Copy, Debug, PartialEq, Eq, Structural)]
pub enum SystemVar {
    TIME,
    PID,
    TGID,
    CPU,
    COMM,
    CGROUP,
}

/// The field model a system variable projects as.
pub open spec fn spec_system_field(v: SystemVar) -> FieldV {
    match v {
        SystemVar::TIME => FieldV { name: "time"@, ty: TypeV::U64, arr: None, off: None },
        SystemVar::PID => FieldV { name: "pid"@, ty: TypeV::U64, arr: None, off: None },
        SystemVar::TGID => FieldV { name: "tgid"@, ty: TypeV::U64, arr: None, off: None },
        SystemVar::CPU => FieldV { name: "cpu"@, ty: TypeV::U64, arr: None, off: None },
        SystemVar::COMM => FieldV {
            name: "comm"@,
            ty: TypeV::String(TASK_COMM_LEN as nat),
            arr: None,
            off: None,
        },
        SystemVar::CGROUP => FieldV { name: "cgroup"@, ty: TypeV::U64, arr: None, off: None },
    }
}

/// The system variable a name denotes, if any.
pub open spec fn spec_system_var(name: Seq<char>) -> Option<SystemVar> {
    if name == "time"@ {
        Some(SystemVar::TIME)
    } else if name == "pid"@ {
        Some(SystemVar::PID)
    } else if name == "tgid"@ {
        Some(SystemVar::TGID)
    } else if name == "cpu"@ {
        Some(SystemVar::CPU)
    } else if name == "comm"@ {
        Some(SystemVar::COMM)
    } else if name == "cgroup"@ {
        Some(SystemVar::CGROUP)
    } else {
        None
    }
}

impl SystemVar {
    /// The projected field of this system variable.
    pub fn to_field(&self) -> (r: Field)
        ensures
            r@ == spec_system_field(*self),
    {
        match self {
            SystemVar::TIME => Field::new("time".to_owned(), Type::U64),
            SystemVar::PID => Field::new("pid".to_owned(), Type::U64),
            SystemVar::TGID => Field::new("tgid".to_owned(), Type::U64),
            SystemVar::CPU => Field::new("cpu".to_owned(), Type::U64),
            SystemVar::COMM => Field::new("comm".to_owned(), Type::String(TASK_COMM_LEN)),
            SystemVar::CGROUP => Field::new("cgroup".to_owned(), Type::U64),
        }
    }

    /// The system variable a name denotes, if any.
    pub fn from_name(sv: &str) -> (r: Option<SystemVar>)
        ensures
            r == spec_system_var(sv@),
    {
        if str_eq(sv, "time") {
            Some(SystemVar::TIME)
        } else if str_eq(sv, "pid") {
            Some(SystemVar::PID)
        } else if str_eq(sv, "tgid") {
            Some(SystemVar::TGID)
        } else if str_eq(sv, "cpu") {
            Some(SystemVar::CPU)
        } else if str_eq(sv, "comm") {
            Some(SystemVar::COMM)
        } else if str_eq(sv, "cgroup") {
            Some(SystemVar::CGROUP)
        } else {
            None
        }
    }

    /// The projected field of a system variable name; an error when the name
    /// is no system variable.
    pub fn get_field(sv: &str) -> (r: Result<Field, EbqlError>)
        ensures
            r matches Ok(f) ==> spec_system_var(sv@) matches Some(v) && f@ == spec_system_field(v),
            r is Err <==> spec_system_var(sv@) is None,
            r matches Err(e) ==> e is UnknownColumn,
    {
        match Self::from_name(sv) {
            Some(v) => Ok(v.to_field()),
            None => Err(EbqlError::UnknownColumn(sv.to_owned())),
        }
    }

    /// The name of the kernel helper macro that loads this variable.
    pub fn get_helper(&self) -> (r: &'static str)
        ensures
            r@ == spec_helper_name(*self),
    {
        match self {
            SystemVar::TIME => "TIME",
            SystemVar::PID => "PID",
            SystemVar::TGID => "TGID",
            SystemVar::CPU => "CPU",
            SystemVar::COMM => "COMM",
            SystemVar::CGROUP => "CGROUP",
        }
    }
}

/// Helper macro names per system variable.
pub open spec fn spec_helper_name(v: SystemVar) -> Seq<char> {
    match v {
        SystemVar::TIME => "TIME"@,
        SystemVar::PID => "PID"@,
        SystemVar::TGID => "TGID"@,
        SystemVar::CPU => "CPU"@,
        SystemVar::COMM => "COMM"@,
        SystemVar::CGROUP => "CGROUP"@,
    }
}

/// The tracepoint events the catalog knows.
#[derive(Clone, Copy, Debug, PartialEq, Eq, Structural, Hash)]
pub enum TracepointEvent {
    MmFilemapAddToPageCache,
    MmFilemapDeleteFromPageCache,
    SysEnterPread64,
    SysExitPread64,
}

/// Event interface: what the planner and the compiler need of an event.
pub trait Event {
    /// Gets the event program type.
    fn event_program_type(&self) -> ProgramType;

    /// Gets the hierarchical event name.
    fn event_name(&self) -> String;

    /// Gets the stable event id.
    fn event_id(&self) -> u64;

    /// Gets every argument of the event, in catalog order.
    fn event_all_args(&self) -> Result<Vec<Field>, EbqlError>;

    /// Resolves one argument or system variable.
    fn event_arg(&self, arg: &str) -> Result<Field, EbqlError>;

    /// Gets the context type name of the event.
    fn event_ctx(&self) -> String;
}

pub open spec fn spec_tp_name(e: TracepointEvent) -> Seq<char> {
    match e {
        TracepointEvent::MmFilemapAddToPageCache => "mm_filemap_add_to_page_cache"@,
        TracepointEvent::MmFilemapDeleteFromPageCache => "mm_filemap_delete_frompage_cache"@,
        TracepointEvent::SysEnterPread64 => "sys_enter_pread64"@,
        TracepointEvent::SysExitPread64 => "sys_exit_pread64"@,
    }
}

pub open spec fn spec_tp_dir(e: TracepointEvent) -> Seq<char> {
    match e {
        TracepointEvent::MmFilemapAddToPageCache => "filemap"@,
        TracepointEvent::MmFilemapDeleteFromPageCache => "filemap"@,
        TracepointEvent::SysEnterPread64 => "syscalls"@,
        TracepointEvent::SysExitPread64 => "syscalls"@,
    }
}

/// The hierarchical name: `category/subject`.
pub open spec fn spec_event_name(e: TracepointEvent) -> Seq<char> {
    spec_tp_dir(e) + "/"@ + spec_tp_name(e)
}

/// The event's arguments, in catalog order. Syscall tracepoint arguments
/// live in the context's `args` array; the filemap arguments are direct
/// members.
pub open spec fn spec_event_args(e: TracepointEvent) -> Seq<FieldV> {
    match e {
        TracepointEvent::MmFilemapAddToPageCache => seq![
            FieldV { name: "pfn"@, ty: TypeV::U64, arr: None, off: None },
            FieldV { name: "i_ino"@, ty: TypeV::U64, arr: None, off: None },
            FieldV { name: "index"@, ty: TypeV::U64, arr: None, off: None },
            FieldV { name: "s_dev"@, ty: TypeV::U32, arr: None, off: None },
        ],
        TracepointEvent::MmFilemapDeleteFromPageCache => seq![
            FieldV { name: "pfn"@, ty: TypeV::U64, arr: None, off: None },
            FieldV { name: "i_ino"@, ty: TypeV::U64, arr: None, off: None },
            FieldV { name: "index"@, ty: TypeV::U64, arr: None, off: None },
            FieldV { name: "s_dev"@, ty: TypeV::U32, arr: None, off: None },
        ],
        TracepointEvent::SysEnterPread64 => seq![
            FieldV { name: "fd"@, ty: TypeV::U64, arr: Some("args"@), off: Some(0) },
            FieldV {
                name: "buf"@,
                ty: TypeV::Pointer(Box::new(TypeV::UChar)),
                arr: Some("args"@),
                off: Some(1),
            },
            FieldV { name: "count"@, ty: TypeV::U64, arr: Some("args"@), off: Some(2) },
            FieldV { name: "pos"@, ty: TypeV::U64, arr: Some("args"@), off: Some(3) },
        ],
        TracepointEvent::SysExitPread64 => seq![
            FieldV { name: "ret"@, ty: TypeV::U64, arr: Some("args"@), off: Some(0) },
        ],
    }
}

/// First catalog argument carrying the given name, if any.
pub open spec fn spec_lookup(fs: Seq<FieldV>, name: Seq<char>) -> Option<FieldV>
    decreases fs.len(),
{
    if fs.len() == 0 {
        None
    } else if fs.first().name == name {
        Some(fs.first())
    } else {
        spec_lookup(fs.drop_first(), name)
    }
}

/// A successful lookup returns a field carrying the queried name.
pub proof fn lemma_spec_lookup_name(fs: Seq<FieldV>, name: Seq<char>)
    ensures
        spec_lookup(fs, name) matches Some(f) ==> f.name == name,
    decreases fs.len(),
{
    if fs.len() > 0 && fs.first().name != name {
        lemma_spec_lookup_name(fs.drop_first(), name);
    }
}

/// Resolution as the planner performs it: event arguments first, then the
/// system-variable table.
pub open spec fn spec_resolve(e: TracepointEvent, name: Seq<char>) -> Option<FieldV> {
    match spec_lookup(spec_event_args(e), name) {
        Some(f) => Some(f),
        None => match spec_system_var(name) {
            Some(v) => Some(spec_system_field(v)),
            None => None,
        },
    }
}

/// The context type name of the event.
pub open spec fn spec_event_ctx(e: TracepointEvent) -> Seq<char> {
    match e {
        TracepointEvent::SysEnterPread64 => "struct trace_event_raw_sys_enter"@,
        TracepointEvent::SysExitPread64 => "struct trace_event_raw_sys_enter"@,
        _ => "struct trace_event_raw_"@ + spec_tp_name(e),
    }
}

impl TracepointEvent {
    /// The subject part of the event name.
    pub fn tp_name(&self) -> (r: String)
        ensures
            r@ == spec_tp_name(*self),
    {
        match self {
            TracepointEvent::MmFilemapAddToPageCache => "mm_filemap_add_to_page_cache".to_owned(),
            TracepointEvent::MmFilemapDeleteFromPageCache => {
                "mm_filemap_delete_frompage_cache".to_owned()
            },
            TracepointEvent::SysEnterPread64 => "sys_enter_pread64".to_owned(),
            TracepointEvent::SysExitPread64 => "sys_exit_pread64".to_owned(),
        }
    }

    /// The category part of the event name.
    pub fn tp_dir(&self) -> (r: String)
        ensures
            r@ == spec_tp_dir(*self),
    {
        match self {
            TracepointEvent::MmFilemapAddToPageCache => "filemap".to_owned(),
            TracepointEvent::MmFilemapDeleteFromPageCache => "filemap".to_owned(),
            TracepointEvent::SysEnterPread64 => "syscalls".to_owned(),
            TracepointEvent::SysExitPread64 => "syscalls".to_owned(),
        }
    }

    /// The program kind the event attaches through.
    pub fn program_type(&self) -> (r: ProgramType)
        ensures
            r is Tracepoint,
    {
        ProgramType::Tracepoint
    }

    /// The hierarchical event name.
    pub fn name(&self) -> (r: String)
        ensures
            r@ == spec_event_name(*self),
    {
        let mut s = self.tp_dir();
        s.append("/");
        let n = self.tp_name();
        s.append(n.as_str());
        s
    }

    /// The stable event id.
    pub fn id(&self) -> (r: u64)
        ensures
            r == spec_event_id(*self),
    {
        match self {
            TracepointEvent::MmFilemapAddToPageCache => 498,
            TracepointEvent::MmFilemapDeleteFromPageCache => 499,
            TracepointEvent::SysEnterPread64 => 697,
            TracepointEvent::SysExitPread64 => 696,
        }
    }

    /// The context type name of the event.
    pub fn ctx(&self) -> (r: String)
        ensures
            r@ == spec_event_ctx(*self),
    {
        match self {
            TracepointEvent::SysEnterPread64 => "struct trace_event_raw_sys_enter".to_owned(),
            TracepointEvent::SysExitPread64 => "struct trace_event_raw_sys_enter".to_owned(),
            _ => {
                let mut s = "struct trace_event_raw_".to_owned();
                let n = self.tp_name();
                s.append(n.as_str());
                s
            },
        }
    }

    /// Every argument of the event, in catalog order.
    pub fn get_all_args(&self) -> (r: Result<Vec<Field>, EbqlError>)
        ensures
            r matches Ok(v) ==> seq_fields_view(v@) == spec_event_args(*self),
            r is Ok,
    {
        let mut out: Vec<Field> = Vec::new();
        let ghost target = spec_event_args(*self);
        match self {
            TracepointEvent::MmFilemapAddToPageCache
            | TracepointEvent::MmFilemapDeleteFromPageCache => {
                push_arg(&mut out, Field::new("pfn".to_owned(), Type::U64));
                push_arg(&mut out, Field::new("i_ino".to_owned(), Type::U64));
                push_arg(&mut out, Field::new("index".to_owned(), Type::U64));
                push_arg(&mut out, Field::new("s_dev".to_owned(), Type::U32));
                proof {
                    assert(seq_fields_view(out@) =~= target);
                }
            },
            TracepointEvent::SysEnterPread64 => {
                push_arg(
                    &mut out,
                    Field::new_with_off("fd".to_owned(), Type::U64, "args".to_owned(), 0),
                );
                push_arg(
                    &mut out,
                    Field::new_with_off(
                        "buf".to_owned(),
                        Type::Pointer(Box::new(Type::UChar)),
                        "args".to_owned(),
                        1,
                    ),
                );
                push_arg(
                    &mut out,
                    Field::new_with_off("count".to_owned(), Type::U64, "args".to_owned(), 2),
                );
                push_arg(
                    &mut out,
                    Field::new_with_off("pos".to_owned(), Type::U64, "args".to_owned(), 3),
                );
                proof {
                    assert(crate::types::type_view(Type::UChar) == TypeV::UChar);
                    assert(crate::types::type_view(Type::Pointer(Box::new(Type::UChar)))
                        == TypeV::Pointer(Box::new(TypeV::UChar)));
                    assert(seq_fields_view(out@) =~= target);
                }
            },
            TracepointEvent::SysExitPread64 => {
                push_arg(
                    &mut out,
                    Field::new_with_off("ret".to_owned(), Type::U64, "args".to_owned(), 0),
                );
                proof {
                    assert(seq_fields_view(out@) =~= target);
                }
            },
        }
        Ok(out)
    }

    /// Resolves one argument: event arguments first, then system variables.
    pub fn get_arg(&self, arg: &str) -> (r: Result<Field, EbqlError>)
        ensures
            r matches Ok(f) ==> spec_resolve(*self, arg@) == Some(f@),
            r is Err <==> spec_resolve(*self, arg@) is None,
            r matches Err(e) ==> e is UnknownColumn,
    {
        let args = match self.get_all_args() {
            Ok(v) => v,
            Err(e) => {
                return Err(e);
            },
        };
        proof {
            lemma_seq_fields_view_index(args@);
        }
        let ghost av = seq_fields_view(args@);
        let mut i: usize = 0;
        proof {
            assert(av.skip(0int) =~= av);
        }
        while i < args.len()
            invariant
                i <= args@.len(),
                av == seq_fields_view(args@),
                av.len() == args@.len(),
                forall|j: int| 0 <= j < args@.len() ==> av[j] == args@[j]@,
                av == spec_event_args(*self),
                spec_lookup(av, arg@) == spec_lookup(av.skip(i as int), arg@),
            decreases args@.len() - i,
        {
            proof {
                assert(av.skip(i as int).first() == av[i as int]);
                assert(av.skip(i as int).drop_first() =~= av.skip(i as int + 1));
            }
            if str_eq(args[i].name_str(), arg) {
                let f = args[i].clone();
                proof {
                    assert(spec_lookup(av.skip(i as int), arg@) == Some(av[i as int]));
                }
                return Ok(f);
            }
            i = i + 1;
        }
        proof {
            assert(av.skip(av.len() as int) =~= Seq::<FieldV>::empty());
        }
        match SystemVar::from_name(arg) {
            Some(v) => Ok(v.to_field()),
            None => Err(EbqlError::UnknownColumn(arg.to_owned())),
        }
    }

    /// Resolves a list of argument names against the event's own argument
    /// table alone (system variables are not consulted here), failing on the
    /// first name the event does not define.
    pub fn get_args(&self, args: &Vec<String>) -> (r: Result<Vec<Field>, EbqlError>)
        ensures
            r is Ok <==> (forall|i: int|
                0 <= i < args@.len() ==> spec_lookup(
                    spec_event_args(*self),
                    (#[trigger] args@[i])@,
                ) is Some),
            r matches Ok(v) ==> {
                &&& v@.len() == args@.len()
                &&& forall|i: int|
                    0 <= i < args@.len() ==> spec_lookup(spec_event_args(*self), args@[i]@)
                        == Some(seq_fields_view(v@)[i])
            },
            r matches Err(e) ==> e is UnknownColumn,
    {
        let mut out: Vec<Field> = Vec::new();
        let mut i: usize = 0;
        while i < args.len()
            invariant
                i <= args@.len(),
                out@.len() == i,
                seq_fields_view(out@).len() == i,
                forall|j: int|
                    0 <= j < i ==> spec_lookup(
                        spec_event_args(*self),
                        (#[trigger] args@[j])@,
                    ) == Some(seq_fields_view(out@)[j]),
            decreases args@.len() - i,
        {
            let ghost prev = out@;
            match get_event_field(self, args[i].as_str()) {
                Some(f) => {
                    out.push(f);
                    proof {
                        lemma_seq_fields_view_push(prev, f);
                        lemma_seq_fields_view_index(out@);
                    }
                },
                None => {
                    return Err(EbqlError::UnknownColumn(args[i].clone()));
                },
            }
            i = i + 1;
        }
        Ok(out)
    }
}

/// The stable event id.
pub open spec fn spec_event_id(e: TracepointEvent) -> u64 {
    match e {
        TracepointEvent::MmFilemapAddToPageCache => 498,
        TracepointEvent::MmFilemapDeleteFromPageCache => 499,
        TracepointEvent::SysEnterPread64 => 697,
        TracepointEvent::SysExitPread64 => 696,
    }
}

impl Field {
    /// The field name as a slice.
    pub fn name_str(&self) -> (r: &str)
        ensures
            r@ == self@.name,
    {
        self._name.as_str()
    }
}

/// Appends one argument, extending the view sequence.
fn push_arg(out: &mut Vec<Field>, f: Field)
    ensures
        final(out)@ == old(out)@.push(f),
        seq_fields_view(final(out)@) == seq_fields_view(old(out)@).push(f@),
{
    proof {
        lemma_seq_fields_view_push(out@, f);
    }
    out.push(f);
}

impl Event for TracepointEvent {
    fn event_program_type(&self) -> ProgramType {
        self.program_type()
    }

    fn event_name(&self) -> String {
        self.name()
    }

    fn event_id(&self) -> u64 {
        self.id()
    }

    fn event_all_args(&self) -> Result<Vec<Field>, EbqlError> {
        self.get_all_args()
    }

    fn event_arg(&self, arg: &str) -> Result<Field, EbqlError> {
        self.get_arg(arg)
    }

    fn event_ctx(&self) -> String {
        self.ctx()
    }
}

/// The event a hierarchical name denotes, if the catalog knows it.
pub open spec fn spec_get_event(name: Seq<char>) -> Option<TracepointEvent> {
    if name == spec_event_name(TracepointEvent::MmFilemapAddToPageCache) {
        Some(TracepointEvent::MmFilemapAddToPageCache)
    } else if name == spec_event_name(TracepointEvent::MmFilemapDeleteFromPageCache) {
        Some(TracepointEvent::MmFilemapDeleteFromPageCache)
    } else if name == spec_event_name(TracepointEvent::SysEnterPread64) {
        Some(TracepointEvent::SysEnterPread64)
    } else if name == spec_event_name(TracepointEvent::SysExitPread64) {
        Some(TracepointEvent::SysExitPread64)
    } else {
        None
    }
}

/// Gets the event associated with a hierarchical name.
pub fn get_event(event: &str) -> (r: Option<TracepointEvent>)
    ensures
        r == spec_get_event(event@),
{
    proof {
        reveal_strlit("filemap/mm_filemap_add_to_page_cache");
        reveal_strlit("filemap/mm_filemap_delete_frompage_cache");
        reveal_strlit("syscalls/sys_enter_pread64");
        reveal_strlit("syscalls/sys_exit_pread64");
        reveal_strlit("filemap");
        reveal_strlit("syscalls");
        reveal_strlit("/");
        reveal_strlit("mm_filemap_add_to_page_cache");
        reveal_strlit("mm_filemap_delete_frompage_cache");
        reveal_strlit("sys_enter_pread64");
        reveal_strlit("sys_exit_pread64");
        assert("filemap/mm_filemap_add_to_page_cache"@ =~= spec_event_name(
            TracepointEvent::MmFilemapAddToPageCache,
        ));
        assert("filemap/mm_filemap_delete_frompage_cache"@ =~= spec_event_name(
            TracepointEvent::MmFilemapDeleteFromPageCache,
        ));
        assert("syscalls/sys_enter_pread64"@ =~= spec_event_name(
            TracepointEvent::SysEnterPread64,
        ));
        assert("syscalls/sys_exit_pread64"@ =~= spec_event_name(TracepointEvent::SysExitPread64));
    }
    if str_eq(event, "filemap/mm_filemap_add_to_page_cache") {
        Some(TracepointEvent::MmFilemapAddToPageCache)
    } else if str_eq(event, "filemap/mm_filemap_delete_frompage_cache") {
        Some(TracepointEvent::MmFilemapDeleteFromPageCache)
    } else if str_eq(event, "syscalls/sys_enter_pread64") {
        Some(TracepointEvent::SysEnterPread64)
    } else if str_eq(event, "syscalls/sys_exit_pread64") {
        Some(TracepointEvent::SysExitPread64)
    } else {
        None
    }
}

/// Gets the event argument with the given name, when the event defines it;
/// system variables are not consulted here.
pub fn get_event_field(e: &TracepointEvent, field: &str) -> (r: Option<Field>)
    ensures
        r is None <==> spec_lookup(spec_event_args(*e), field@) is None,
        r matches Some(g) ==> spec_lookup(spec_event_args(*e), field@) == Some(g@),
{
    let args = match e.get_all_args() {
        Ok(v) => v,
        Err(_) => {
            proof {
                assert(false);
            }
            return None;
        },
    };
    proof {
        lemma_seq_fields_view_index(args@);
    }
    let ghost av = seq_fields_view(args@);
    let mut i: usize = 0;
    proof {
        assert(av.skip(0int) =~= av);
    }
    while i < args.len()
        invariant
            i <= args@.len(),
            av == seq_fields_view(args@),
            av.len() == args@.len(),
            forall|j: int| 0 <= j < args@.len() ==> av[j] == args@[j]@,
            av == spec_event_args(*e),
            spec_lookup(av, field@) == spec_lookup(av.skip(i as int), field@),
        decreases args@.len() - i,
    {
        proof {
            assert(av.skip(i as int).first() == av[i as int]);
            assert(av.skip(i as int).drop_first() =~= av.skip(i as int + 1));
        }
        if str_eq(args[i].name_str(), field) {
            let f = args[i].clone();
            proof {
                assert(spec_lookup(av.skip(i as int), field@) == Some(av[i as int]));
            }
            return Some(f);
        }
        i = i + 1;
    }
    proof {
        assert(av.skip(av.len() as int) =~= Seq::<FieldV>::empty());
    }
    None
}

} // verus!
