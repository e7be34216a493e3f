//! The code builder: phase-typed text construction of one BPF program.
//!
//! The builder keeps separate buffers for macros, struct definitions,
//! globals, includes, maps and the function body, with an indentation
//! prefix for nested regions. Its phases — base, struct construction, map
//! construction, body construction — are encoded in a type parameter, so
//! that in each phase only the operations valid there exist. `build`
//! assembles the header and source texts; writing them to disk and running
//! the external compiler is the caller's business.

use vstd::prelude::*;

verus! {

use core::marker::PhantomData;
use crate::bpf_struct::Struct;
use crate::map::{MapDef, RingBuf};
use crate::text::{dec_of, u64_to_dec};
use crate::types::{Field, c_field_decl};
use vstd::string::{StrSliceExecFns, StringExecFns};

/// To reuse field features, expressions are written as fields: a
/// `<type, name>` pair.
pub type Expr = Field;

/// Base phase marker.
#[derive(Clone, Copy, Debug, Default)]
pub struct Base;

/// Struct-construction phase marker.
#[derive(Clone, Copy, Debug)]
pub struct StructConstruction;

/// Map-construction phase marker.
#[derive(Clone, Copy, Debug)]
pub struct MapConstruction;

/// Body-construction phase marker.
#[derive(Clone, Copy, Debug)]
pub struct BodyConstruction;

/// An include directive.
#[derive(Debug)]
pub struct Includes {
    pub file: String,
    pub is_system: bool,
    pub comment: Option<String>,
}

/// What a program build hands on: the two generated texts, the rendered
/// external headers, and the catalog the runtime needs to decode the
/// program's output.
#[derive(Debug)]
pub struct BuildResult {
    /// Program name (files are `<name>.bpf.h` / `<name>.bpf.c`).
    pub name: String,
    /// The generated header text.
    pub header: String,
    /// The generated source text.
    pub source: String,
    /// Rendered external include files: name and contents.
    pub ext_includes: Vec<(String, String)>,
    /// Struct definitions written into the program.
    pub structs: Vec<Struct>,
    /// Map definitions written into the program.
    pub maps: Vec<MapDef>,
    /// Global expressions written into the program.
    pub globals: Vec<Expr>,
    /// The output ring buffer.
    pub ringbuf: RingBuf,
}

impl BuildResult {
    /// Bundles a build's artifacts.
    pub fn new(
        name: String,
        header: String,
        source: String,
        ext_includes: Vec<(String, String)>,
        structs: Vec<Struct>,
        maps: Vec<MapDef>,
        globals: Vec<Expr>,
        ringbuf: RingBuf,
    ) -> (r: Self)
        ensures
            r.name == name,
            r.header == header,
            r.source == source,
            r.ringbuf == ringbuf,
    {
        BuildResult { name, header, source, ext_includes, structs, maps, globals, ringbuf }
    }
}

/// The buffers and catalogs of a build in progress.
#[derive(Debug)]
pub struct BuilderCore {
    /// Output file name (without extensions).
    pub name: String,
    /// ELF section of the program.
    pub section: String,
    /// Macro definitions (header).
    pub macros_buf: String,
    /// Struct definitions (header).
    pub structs_buf: String,
    /// Global definitions (header).
    pub globals_buf: String,
    /// Include directives (source).
    pub includes_buf: String,
    /// Program code (source).
    pub code_buf: String,
    /// Map definitions (source).
    pub maps_buf: String,
    /// Rendered external header files: name and contents.
    pub ext_includes: Vec<(String, String)>,
    /// Globals catalog.
    pub globals: Vec<Expr>,
    /// Structs catalog.
    pub structs: Vec<Struct>,
    /// The output ring buffer, once written.
    pub ring_buffer: Option<RingBuf>,
    /// Maps catalog.
    pub maps: Vec<MapDef>,
    /// Current indentation prefix (tabs).
    pub prefix: String,
}

/// Code builder for BPF programs, parameterised by its construction phase.
#[derive(Debug)]
#[verifier::reject_recursive_types(S)]
pub struct BpfCodeBuilder<S = Base> {
    pub core: BuilderCore,
    pub _marker: PhantomData<S>,
}

/// One include line.
pub open spec fn include_line(header: Seq<char>, system: bool, comment: Seq<char>) -> Seq<char> {
    if system {
        "#include <"@ + header + "> /* "@ + comment + " */\n"@
    } else {
        "#include \""@ + header + "\" /* "@ + comment + " */\n"@
    }
}

/// One macro definition line.
pub open spec fn macro_line(name: Seq<char>, val: Seq<char>) -> Seq<char> {
    "#define "@ + name + " ("@ + val + ")\n"@
}

/// One global definition line.
pub open spec fn global_line(mods: Seq<char>, decl: Seq<char>, assign: Seq<char>) -> Seq<char> {
    mods + " "@ + decl + assign + ";\n"@
}

impl BpfCodeBuilder<Base> {
    /// Starts a builder for one program: the program's own header is always
    /// included first.
    pub fn new(name: String, section: String) -> (r: Self)
        ensures
            r.core.name@ == name@,
            r.core.section@ == section@,
            r.core.includes_buf@ == include_line(
                name@ + ".bpf.h"@,
                false,
                name@ + "'s definitions"@,
            ),
            r.core.macros_buf@.len() == 0,
            r.core.structs_buf@.len() == 0,
            r.core.globals_buf@.len() == 0,
            r.core.code_buf@.len() == 0,
            r.core.maps_buf@.len() == 0,
            r.core.prefix@.len() == 0,
            r.core.ring_buffer is None,
            r.core.structs@.len() == 0,
            r.core.maps@.len() == 0,
            r.core.globals@.len() == 0,
            r.core.ext_includes@.len() == 0,
    {
        let mut cb = BpfCodeBuilder::<Base> {
            core: BuilderCore {
                name: name.clone(),
                section,
                macros_buf: String::new(),
                structs_buf: String::new(),
                globals_buf: String::new(),
                includes_buf: String::new(),
                code_buf: String::new(),
                maps_buf: String::new(),
                ext_includes: Vec::new(),
                globals: Vec::new(),
                structs: Vec::new(),
                ring_buffer: None,
                maps: Vec::new(),
                prefix: String::new(),
            },
            _marker: PhantomData,
        };
        let mut hdr = name.clone();
        hdr.append(".bpf.h");
        let mut comment = name;
        comment.append("'s definitions");
        cb.write_includes(hdr.as_str(), false, Some(comment.as_str()));
        cb
    }

    /// Adds an include directive; a system header is bracketed, a project
    /// header quoted, and an optional comment trails.
    pub fn write_includes(&mut self, header: &str, system: bool, comment: Option<&str>)
        ensures
            final(self).core.includes_buf@ == old(self).core.includes_buf@ + include_line(
                header@,
                system,
                match comment {
                    Some(c) => c@,
                    None => Seq::empty(),
                },
            ),
            final(self).core.code_buf == old(self).core.code_buf,
            final(self).core.macros_buf == old(self).core.macros_buf,
            final(self).core.structs_buf == old(self).core.structs_buf,
            final(self).core.globals_buf == old(self).core.globals_buf,
            final(self).core.maps_buf == old(self).core.maps_buf,
            final(self).core.name == old(self).core.name,
            final(self).core.section == old(self).core.section,
            final(self).core.prefix == old(self).core.prefix,
            final(self).core.ring_buffer == old(self).core.ring_buffer,
            final(self).core.ext_includes == old(self).core.ext_includes,
            final(self).core.structs == old(self).core.structs,
            final(self).core.maps == old(self).core.maps,
            final(self).core.globals == old(self).core.globals,
    {
        if system {
            self.core.includes_buf.append("#include <");
            self.core.includes_buf.append(header);
            self.core.includes_buf.append("> /* ");
        } else {
            self.core.includes_buf.append("#include \"");
            self.core.includes_buf.append(header);
            self.core.includes_buf.append("\" /* ");
        }
        match comment {
            Some(c) => {
                self.core.includes_buf.append(c);
            },
            None => {},
        }
        self.core.includes_buf.append(" */\n");
    }

    /// Registers a rendered external header and includes it.
    pub fn add_external_includes(&mut self, name: &str, includes: String)
        ensures
            final(self).core.includes_buf@ == old(self).core.includes_buf@ + include_line(
                name@ + "_"@ + old(self).core.name@ + ".bpf.h"@,
                false,
                "External includes ("@ + name@ + ")"@,
            ),
            final(self).core.ext_includes@.len() == old(self).core.ext_includes@.len() + 1,
            forall|j: int|
                0 <= j < old(self).core.ext_includes@.len() ==> final(self).core.ext_includes@[j]
                    == old(self).core.ext_includes@[j],
            final(self).core.ext_includes@.last().0@ == old(self).core.hdr_name_of(name@),
            final(self).core.ext_includes@.last().1 == includes,
            final(self).core.code_buf == old(self).core.code_buf,
            final(self).core.macros_buf == old(self).core.macros_buf,
            final(self).core.structs_buf == old(self).core.structs_buf,
            final(self).core.globals_buf == old(self).core.globals_buf,
            final(self).core.maps_buf == old(self).core.maps_buf,
            final(self).core.name == old(self).core.name,
            final(self).core.section == old(self).core.section,
            final(self).core.prefix == old(self).core.prefix,
            final(self).core.ring_buffer == old(self).core.ring_buffer,
            final(self).core.hdr_name_of(name@) == name@ + "_"@ + old(self).core.name@
                + ".bpf.h"@,
    {
        let mut hdr_name = name.to_owned();
        hdr_name.append("_");
        hdr_name.append(self.core.name.as_str());
        hdr_name.append(".bpf.h");
        let mut comment = "External includes (".to_owned();
        comment.append(name);
        comment.append(")");
        self.core.ext_includes.push((hdr_name.clone(), includes));
        self.write_includes(hdr_name.as_str(), false, Some(comment.as_str()));
    }

    /// Adds a macro definition, enclosing the value in parentheses.
    pub fn write_macro(&mut self, name: &str, val: &str)
        ensures
            final(self).core.macros_buf@ == old(self).core.macros_buf@ + macro_line(name@, val@),
            final(self).core.includes_buf == old(self).core.includes_buf,
            final(self).core.code_buf == old(self).core.code_buf,
            final(self).core.structs_buf == old(self).core.structs_buf,
            final(self).core.globals_buf == old(self).core.globals_buf,
            final(self).core.maps_buf == old(self).core.maps_buf,
    {
        self.core.macros_buf.append("#define ");
        self.core.macros_buf.append(name);
        self.core.macros_buf.append(" (");
        self.core.macros_buf.append(val);
        self.core.macros_buf.append(")\n");
    }

    /// Writes a global expression with the given modifiers and optional
    /// assignment.
    pub fn write_global(&mut self, mods: &str, expr: &Expr, value: Option<&str>)
        ensures
            final(self).core.globals_buf@ == old(self).core.globals_buf@ + global_line(
                mods@,
                c_field_decl(expr@),
                match value {
                    Some(v) => " = "@ + v@,
                    None => Seq::empty(),
                },
            ),
            crate::types::seq_fields_view(final(self).core.globals@) == crate::types::seq_fields_view(
                old(self).core.globals@,
            ).push(expr@),
            final(self).core.includes_buf == old(self).core.includes_buf,
            final(self).core.code_buf == old(self).core.code_buf,
            final(self).core.structs_buf == old(self).core.structs_buf,
            final(self).core.macros_buf == old(self).core.macros_buf,
            final(self).core.maps_buf == old(self).core.maps_buf,
    {
        self.core.globals_buf.append(mods);
        self.core.globals_buf.append(" ");
        let d = expr.expr();
        self.core.globals_buf.append(d.as_str());
        match value {
            Some(v) => {
                self.core.globals_buf.append(" = ");
                self.core.globals_buf.append(v);
            },
            None => {},
        }
        self.core.globals_buf.append(";\n");
        let ghost prev = self.core.globals@;
        let c = expr.clone();
        self.core.globals.push(c);
        proof {
            crate::types::lemma_seq_fields_view_push(prev, c);
        }
    }

    /// Opens a struct definition; `close` ends it.
    pub fn start_struct(self) -> (r: BpfCodeBuilder<StructConstruction>)
        ensures
            r.core.structs_buf@ == self.core.structs_buf@ + "typedef struct {\n"@,
            r.core.prefix@ == self.core.prefix@ + "\t"@,
            r.core.includes_buf == self.core.includes_buf,
            r.core.code_buf == self.core.code_buf,
            r.core.macros_buf == self.core.macros_buf,
            r.core.globals_buf == self.core.globals_buf,
            r.core.maps_buf == self.core.maps_buf,
            r.core.name == self.core.name,
            r.core.section == self.core.section,
            r.core.ring_buffer == self.core.ring_buffer,
            r.core.structs == self.core.structs,
            r.core.maps == self.core.maps,
            r.core.ext_includes == self.core.ext_includes,
    {
        let mut core = self.core;
        core.structs_buf.append("typedef struct {\n");
        core.prefix.append("\t");
        BpfCodeBuilder::<StructConstruction> { core, _marker: PhantomData }
    }

    /// Opens a map definition; `close` ends it.
    pub fn start_map(self) -> (r: BpfCodeBuilder<MapConstruction>)
        ensures
            r.core.maps_buf@ == self.core.maps_buf@ + "struct {\n"@,
            r.core.prefix@ == self.core.prefix@ + "\t"@,
            r.core.includes_buf == self.core.includes_buf,
            r.core.code_buf == self.core.code_buf,
            r.core.macros_buf == self.core.macros_buf,
            r.core.globals_buf == self.core.globals_buf,
            r.core.structs_buf == self.core.structs_buf,
            r.core.name == self.core.name,
            r.core.section == self.core.section,
            r.core.ring_buffer == self.core.ring_buffer,
            r.core.structs == self.core.structs,
            r.core.maps == self.core.maps,
            r.core.ext_includes == self.core.ext_includes,
    {
        let mut core = self.core;
        core.maps_buf.append("struct {\n");
        core.prefix.append("\t");
        BpfCodeBuilder::<MapConstruction> { core, _marker: PhantomData }
    }

    /// Opens the program function with the given arguments; `close` ends it.
    pub fn start_function(self, args: &Vec<Expr>) -> (r: BpfCodeBuilder<BodyConstruction>)
        ensures
            r.core.code_buf@ == self.core.code_buf@ + "SEC(\""@ + self.core.section@ + "\")\n"@
                + "u32 "@ + self.core.name@ + "("@ + arg_list(crate::types::seq_fields_view(args@))
                + ") {\n"@,
            r.core.prefix@ == self.core.prefix@ + "\t"@,
            r.core.includes_buf == self.core.includes_buf,
            r.core.macros_buf == self.core.macros_buf,
            r.core.globals_buf == self.core.globals_buf,
            r.core.structs_buf == self.core.structs_buf,
            r.core.maps_buf == self.core.maps_buf,
            r.core.name == self.core.name,
            r.core.section == self.core.section,
            r.core.ring_buffer == self.core.ring_buffer,
            r.core.structs == self.core.structs,
            r.core.maps == self.core.maps,
            r.core.ext_includes == self.core.ext_includes,
    {
        proof {
            crate::types::lemma_seq_fields_view_index(args@);
        }
        let mut core = self.core;
        core.code_buf.append("SEC(\"");
        core.code_buf.append(core.section.as_str());
        core.code_buf.append("\")\n");
        core.code_buf.append("u32 ");
        core.code_buf.append(core.name.as_str());
        core.code_buf.append("(");
        let ghost fv = crate::types::seq_fields_view(args@);
        let mut i: usize = 0;
        let ghost base = core.code_buf@;
        let ghost orig = core;
        while i < args.len()
            invariant
                i <= args@.len(),
                fv == crate::types::seq_fields_view(args@),
                fv.len() == args@.len(),
                forall|j: int| 0 <= j < args@.len() ==> fv[j] == args@[j]@,
                core == (BuilderCore { code_buf: core.code_buf, ..orig }),
                core.code_buf@ == base + arg_list_prefix(fv, i as int),
            decreases args@.len() - i,
        {
            if i > 0 {
                core.code_buf.append(",");
            }
            let d = args[i].expr();
            core.code_buf.append(d.as_str());
            i = i + 1;
        }
        core.code_buf.append(") {\n");
        proof {
            assert(arg_list_prefix(fv, fv.len() as int) == arg_list(fv));
        }
        core.prefix.append("\t");
        BpfCodeBuilder::<BodyConstruction> { core, _marker: PhantomData }
    }
}

/// The comma-separated argument declarations of the first `i` arguments.
pub open spec fn arg_list_prefix(fs: Seq<crate::types::FieldV>, i: int) -> Seq<char>
    decreases i,
{
    if i <= 0 {
        Seq::empty()
    } else if i == 1 {
        c_field_decl(fs[0])
    } else {
        arg_list_prefix(fs, i - 1) + ","@ + c_field_decl(fs[i - 1])
    }
}

/// The comma-separated argument declarations.
pub open spec fn arg_list(fs: Seq<crate::types::FieldV>) -> Seq<char> {
    arg_list_prefix(fs, fs.len() as int)
}

impl BuilderCore {
    /// The file name an external include of this program gets.
    pub open spec fn hdr_name_of(self, name: Seq<char>) -> Seq<char> {
        name + "_"@ + self.name@ + ".bpf.h"@
    }
}

impl BpfCodeBuilder<StructConstruction> {
    /// Writes one field declaration of the struct.
    pub fn write_field(&mut self, f: &Expr)
        ensures
            final(self).core.structs_buf@ == old(self).core.structs_buf@ + old(
                self,
            ).core.prefix@ + c_field_decl(f@) + ";\n"@,
            final(self).core == (BuilderCore {
                structs_buf: final(self).core.structs_buf,
                ..old(self).core
            }),
    {
        let p = self.core.prefix.clone();
        self.core.structs_buf.append(p.as_str());
        let d = f.expr();
        self.core.structs_buf.append(d.as_str());
        self.core.structs_buf.append(";\n");
    }

    /// Ends the struct definition under the given type name.
    pub fn close(self, name: &str) -> (r: BpfCodeBuilder<Base>)
        ensures
            r.core.structs_buf@ == self.core.structs_buf@ + "} "@ + name@ + ";\n"@,
            r.core.prefix@ == pop_char(self.core.prefix@),
            r.core.includes_buf == self.core.includes_buf,
            r.core.code_buf == self.core.code_buf,
            r.core.macros_buf == self.core.macros_buf,
            r.core.globals_buf == self.core.globals_buf,
            r.core.maps_buf == self.core.maps_buf,
            r.core.name == self.core.name,
            r.core.section == self.core.section,
            r.core.ring_buffer == self.core.ring_buffer,
            r.core.structs == self.core.structs,
            r.core.maps == self.core.maps,
            r.core.ext_includes == self.core.ext_includes,
    {
        let mut core = self.core;
        core.structs_buf.append("} ");
        core.structs_buf.append(name);
        core.structs_buf.append(";\n");
        pop_prefix(&mut core.prefix);
        BpfCodeBuilder::<Base> { core, _marker: PhantomData }
    }
}

impl BpfCodeBuilder<MapConstruction> {
    /// Writes one map attribute: `attr(key, value);`.
    pub fn write_attr(&mut self, attr: &str, key: &str, val: &str)
        ensures
            final(self).core.maps_buf@ == old(self).core.maps_buf@ + attr_line(
                old(self).core.prefix@,
                attr@,
                key@,
                val@,
            ),
            final(self).core == (BuilderCore {
                maps_buf: final(self).core.maps_buf,
                ..old(self).core
            }),
    {
        let p = self.core.prefix.clone();
        self.core.maps_buf.append(p.as_str());
        self.core.maps_buf.append(attr);
        self.core.maps_buf.append("(");
        self.core.maps_buf.append(key);
        self.core.maps_buf.append(", ");
        self.core.maps_buf.append(val);
        self.core.maps_buf.append(");\n");
    }

    /// Ends the map definition under the given map name.
    pub fn close(self, name: &str) -> (r: BpfCodeBuilder<Base>)
        ensures
            r.core.maps_buf@ == self.core.maps_buf@ + "} "@ + name@ + " SEC(\".maps\");\n"@,
            r.core.prefix@ == pop_char(self.core.prefix@),
            r.core.includes_buf == self.core.includes_buf,
            r.core.code_buf == self.core.code_buf,
            r.core.macros_buf == self.core.macros_buf,
            r.core.globals_buf == self.core.globals_buf,
            r.core.structs_buf == self.core.structs_buf,
            r.core.name == self.core.name,
            r.core.section == self.core.section,
            r.core.ring_buffer == self.core.ring_buffer,
            r.core.structs == self.core.structs,
            r.core.maps == self.core.maps,
            r.core.ext_includes == self.core.ext_includes,
    {
        let mut core = self.core;
        core.maps_buf.append("} ");
        core.maps_buf.append(name);
        core.maps_buf.append(" SEC(\".maps\");\n");
        pop_prefix(&mut core.prefix);
        BpfCodeBuilder::<Base> { core, _marker: PhantomData }
    }
}

/// A sequence without its last element (the empty sequence stays empty).
pub open spec fn pop_char(s: Seq<char>) -> Seq<char> {
    if s.len() == 0 {
        s
    } else {
        s.drop_last()
    }
}

/// Removes the last indentation character, if any.
pub(crate) fn pop_prefix(prefix: &mut String)
    ensures
        final(prefix)@ == pop_char(old(prefix)@),
{
    let ghost before = prefix@;
    let n = prefix.as_str().unicode_len();
    if n == 0 {
        return;
    }
    let s = prefix.as_str().substring_char(0, n - 1).to_owned();
    proof {
        assert(before.subrange(0, before.len() - 1) =~= before.drop_last());
    }
    *prefix = s;
}

impl BpfCodeBuilder<BodyConstruction> {
    /// One prefixed line appended to the code buffer.
    pub open spec fn code_line(self, text: Seq<char>) -> Seq<char> {
        self.core.prefix@ + text + "\n"@
    }

    /// Appends one prefixed line of code.
    fn push_line(&mut self, text: &str)
        ensures
            final(self).core.code_buf@ == old(self).core.code_buf@ + old(self).code_line(text@),
            final(self).core == (BuilderCore { code_buf: final(self).core.code_buf, ..old(self).core }),
    {
        let p = self.core.prefix.clone();
        self.core.code_buf.append(p.as_str());
        self.core.code_buf.append(text);
        self.core.code_buf.append("\n");
    }

    /// Declares a variable without initialising it.
    pub fn write_var_declaration(&mut self, e: &Expr)
        ensures
            final(self).core.code_buf@ == old(self).core.code_buf@ + old(self).code_line(
                c_field_decl(e@) + ";"@,
            ),
            final(self).core == (BuilderCore { code_buf: final(self).core.code_buf, ..old(self).core }),
    {
        let mut line = e.expr();
        line.append(";");
        self.push_line(line.as_str());
    }

    /// Declares and initialises a variable.
    pub fn write_var_initialization(&mut self, e: &Expr, expr_value: &str)
        ensures
            final(self).core.code_buf@ == old(self).core.code_buf@ + old(self).code_line(
                c_field_decl(e@) + " = "@ + expr_value@ + ";"@,
            ),
            final(self).core == (BuilderCore { code_buf: final(self).core.code_buf, ..old(self).core }),
    {
        let mut line = e.expr();
        line.append(" = ");
        line.append(expr_value);
        line.append(";");
        self.push_line(line.as_str());
    }

    /// Assigns to a variable.
    pub fn write_var_assignment(&mut self, expr_name: &str, expr_value: &str)
        ensures
            final(self).core.code_buf@ == old(self).core.code_buf@ + old(self).code_line(
                expr_name@ + " = "@ + expr_value@ + ";"@,
            ),
            final(self).core == (BuilderCore { code_buf: final(self).core.code_buf, ..old(self).core }),
    {
        let mut line = expr_name.to_owned();
        line.append(" = ");
        line.append(expr_value);
        line.append(";");
        self.push_line(line.as_str());
    }

    /// Makes a function call with the given arguments.
    pub fn write_func_call(&mut self, func: &str, args: &Vec<String>)
        ensures
            final(self).core.code_buf@ == old(self).core.code_buf@ + old(self).code_line(
                func@ + "("@ + call_args(crate::views::views_of(args@)) + ");"@,
            ),
            final(self).core == (BuilderCore { code_buf: final(self).core.code_buf, ..old(self).core }),
    {
        proof {
            crate::views::lemma_views_of_index(args@);
        }
        let mut line = func.to_owned();
        line.append("(");
        let ghost av = crate::views::views_of(args@);
        let ghost base = line@;
        let mut i: usize = 0;
        while i < args.len()
            invariant
                i <= args@.len(),
                av == crate::views::views_of(args@),
                av.len() == args@.len(),
                forall|j: int| 0 <= j < args@.len() ==> av[j] == args@[j]@,
                line@ == base + call_args_prefix(av, i as int),
            decreases args@.len() - i,
        {
            if i > 0 {
                line.append(", ");
            }
            line.append(args[i].as_str());
            i = i + 1;
        }
        line.append(");");
        proof {
            assert(call_args_prefix(av, av.len() as int) == call_args(av));
        }
        self.push_line(line.as_str());
    }

    /// Helper to copy fixed-length strings through the kernel's bounded
    /// probe-read helper.
    pub fn write_str_assignment(&mut self, src: &str, dst: &str, sz: &str)
        ensures
            final(self).core.code_buf@ == old(self).core.code_buf@ + old(self).code_line(
                "bpf_probe_read_kernel"@ + "("@ + call_args(seq![dst@, sz@, src@]) + ");"@,
            ),
            final(self).core == (BuilderCore { code_buf: final(self).core.code_buf, ..old(self).core }),
    {
        let mut args: Vec<String> = Vec::new();
        args.push(dst.to_owned());
        args.push(sz.to_owned());
        args.push(src.to_owned());
        proof {
            crate::views::lemma_views_of_index(args@);
            assert(crate::views::views_of(args@) =~= seq![dst@, sz@, src@]);
            assert(call_args_prefix(seq![dst@, sz@, src@], 1) == dst@);
            assert(call_args_prefix(seq![dst@, sz@, src@], 2) == dst@ + ", "@ + sz@);
            assert(call_args_prefix(seq![dst@, sz@, src@], 3) == dst@ + ", "@ + sz@ + ", "@
                + src@);
        }
        self.write_func_call("bpf_probe_read_kernel", &args);
        proof {
            assert(crate::views::views_of(args@) == seq![dst@, sz@, src@]);
        }
    }

    /// Opens an `if` over the condition.
    pub fn write_if(&mut self, cond: &str)
        ensures
            final(self).core.code_buf@ == old(self).core.code_buf@ + old(self).code_line(
                "if ("@ + cond@ + ") {"@,
            ),
            final(self).core.prefix@ == old(self).core.prefix@ + "\t"@,
            final(self).core == (BuilderCore {
                code_buf: final(self).core.code_buf,
                prefix: final(self).core.prefix,
                ..old(self).core
            }),
    {
        let mut line = "if (".to_owned();
        line.append(cond);
        line.append(") {");
        self.push_line(line.as_str());
        self.core.prefix.append("\t");
    }

    /// Continues with an `else if` branch.
    pub fn write_elif(&mut self, cond: &str)
        ensures
            final(self).core.code_buf@ == old(self).core.code_buf@ + pop_char(
                old(self).core.prefix@,
            ) + "} else if ("@ + cond@ + ") {"@ + "\n"@,
            final(self).core.prefix@ == pop_char(old(self).core.prefix@) + "\t"@,
            final(self).core == (BuilderCore {
                code_buf: final(self).core.code_buf,
                prefix: final(self).core.prefix,
                ..old(self).core
            }),
    {
        pop_prefix(&mut self.core.prefix);
        let mut line = "} else if (".to_owned();
        line.append(cond);
        line.append(") {");
        self.push_line(line.as_str());
        self.core.prefix.append("\t");
    }

    /// Continues with an `else` branch.
    pub fn write_else(&mut self)
        ensures
            final(self).core.code_buf@ == old(self).core.code_buf@ + pop_char(
                old(self).core.prefix@,
            ) + "} else {"@ + "\n"@,
            final(self).core.prefix@ == pop_char(old(self).core.prefix@) + "\t"@,
            final(self).core == (BuilderCore {
                code_buf: final(self).core.code_buf,
                prefix: final(self).core.prefix,
                ..old(self).core
            }),
    {
        pop_prefix(&mut self.core.prefix);
        self.push_line("} else {");
        self.core.prefix.append("\t");
    }

    /// Closes an `if` region.
    pub fn close_if(&mut self)
        ensures
            final(self).core.code_buf@ == old(self).core.code_buf@ + pop_char(
                old(self).core.prefix@,
            ) + "}"@ + "\n"@,
            final(self).core.prefix@ == pop_char(old(self).core.prefix@),
            final(self).core == (BuilderCore {
                code_buf: final(self).core.code_buf,
                prefix: final(self).core.prefix,
                ..old(self).core
            }),
    {
        pop_prefix(&mut self.core.prefix);
        self.push_line("}");
    }

    /// Writes a `return`.
    pub fn write_return(&mut self, val: &str)
        ensures
            final(self).core.code_buf@ == old(self).core.code_buf@ + old(self).code_line(
                "return "@ + val@ + ";"@,
            ),
            final(self).core == (BuilderCore { code_buf: final(self).core.code_buf, ..old(self).core }),
    {
        let mut line = "return ".to_owned();
        line.append(val);
        line.append(";");
        self.push_line(line.as_str());
    }

    /// Ends the program function.
    pub fn close(self) -> (r: BpfCodeBuilder<Base>)
        ensures
            r.core.code_buf@ == self.core.code_buf@ + "}"@ + "\n"@,
            r.core.prefix@ == pop_char(self.core.prefix@),
            r.core.includes_buf == self.core.includes_buf,
            r.core.macros_buf == self.core.macros_buf,
            r.core.globals_buf == self.core.globals_buf,
            r.core.structs_buf == self.core.structs_buf,
            r.core.maps_buf == self.core.maps_buf,
            r.core.name == self.core.name,
            r.core.section == self.core.section,
            r.core.ring_buffer == self.core.ring_buffer,
            r.core.structs == self.core.structs,
            r.core.maps == self.core.maps,
            r.core.ext_includes == self.core.ext_includes,
    {
        let mut core = self.core;
        core.code_buf.append("}");
        core.code_buf.append("\n");
        pop_prefix(&mut core.prefix);
        BpfCodeBuilder::<Base> { core, _marker: PhantomData }
    }
}

/// The comma-separated call arguments of the first `i` arguments.
pub open spec fn call_args_prefix(args: Seq<Seq<char>>, i: int) -> Seq<char>
    decreases i,
{
    if i <= 0 {
        Seq::empty()
    } else if i == 1 {
        args[0]
    } else {
        call_args_prefix(args, i - 1) + ", "@ + args[i - 1]
    }
}

/// The comma-separated call arguments.
pub open spec fn call_args(args: Seq<Seq<char>>) -> Seq<char> {
    call_args_prefix(args, args.len() as int)
}

/// The field declarations of a struct body, one prefixed line each.
pub open spec fn struct_fields_text(fs: Seq<crate::types::FieldV>, i: int, prefix: Seq<char>) -> Seq<char>
    decreases fs.len() - i,
{
    if i < 0 || i >= fs.len() {
        Seq::empty()
    } else {
        prefix + c_field_decl(fs[i]) + ";\n"@ + struct_fields_text(fs, i + 1, prefix)
    }
}

/// One map attribute line.
pub open spec fn attr_line(prefix: Seq<char>, attr: Seq<char>, key: Seq<char>, val: Seq<char>) -> Seq<char> {
    prefix + attr + "("@ + key + ", "@ + val + ");\n"@
}

impl BpfCodeBuilder<Base> {
    /// Writes a complete struct definition into the header and records it in
    /// the catalog.
    #[verifier::rlimit(100)]
    pub fn write_struct(self, s: &Struct) -> (r: Self)
        ensures
            r.core.structs_buf@ == self.core.structs_buf@ + "typedef struct {\n"@
                + struct_fields_text(s.fv(), 0, self.core.prefix@ + "\t"@) + "} "@ + s.name@
                + ";\n"@,
            r.core.structs@.len() == self.core.structs@.len() + 1,
            r.core.prefix@ == pop_char(self.core.prefix@ + "\t"@),
            r.core.includes_buf == self.core.includes_buf,
            r.core.code_buf == self.core.code_buf,
            r.core.macros_buf == self.core.macros_buf,
            r.core.globals_buf == self.core.globals_buf,
            r.core.maps_buf == self.core.maps_buf,
            r.core.name == self.core.name,
            r.core.section == self.core.section,
            r.core.ring_buffer == self.core.ring_buffer,
            r.core.maps == self.core.maps,
            r.core.ext_includes == self.core.ext_includes,
    {
        proof {
            crate::types::lemma_seq_fields_view_index(s.fields@);
        }
        let ghost fv = s.fv();
        let mut cb = self.start_struct();
        let ghost base = cb.core.structs_buf@;
        let ghost pfx = cb.core.prefix@;
        let mut i: usize = 0;
        let ghost orig = cb.core;
        while i < s.fields.len()
            invariant
                i <= s.fields@.len(),
                fv == s.fv(),
                fv.len() == s.fields@.len(),
                forall|j: int| 0 <= j < s.fields@.len() ==> fv[j] == s.fields@[j]@,
                cb.core == (BuilderCore { structs_buf: cb.core.structs_buf, ..orig }),
                pfx == orig.prefix@,
                cb.core.structs_buf@ == base + struct_fields_text(fv, 0, pfx).take(
                    struct_text_len(fv, i as int, pfx),
                ),
                struct_text_len(fv, i as int, pfx) <= struct_fields_text(fv, 0, pfx).len(),
            decreases s.fields@.len() - i,
        {
            proof {
                lemma_struct_fields_text_split(fv, i as int, pfx);
            }
            cb.write_field(&s.fields[i]);
            proof {
                lemma_struct_fields_text_split(fv, i as int + 1, pfx);
                assert(cb.core.structs_buf@ =~= base + struct_fields_text(fv, 0, pfx).take(
                    struct_text_len(fv, i as int + 1, pfx),
                ));
            }
            i = i + 1;
        }
        proof {
            lemma_struct_fields_text_split(fv, fv.len() as int, pfx);
            assert(struct_fields_text(fv, 0, pfx).take(struct_text_len(fv, fv.len() as int, pfx))
                =~= struct_fields_text(fv, 0, pfx));
        }
        let nm = s.name.clone();
        let mut r = cb.close(nm.as_str());
        let sc = s.shallow_clone();
        r.core.structs.push(sc);
        proof {
            assert(r.core.structs_buf@ =~= self.core.structs_buf@ + "typedef struct {\n"@
                + struct_fields_text(s.fv(), 0, self.core.prefix@ + "\t"@) + "} "@ + s.name@
                + ";\n"@);
        }
        r
    }

    /// Writes a complete map definition into the source and records it in
    /// the catalog.
    #[verifier::rlimit(100)]
    pub fn write_map(self, map_def: &MapDef) -> (r: Self)
        requires
            crate::types::width_of(map_def.key_type@) <= usize::MAX,
        ensures
            r.core.maps@.len() == self.core.maps@.len() + 1,
            r.core.includes_buf == self.core.includes_buf,
            r.core.code_buf == self.core.code_buf,
            r.core.macros_buf == self.core.macros_buf,
            r.core.globals_buf == self.core.globals_buf,
            r.core.structs_buf == self.core.structs_buf,
            r.core.name == self.core.name,
            r.core.section == self.core.section,
            r.core.ring_buffer == self.core.ring_buffer,
            r.core.ext_includes == self.core.ext_includes,
            r.core.maps_buf@ == self.core.maps_buf@ + map_text(*map_def, self.core.prefix@),
    {
        let ghost pfx = self.core.prefix@ + "\t"@;
        let mut cb = self.start_map();
        let tn = map_def.map_type.c_name();
        cb.write_attr("__uint", "type", tn);
        let kt = map_def.key_type.c_type();
        cb.write_attr("__type", "key", kt.as_str());
        cb.write_attr("__uint", "value", map_def.value_type.as_str());
        let me = u64_to_dec(map_def.max_entries);
        cb.write_attr("__uint", "max_entries", me.as_str());
        if map_def.flags.val > 0 {
            let fl = u64_to_dec(map_def.flags.val);
            cb.write_attr("__uint", "map_flags", fl.as_str());
        }
        match &map_def.pin {
            Some(path) => {
                cb.write_attr("__uint", "pinning", path.as_str());
            },
            None => {},
        }
        let mut r = cb.close(map_def.name.as_str());
        let mc = map_def.shallow_clone();
        r.core.maps.push(mc);
        proof {
            assert(r.core.maps_buf@ =~= self.core.maps_buf@ + map_text(*map_def, self.core.prefix@));
        }
        r
    }

    /// Writes the output ring buffer: its map definition sized
    /// `max_entries * struct size`, and the emitted struct's definition.
    #[verifier::rlimit(100)]
    pub fn write_ring_buffer(self, rb_def: &RingBuf) -> (r: Self)
        requires
            rb_def.max_entries * rb_def.s_repr.sz <= u64::MAX,
        ensures
            r.core.ring_buffer matches Some(rb) && rb.name == rb_def.name && rb.max_entries
                == rb_def.max_entries && (rb.s_repr.wf() <==> rb_def.s_repr.wf())
                && rb.s_repr.schema@ == rb_def.s_repr.schema@ && rb.s_repr.sz == rb_def.s_repr.sz,
            r.core.maps_buf@ == self.core.maps_buf@ + "struct {\n"@ + attr_line(
                self.core.prefix@ + "\t"@,
                "__uint"@,
                "type"@,
                "BPF_MAP_TYPE_RINGBUF"@,
            ) + attr_line(
                self.core.prefix@ + "\t"@,
                "__uint"@,
                "max_entries"@,
                dec_of((rb_def.max_entries * rb_def.s_repr.sz) as nat),
            ) + "} "@ + rb_def.name@ + " SEC(\".maps\");\n"@,
            r.core.structs_buf@ == self.core.structs_buf@ + "typedef struct {\n"@
                + struct_fields_text(
                rb_def.s_repr.fv(),
                0,
                pop_char(self.core.prefix@ + "\t"@) + "\t"@,
            ) + "} "@ + rb_def.s_repr.name@ + ";\n"@,
            r.core.includes_buf == self.core.includes_buf,
            r.core.code_buf == self.core.code_buf,
            r.core.macros_buf == self.core.macros_buf,
            r.core.globals_buf == self.core.globals_buf,
            r.core.name == self.core.name,
            r.core.section == self.core.section,
    {
        let mut cb = self.start_map();
        cb.write_attr("__uint", "type", "BPF_MAP_TYPE_RINGBUF");
        let total = rb_def.max_entries * (rb_def.s_repr.sz as u64);
        let me = u64_to_dec(total);
        cb.write_attr("__uint", "max_entries", me.as_str());
        let cb2 = cb.close(rb_def.name.as_str());
        let mut r = cb2.write_struct(&rb_def.s_repr);
        r.core.ring_buffer = Some(rb_def.shallow_clone());
        proof {
            assert(r.core.maps_buf@ =~= self.core.maps_buf@ + "struct {\n"@ + attr_line(
                self.core.prefix@ + "\t"@,
                "__uint"@,
                "type"@,
                "BPF_MAP_TYPE_RINGBUF"@,
            ) + attr_line(
                self.core.prefix@ + "\t"@,
                "__uint"@,
                "max_entries"@,
                dec_of((rb_def.max_entries * rb_def.s_repr.sz) as nat),
            ) + "} "@ + rb_def.name@ + " SEC(\".maps\");\n"@);
        }
        r
    }

    /// Assembles the header and source texts of the program and hands them
    /// on with the catalogs. The header carries the macros, structs and
    /// globals; the source the includes, maps, code, and the license line.
    pub fn build(self) -> (r: BuildResult)
        requires
            self.core.ring_buffer is Some,
        ensures
            r.name == self.core.name,
            r.header@ == header_text(self.core),
            r.source@ == source_text(self.core),
            r.ringbuf == self.core.ring_buffer.unwrap(),
    {
        let mut hdr = "#pragma once\n".to_owned();
        hdr.append("// *** HEADER FOR QUERY ");
        hdr.append(self.core.name.as_str());
        hdr.append(" *** //\n");
        hdr.append("#include \"common.bpf.h\" /* common definitions */\n\n");
        hdr.append("// *** MACRO DEFINITIONS *** //\n");
        hdr.append(self.core.macros_buf.as_str());
        hdr.append("\n\n// *** STRUCT DEFINITIONS *** //\n");
        hdr.append(self.core.structs_buf.as_str());
        hdr.append("\n\n// *** GLOBAL DEFINITIONS *** //\n");
        hdr.append(self.core.globals_buf.as_str());
        hdr.append("\n\n");
        let mut src = "// *** SOURCE FOR ".to_owned();
        src.append(self.core.name.as_str());
        src.append(" *** //\n\n");
        src.append("// *** INCLUDES SECTION *** //\n");
        src.append(self.core.includes_buf.as_str());
        src.append("\n\n// *** MAPS SECTION *** //\n");
        src.append(self.core.maps_buf.as_str());
        src.append("\n\n// *** CODE SECTION *** //\n");
        src.append(self.core.code_buf.as_str());
        src.append("\n\n// *** LICENSE *** //\n");
        src.append("char LICENSE[] SEC(\"license\") = \"Dual BSD/GPL\";\n");
        let rb = match self.core.ring_buffer {
            Some(rb) => rb,
            None => {
                proof {
                    assert(false);
                }
                RingBuf {
                    name: String::new(),
                    s_repr: Struct {
                        name: String::new(),
                        fields: Vec::new(),
                        sz: 0,
                        offs: Vec::new(),
                        schema: crate::schema::Schema::new(None, crate::field::Fields::empty()),
                        mapping: Vec::new(),
                    },
                    max_entries: 0,
                }
            },
        };
        BuildResult::new(
            self.core.name,
            hdr,
            src,
            self.core.ext_includes,
            self.core.structs,
            self.core.maps,
            self.core.globals,
            rb,
        )
    }
}

/// The assembled header text.
pub open spec fn header_text(c: BuilderCore) -> Seq<char> {
    "#pragma once\n"@ + "// *** HEADER FOR QUERY "@ + c.name@ + " *** //\n"@
        + "#include \"common.bpf.h\" /* common definitions */\n\n"@
        + "// *** MACRO DEFINITIONS *** //\n"@ + c.macros_buf@
        + "\n\n// *** STRUCT DEFINITIONS *** //\n"@ + c.structs_buf@
        + "\n\n// *** GLOBAL DEFINITIONS *** //\n"@ + c.globals_buf@ + "\n\n"@
}

/// The assembled source text.
pub open spec fn source_text(c: BuilderCore) -> Seq<char> {
    "// *** SOURCE FOR "@ + c.name@ + " *** //\n\n"@ + "// *** INCLUDES SECTION *** //\n"@
        + c.includes_buf@ + "\n\n// *** MAPS SECTION *** //\n"@ + c.maps_buf@
        + "\n\n// *** CODE SECTION *** //\n"@ + c.code_buf@ + "\n\n// *** LICENSE *** //\n"@
        + "char LICENSE[] SEC(\"license\") = \"Dual BSD/GPL\";\n"@
}

/// The text of one map definition.
pub open spec fn map_text(d: MapDef, prefix: Seq<char>) -> Seq<char> {
    let p = prefix + "\t"@;
    "struct {\n"@ + attr_line(p, "__uint"@, "type"@, crate::map::spec_map_type_name(d.map_type))
        + attr_line(p, "__type"@, "key"@, crate::types::c_type_name(d.key_type@)) + attr_line(
        p,
        "__uint"@,
        "value"@,
        d.value_type@,
    ) + attr_line(p, "__uint"@, "max_entries"@, dec_of(d.max_entries as nat)) + (if d.flags.val
        > 0 {
        attr_line(p, "__uint"@, "map_flags"@, dec_of(d.flags.val as nat))
    } else {
        Seq::empty()
    }) + (match d.pin {
        Some(path) => attr_line(p, "__uint"@, "pinning"@, path@),
        None => Seq::empty(),
    }) + "} "@ + d.name@ + " SEC(\".maps\");\n"@
}

/// The rendered length of the first `i` field lines.
pub open spec fn struct_text_len(fs: Seq<crate::types::FieldV>, i: int, prefix: Seq<char>) -> int {
    struct_fields_text(fs, 0, prefix).len() - struct_fields_text(fs, i, prefix).len()
}

/// The full field text splits at any position into the rendered prefix and
/// the rest.
pub proof fn lemma_struct_fields_text_split(fs: Seq<crate::types::FieldV>, i: int, prefix: Seq<char>)
    requires
        0 <= i <= fs.len(),
    ensures
        struct_fields_text(fs, 0, prefix) == struct_fields_text(fs, 0, prefix).take(
            struct_text_len(fs, i, prefix),
        ) + struct_fields_text(fs, i, prefix),
        0 <= struct_text_len(fs, i, prefix) <= struct_fields_text(fs, 0, prefix).len(),
        i < fs.len() ==> struct_fields_text(fs, 0, prefix).take(struct_text_len(fs, i + 1, prefix))
            == struct_fields_text(fs, 0, prefix).take(struct_text_len(fs, i, prefix)) + prefix
            + c_field_decl(fs[i]) + ";\n"@,
    decreases i,
{
    if i == 0 {
        assert(struct_fields_text(fs, 0, prefix).take(0) =~= Seq::<char>::empty());
        assert(struct_fields_text(fs, 0, prefix) =~= Seq::<char>::empty() + struct_fields_text(
            fs,
            0,
            prefix,
        ));
        if 0 < fs.len() {
            assert(struct_fields_text(fs, 0, prefix) == prefix + c_field_decl(fs[0]) + ";\n"@
                + struct_fields_text(fs, 1, prefix));
            assert(struct_fields_text(fs, 0, prefix).take(struct_text_len(fs, 1, prefix)) =~= prefix
                + c_field_decl(fs[0]) + ";\n"@);
            assert(struct_fields_text(fs, 0, prefix).take(struct_text_len(fs, 0, prefix)) =~= Seq::<
                char,
            >::empty());
        }
    } else {
        lemma_struct_fields_text_split(fs, i - 1, prefix);
        assert(struct_fields_text(fs, i - 1, prefix) == prefix + c_field_decl(fs[i - 1]) + ";\n"@
            + struct_fields_text(fs, i, prefix));
        assert(struct_fields_text(fs, 0, prefix) =~= struct_fields_text(fs, 0, prefix).take(
            struct_text_len(fs, i, prefix),
        ) + struct_fields_text(fs, i, prefix));
        if i < fs.len() {
            assert(struct_fields_text(fs, i, prefix) == prefix + c_field_decl(fs[i]) + ";\n"@
                + struct_fields_text(fs, i + 1, prefix));
            assert(struct_fields_text(fs, 0, prefix).take(struct_text_len(fs, i + 1, prefix))
                =~= struct_fields_text(fs, 0, prefix).take(struct_text_len(fs, i, prefix)) + prefix
                + c_field_decl(fs[i]) + ";\n"@);
        }
    }
}

impl Struct {
    /// A copy that shares the same model.
    pub fn shallow_clone(&self) -> (r: Struct)
        ensures
            r.fv() == self.fv(),
            r.name@ == self.name@,
            r.sz == self.sz,
            r.offs@ == self.offs@,
            r.mapping@ == self.mapping@,
            r.schema@ == self.schema@,
            r.wf() <==> self.wf(),
            r.fields@.len() == self.fields@.len(),
    {
        let mut fields: Vec<Field> = Vec::new();
        proof {
            crate::types::lemma_seq_fields_view_index(self.fields@);
        }
        let mut i: usize = 0;
        while i < self.fields.len()
            invariant
                i <= self.fields@.len(),
                fields@.len() == i,
                crate::types::seq_fields_view(fields@) == crate::types::seq_fields_view(
                    self.fields@.take(i as int),
                ),
            decreases self.fields@.len() - i,
        {
            let ghost prev = fields@;
            let c = self.fields[i].clone();
            fields.push(c);
            proof {
                assert(self.fields@.take(i + 1) =~= self.fields@.take(i as int).push(
                    self.fields@[i as int],
                ));
                crate::types::lemma_seq_fields_view_push(prev, c);
                crate::types::lemma_seq_fields_view_push(
                    self.fields@.take(i as int),
                    self.fields@[i as int],
                );
            }
            i = i + 1;
        }
        proof {
            assert(self.fields@.take(self.fields@.len() as int) =~= self.fields@);
        }
        let r = Struct {
            name: self.name.clone(),
            fields,
            sz: self.sz,
            offs: clone_usizes(&self.offs),
            schema: self.schema.clone(),
            mapping: clone_usizes(&self.mapping),
        };
        proof {
            crate::types::lemma_seq_fields_view_index(r.fields@);
            crate::types::lemma_seq_fields_view_index(self.fields@);
        }
        r
    }
}

impl MapDef {
    /// A copy that shares the same model.
    pub fn shallow_clone(&self) -> (r: MapDef)
        ensures
            r.name@ == self.name@,
            r.map_type == self.map_type,
            r.key_type@ == self.key_type@,
            r.value_type@ == self.value_type@,
            r.max_entries == self.max_entries,
            r.flags == self.flags,
    {
        MapDef {
            name: self.name.clone(),
            map_type: self.map_type,
            key_type: self.key_type.clone(),
            value_type: self.value_type.clone(),
            max_entries: self.max_entries,
            flags: self.flags,
            pin: match &self.pin {
                Some(p) => Some(p.clone()),
                None => None,
            },
        }
    }
}

impl RingBuf {
    /// A copy that shares the same model.
    pub fn shallow_clone(&self) -> (r: RingBuf)
        ensures
            r.name@ == self.name@,
            r.name == self.name,
            r.max_entries == self.max_entries,
            r.s_repr.fv() == self.s_repr.fv(),
            r.s_repr.wf() <==> self.s_repr.wf(),
            r.s_repr.sz == self.s_repr.sz,
            r.s_repr.mapping@ == self.s_repr.mapping@,
            r.s_repr.schema@ == self.s_repr.schema@,
            r.s_repr.offs@ == self.s_repr.offs@,
    {
        RingBuf {
            name: self.name.clone(),
            s_repr: self.s_repr.shallow_clone(),
            max_entries: self.max_entries,
        }
    }
}

/// Copies a vector of machine words.
fn clone_usizes(v: &Vec<usize>) -> (r: Vec<usize>)
    ensures
        r@ == v@,
{
    let mut out: Vec<usize> = Vec::new();
    let mut i: usize = 0;
    while i < v.len()
        invariant
            i <= v@.len(),
            out@ == v@.take(i as int),
        decreases v@.len() - i,
    {
        out.push(v[i]);
        proof {
            assert(v@.take(i + 1) =~= v@.take(i as int).push(v@[i as int]));
        }
        i = i + 1;
    }
    proof {
        assert(v@.take(v@.len() as int) =~= v@);
    }
    out
}

impl BpfCodeBuilder<BodyConstruction> {
    /// Projects one field into the body: a fresh local unless a struct
    /// member is named, loaded by the system-variable helper when the name
    /// is one, otherwise assigned from the context argument (through the
    /// member array when the field carries one).
    pub fn write_field(&mut self, f: &crate::types::Field, st: Option<(&str, bool)>)
        ensures
            final(self).core == (BuilderCore {
                code_buf: final(self).core.code_buf,
                ..old(self).core
            }),
    {
        let target: String = match st {
            Some((stname, ptr)) => {
                let mut t = stname.to_owned();
                if ptr {
                    t.append("->");
                } else {
                    t.append(".");
                }
                t.append(f._name.as_str());
                t
            },
            None => {
                self.write_var_declaration(f);
                f._name.clone()
            },
        };
        match crate::events::SystemVar::from_name(f._name.as_str()) {
            Some(sv) => {
                let helper = sv.get_helper();
                let mut args: Vec<String> = Vec::new();
                args.push(target);
                self.write_func_call(helper, &args);
            },
            None => {
                let access: String = match (&f._arr, &f._off) {
                    (Some(arr), Some(off)) => {
                        let mut a = "ctx->".to_owned();
                        a.append(arr.as_str());
                        a.append("[");
                        let d = crate::text::usize_to_dec(*off);
                        a.append(d.as_str());
                        a.append("]");
                        a
                    },
                    _ => {
                        let mut a = "ctx->".to_owned();
                        a.append(f._name.as_str());
                        a
                    },
                };
                self.write_var_assignment(target.as_str(), access.as_str());
            },
        }
    }
}

} // verus!
