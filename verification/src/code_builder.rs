//! A single-file code builder: the simpler, string-typed predecessor of the
//! program builder, kept for assembling one-off select programs.

use vstd::prelude::*;

verus! {

use core::marker::PhantomData;
use vstd::string::{StrSliceExecFns, StringExecFns};

/// Base phase marker.
#[derive(Clone, Copy, Debug, Default)]
pub struct Base;

/// Struct-construction phase marker.
#[derive(Clone, Copy, Debug)]
pub struct StructConstruction;

/// Map-construction phase marker.
#[derive(Clone, Copy, Debug)]
pub struct MapConstruction;

/// Body-construction phase marker.
#[derive(Clone, Copy, Debug)]
pub struct BodyConstruction;

/// A function argument: a name and its C type, both as text.
#[derive(Clone, Debug)]
pub struct Arg {
    pub _name: String,
    pub _type: String,
}

/// An include directive.
#[derive(Debug)]
pub struct Includes {
    pub file: String,
    pub is_system: bool,
    pub comment: Option<String>,
}

/// The four text sections of a single-file program.
#[derive(Debug)]
pub struct BuilderBufs {
    pub includes_buf: String,
    pub defs_buf: String,
    pub globals_buf: String,
    pub code_buf: String,
    pub prefix: String,
}

/// Code builder for single-file BPF programs, parameterised by its
/// construction phase.
#[derive(Debug)]
#[verifier::reject_recursive_types(S)]
pub struct BpfCodeBuilder<S = Base> {
    pub bufs: BuilderBufs,
    pub _marker: PhantomData<S>,
}

/// One include line.
pub open spec fn include_line(header: Seq<char>, system: bool, comment: Seq<char>) -> Seq<char> {
    if system {
        "#include <"@ + header + "> /* "@ + comment + " */\n"@
    } else {
        "#include \""@ + header + "\" /* "@ + comment + " */\n"@
    }
}

impl BpfCodeBuilder<Base> {
    /// An empty builder.
    pub fn new() -> (r: Self)
        ensures
            r.bufs.includes_buf@.len() == 0,
            r.bufs.defs_buf@.len() == 0,
            r.bufs.globals_buf@.len() == 0,
            r.bufs.code_buf@.len() == 0,
            r.bufs.prefix@.len() == 0,
    {
        BpfCodeBuilder::<Base> {
            bufs: BuilderBufs {
                includes_buf: String::new(),
                defs_buf: String::new(),
                globals_buf: String::new(),
                code_buf: String::new(),
                prefix: String::new(),
            },
            _marker: PhantomData,
        }
    }

    /// Adds an include directive; a system header is bracketed, a project
    /// header quoted.
    pub fn write_includes(&mut self, header: &str, system: bool, comment: Option<&str>)
        ensures
            final(self).bufs.includes_buf@ == old(self).bufs.includes_buf@ + include_line(
                header@,
                system,
                match comment {
                    Some(c) => c@,
                    None => Seq::empty(),
                },
            ),
            final(self).bufs == (BuilderBufs {
                includes_buf: final(self).bufs.includes_buf,
                ..old(self).bufs
            }),
    {
        if system {
            self.bufs.includes_buf.append("#include <");
            self.bufs.includes_buf.append(header);
            self.bufs.includes_buf.append("> /* ");
        } else {
            self.bufs.includes_buf.append("#include \"");
            self.bufs.includes_buf.append(header);
            self.bufs.includes_buf.append("\" /* ");
        }
        match comment {
            Some(c) => {
                self.bufs.includes_buf.append(c);
            },
            None => {},
        }
        self.bufs.includes_buf.append(" */\n");
    }

    /// Writes a global expression with the given modifiers, type and
    /// optional value.
    pub fn write_global(&mut self, mods: &str, expr_type: &str, expr: &str, value: Option<&str>)
        ensures
            final(self).bufs.globals_buf@ == old(self).bufs.globals_buf@ + mods@ + " "@
                + expr_type@ + " "@ + expr@ + (match value {
                Some(v) => " = "@ + v@,
                None => Seq::empty(),
            }) + ";\n"@,
            final(self).bufs == (BuilderBufs {
                globals_buf: final(self).bufs.globals_buf,
                ..old(self).bufs
            }),
    {
        self.bufs.globals_buf.append(mods);
        self.bufs.globals_buf.append(" ");
        self.bufs.globals_buf.append(expr_type);
        self.bufs.globals_buf.append(" ");
        self.bufs.globals_buf.append(expr);
        match value {
            Some(v) => {
                self.bufs.globals_buf.append(" = ");
                self.bufs.globals_buf.append(v);
            },
            None => {},
        }
        self.bufs.globals_buf.append(";\n");
    }

    /// Opens a struct definition under the given name; `close` ends it.
    pub fn write_struct(self, name: &str) -> (r: BpfCodeBuilder<StructConstruction>)
        ensures
            r.bufs.defs_buf@ == self.bufs.defs_buf@ + name@ + " {\n"@,
            r.bufs.prefix@ == self.bufs.prefix@ + "\t"@,
            r.bufs.includes_buf == self.bufs.includes_buf,
            r.bufs.globals_buf == self.bufs.globals_buf,
            r.bufs.code_buf == self.bufs.code_buf,
    {
        let mut bufs = self.bufs;
        bufs.defs_buf.append(name);
        bufs.defs_buf.append(" {\n");
        bufs.prefix.append("\t");
        BpfCodeBuilder::<StructConstruction> { bufs, _marker: PhantomData }
    }

    /// Opens a map definition; `close` ends it.
    pub fn write_map(self) -> (r: BpfCodeBuilder<MapConstruction>)
        ensures
            r.bufs.defs_buf@ == self.bufs.defs_buf@ + "struct {\n"@,
            r.bufs.prefix@ == self.bufs.prefix@ + "\t"@,
            r.bufs.includes_buf == self.bufs.includes_buf,
            r.bufs.globals_buf == self.bufs.globals_buf,
            r.bufs.code_buf == self.bufs.code_buf,
    {
        let mut bufs = self.bufs;
        bufs.defs_buf.append("struct {\n");
        bufs.prefix.append("\t");
        BpfCodeBuilder::<MapConstruction> { bufs, _marker: PhantomData }
    }

    /// Opens a function in the given section; `close` ends it.
    pub fn write_function(self, section: &str, return_type: &str, name: &str, args: &Vec<Arg>) -> (r:
        BpfCodeBuilder<BodyConstruction>)
        ensures
            r.bufs.code_buf@ == self.bufs.code_buf@ + "SEC(\""@ + section@ + "\")\n"@
                + return_type@ + " "@ + name@ + "("@ + fn_args(args@) + ") {\n"@,
            r.bufs.prefix@ == self.bufs.prefix@ + "\t"@,
            r.bufs.includes_buf == self.bufs.includes_buf,
            r.bufs.globals_buf == self.bufs.globals_buf,
            r.bufs.defs_buf == self.bufs.defs_buf,
    {
        let mut bufs = self.bufs;
        bufs.code_buf.append("SEC(\"");
        bufs.code_buf.append(section);
        bufs.code_buf.append("\")\n");
        bufs.code_buf.append(return_type);
        bufs.code_buf.append(" ");
        bufs.code_buf.append(name);
        bufs.code_buf.append("(");
        let ghost base = bufs.code_buf@;
        let ghost orig = bufs;
        let mut i: usize = 0;
        while i < args.len()
            invariant
                i <= args@.len(),
                bufs.code_buf@ == base + fn_args_prefix(args@, i as int),
                bufs == (BuilderBufs { code_buf: bufs.code_buf, ..orig }),
            decreases args@.len() - i,
        {
            if i > 0 {
                bufs.code_buf.append(",");
            }
            bufs.code_buf.append(args[i]._type.as_str());
            bufs.code_buf.append(" ");
            bufs.code_buf.append(args[i]._name.as_str());
            i = i + 1;
        }
        bufs.code_buf.append(") {\n");
        proof {
            assert(fn_args_prefix(args@, args@.len() as int) == fn_args(args@));
        }
        bufs.prefix.append("\t");
        BpfCodeBuilder::<BodyConstruction> { bufs, _marker: PhantomData }
    }

    /// Assembles the single source text: includes, definitions, globals,
    /// code, and the license line.
    pub fn build(self) -> (r: String)
        ensures
            r@ == built_text(self.bufs),
    {
        let mut out = "// *** INCLUDES SECTION *** //\n".to_owned();
        out.append(self.bufs.includes_buf.as_str());
        out.append("\n\n// *** DEFINITIONS SECTION *** //\n");
        out.append(self.bufs.defs_buf.as_str());
        out.append("\n\n// *** GLOBALS SECTION *** //\n");
        out.append(self.bufs.globals_buf.as_str());
        out.append("\n\n// *** CODE SECTION *** //\n");
        out.append(self.bufs.code_buf.as_str());
        out.append("\n\n// *** LICENSE *** //\n");
        out.append("char LICENSE[] SEC(\"license\") = \"Dual BSD/GPL\";\n");
        out
    }
}

/// The assembled single-file text.
pub open spec fn built_text(b: BuilderBufs) -> Seq<char> {
    "// *** INCLUDES SECTION *** //\n"@ + b.includes_buf@
        + "\n\n// *** DEFINITIONS SECTION *** //\n"@ + b.defs_buf@
        + "\n\n// *** GLOBALS SECTION *** //\n"@ + b.globals_buf@
        + "\n\n// *** CODE SECTION *** //\n"@ + b.code_buf@ + "\n\n// *** LICENSE *** //\n"@
        + "char LICENSE[] SEC(\"license\") = \"Dual BSD/GPL\";\n"@
}

/// The comma-separated declarations of the first `i` arguments.
pub open spec fn fn_args_prefix(args: Seq<Arg>, i: int) -> Seq<char>
    decreases i,
{
    if i <= 0 {
        Seq::empty()
    } else if i == 1 {
        args[0]._type@ + " "@ + args[0]._name@
    } else {
        fn_args_prefix(args, i - 1) + ","@ + args[i - 1]._type@ + " "@ + args[i - 1]._name@
    }
}

/// The comma-separated argument declarations.
pub open spec fn fn_args(args: Seq<Arg>) -> Seq<char> {
    fn_args_prefix(args, args.len() as int)
}

impl BpfCodeBuilder<StructConstruction> {
    /// Writes one field declaration.
    pub fn write_field(&mut self, field: &str, field_type: &str)
        ensures
            final(self).bufs.defs_buf@ == old(self).bufs.defs_buf@ + old(self).bufs.prefix@
                + field_type@ + " "@ + field@ + ";\n"@,
            final(self).bufs == (BuilderBufs {
                defs_buf: final(self).bufs.defs_buf,
                ..old(self).bufs
            }),
    {
        let p = self.bufs.prefix.clone();
        self.bufs.defs_buf.append(p.as_str());
        self.bufs.defs_buf.append(field_type);
        self.bufs.defs_buf.append(" ");
        self.bufs.defs_buf.append(field);
        self.bufs.defs_buf.append(";\n");
    }

    /// Ends the struct definition, packed.
    pub fn close(self) -> (r: BpfCodeBuilder<Base>)
        ensures
            r.bufs.defs_buf@ == self.bufs.defs_buf@ + "} __attribute__((packed));\n"@,
            r.bufs.prefix@ == crate::prog_builder::pop_char(self.bufs.prefix@),
            r.bufs.includes_buf == self.bufs.includes_buf,
            r.bufs.globals_buf == self.bufs.globals_buf,
            r.bufs.code_buf == self.bufs.code_buf,
    {
        let mut bufs = self.bufs;
        bufs.defs_buf.append("} __attribute__((packed));\n");
        crate::prog_builder::pop_prefix(&mut bufs.prefix);
        BpfCodeBuilder::<Base> { bufs, _marker: PhantomData }
    }
}

impl BpfCodeBuilder<MapConstruction> {
    /// Writes one map attribute: `attr(key, value);`.
    pub fn write_attr(&mut self, attr: &str, key: &str, val: &str)
        ensures
            final(self).bufs.defs_buf@ == old(self).bufs.defs_buf@ + old(self).bufs.prefix@
                + attr@ + "("@ + key@ + ", "@ + val@ + ");\n"@,
            final(self).bufs == (BuilderBufs {
                defs_buf: final(self).bufs.defs_buf,
                ..old(self).bufs
            }),
    {
        let p = self.bufs.prefix.clone();
        self.bufs.defs_buf.append(p.as_str());
        self.bufs.defs_buf.append(attr);
        self.bufs.defs_buf.append("(");
        self.bufs.defs_buf.append(key);
        self.bufs.defs_buf.append(", ");
        self.bufs.defs_buf.append(val);
        self.bufs.defs_buf.append(");\n");
    }

    /// Ends the map definition under the given name.
    pub fn close(self, name: &str) -> (r: BpfCodeBuilder<Base>)
        ensures
            r.bufs.defs_buf@ == self.bufs.defs_buf@ + "} "@ + name@ + " SEC(\".maps\");\n"@,
            r.bufs.prefix@ == crate::prog_builder::pop_char(self.bufs.prefix@),
            r.bufs.includes_buf == self.bufs.includes_buf,
            r.bufs.globals_buf == self.bufs.globals_buf,
            r.bufs.code_buf == self.bufs.code_buf,
    {
        let mut bufs = self.bufs;
        bufs.defs_buf.append("} ");
        bufs.defs_buf.append(name);
        bufs.defs_buf.append(" SEC(\".maps\");\n");
        crate::prog_builder::pop_prefix(&mut bufs.prefix);
        BpfCodeBuilder::<Base> { bufs, _marker: PhantomData }
    }
}

impl BpfCodeBuilder<BodyConstruction> {
    /// One prefixed line appended to the code buffer.
    pub open spec fn code_line(self, text: Seq<char>) -> Seq<char> {
        self.bufs.prefix@ + text + "\n"@
    }

    /// Appends one prefixed line of code.
    fn push_line(&mut self, text: &str)
        ensures
            final(self).bufs.code_buf@ == old(self).bufs.code_buf@ + old(self).code_line(text@),
            final(self).bufs == (BuilderBufs {
                code_buf: final(self).bufs.code_buf,
                ..old(self).bufs
            }),
    {
        let p = self.bufs.prefix.clone();
        self.bufs.code_buf.append(p.as_str());
        self.bufs.code_buf.append(text);
        self.bufs.code_buf.append("\n");
    }

    /// Declares and initialises a variable.
    pub fn write_var_initialization(&mut self, expr: &str, expr_type: &str, expr_value: &str)
        ensures
            final(self).bufs.code_buf@ == old(self).bufs.code_buf@ + old(self).code_line(
                expr_type@ + " "@ + expr@ + " = "@ + expr_value@ + ";"@,
            ),
            final(self).bufs == (BuilderBufs {
                code_buf: final(self).bufs.code_buf,
                ..old(self).bufs
            }),
    {
        let mut line = expr_type.to_owned();
        line.append(" ");
        line.append(expr);
        line.append(" = ");
        line.append(expr_value);
        line.append(";");
        self.push_line(line.as_str());
    }

    /// Assigns to a variable.
    pub fn write_var_assignment(&mut self, expr: &str, expr_value: &str)
        ensures
            final(self).bufs.code_buf@ == old(self).bufs.code_buf@ + old(self).code_line(
                expr@ + " = "@ + expr_value@ + ";"@,
            ),
            final(self).bufs == (BuilderBufs {
                code_buf: final(self).bufs.code_buf,
                ..old(self).bufs
            }),
    {
        let mut line = expr.to_owned();
        line.append(" = ");
        line.append(expr_value);
        line.append(";");
        self.push_line(line.as_str());
    }

    /// Makes a function call with the given arguments.
    pub fn write_func_call(&mut self, func: &str, args: &Vec<String>)
        ensures
            final(self).bufs.code_buf@ == old(self).bufs.code_buf@ + old(self).code_line(
                func@ + "("@ + comma_args(crate::views::views_of(args@)) + ");"@,
            ),
            final(self).bufs == (BuilderBufs {
                code_buf: final(self).bufs.code_buf,
                ..old(self).bufs
            }),
    {
        proof {
            crate::views::lemma_views_of_index(args@);
        }
        let mut line = func.to_owned();
        line.append("(");
        let ghost av = crate::views::views_of(args@);
        let ghost base = line@;
        let mut i: usize = 0;
        while i < args.len()
            invariant
                i <= args@.len(),
                av == crate::views::views_of(args@),
                av.len() == args@.len(),
                forall|j: int| 0 <= j < args@.len() ==> av[j] == args@[j]@,
                line@ == base + comma_args_prefix(av, i as int),
            decreases args@.len() - i,
        {
            if i > 0 {
                line.append(",");
            }
            line.append(args[i].as_str());
            i = i + 1;
        }
        line.append(");");
        proof {
            assert(comma_args_prefix(av, av.len() as int) == comma_args(av));
        }
        self.push_line(line.as_str());
    }

    /// Opens an `if` over the condition.
    pub fn write_if(&mut self, cond: &str)
        ensures
            final(self).bufs.code_buf@ == old(self).bufs.code_buf@ + old(self).code_line(
                "if ("@ + cond@ + ") {"@,
            ),
            final(self).bufs.prefix@ == old(self).bufs.prefix@ + "\t"@,
            final(self).bufs == (BuilderBufs {
                code_buf: final(self).bufs.code_buf,
                prefix: final(self).bufs.prefix,
                ..old(self).bufs
            }),
    {
        let mut line = "if (".to_owned();
        line.append(cond);
        line.append(") {");
        self.push_line(line.as_str());
        self.bufs.prefix.append("\t");
    }

    /// Closes an `if` region.
    pub fn close_if(&mut self)
        ensures
            final(self).bufs.code_buf@ == old(self).bufs.code_buf@ + crate::prog_builder::pop_char(
                old(self).bufs.prefix@,
            ) + "}"@ + "\n"@,
            final(self).bufs.prefix@ == crate::prog_builder::pop_char(old(self).bufs.prefix@),
            final(self).bufs == (BuilderBufs {
                code_buf: final(self).bufs.code_buf,
                prefix: final(self).bufs.prefix,
                ..old(self).bufs
            }),
    {
        crate::prog_builder::pop_prefix(&mut self.bufs.prefix);
        self.push_line("}");
    }

    /// Writes a `return`.
    pub fn write_return(&mut self, val: &str)
        ensures
            final(self).bufs.code_buf@ == old(self).bufs.code_buf@ + old(self).code_line(
                "return "@ + val@ + ";"@,
            ),
            final(self).bufs == (BuilderBufs {
                code_buf: final(self).bufs.code_buf,
                ..old(self).bufs
            }),
    {
        let mut line = "return ".to_owned();
        line.append(val);
        line.append(";");
        self.push_line(line.as_str());
    }

    /// Ends the function.
    pub fn close(self) -> (r: BpfCodeBuilder<Base>)
        ensures
            r.bufs.code_buf@ == self.bufs.code_buf@ + "}"@ + "\n"@,
            r.bufs.prefix@ == crate::prog_builder::pop_char(self.bufs.prefix@),
            r.bufs.includes_buf == self.bufs.includes_buf,
            r.bufs.globals_buf == self.bufs.globals_buf,
            r.bufs.defs_buf == self.bufs.defs_buf,
    {
        let mut bufs = self.bufs;
        bufs.code_buf.append("}");
        bufs.code_buf.append("\n");
        crate::prog_builder::pop_prefix(&mut bufs.prefix);
        BpfCodeBuilder::<Base> { bufs, _marker: PhantomData }
    }
}

/// The comma-separated call arguments of the first `i` arguments.
pub open spec fn comma_args_prefix(args: Seq<Seq<char>>, i: int) -> Seq<char>
    decreases i,
{
    if i <= 0 {
        Seq::empty()
    } else if i == 1 {
        args[0]
    } else {
        comma_args_prefix(args, i - 1) + ","@ + args[i - 1]
    }
}

/// The comma-separated call arguments.
pub open spec fn comma_args(args: Seq<Seq<char>>) -> Seq<char> {
    comma_args_prefix(args, args.len() as int)
}

} // verus!
