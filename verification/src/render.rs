//! Renders generated fragments back into source text. The output grammar is
//! fixed here, so each renderer carries an exact contract over a spec-level
//! rendering of its input.

use vstd::prelude::*;
use vstd::string::*;
use crate::ast::{FnDecl, GenField, GenStruct, VecExpansion, VecStmt};

verus! {

/// The text of a renamed function declaration: the tokens before the name,
/// the name, and the tokens after it, separated by single spaces.
pub fn render_fn(f: &FnDecl) -> (r: String)
    ensures
        r@ == f.before@ + " "@ + f.name@ + " "@ + f.rest@,
{
    let mut out = f.before.clone();
    out.append(" ");
    out.append(f.name.as_str());
    out.append(" ");
    out.append(f.rest.as_str());
    proof {
        assert(out@ =~= f.before@ + " "@ + f.name@ + " "@ + f.rest@);
    }
    out
}

/// The text of one statement of an expansion block.
pub open spec fn rendered_stmt(s: VecStmt) -> Seq<char> {
    match s {
        VecStmt::Init => "let mut _vec = std::vec::Vec::new();"@,
        VecStmt::Push(e) => "_vec.push("@ + e@ + ");"@,
        VecStmt::Finish => "_vec"@,
    }
}

/// The text of a run of statements, each preceded by one space.
pub open spec fn rendered_stmts(stmts: Seq<VecStmt>) -> Seq<char>
    decreases stmts.len(),
{
    if stmts.len() == 0 {
        Seq::empty()
    } else {
        rendered_stmts(stmts.drop_last()) + " "@ + rendered_stmt(stmts.last())
    }
}

/// Renders an expansion block as a braced block of statements.
pub fn render_expansion(b: &VecExpansion) -> (r: String)
    ensures
        r@ == "{"@ + rendered_stmts(b.stmts@) + " }"@,
{
    let mut out = "{".to_owned();
    proof {
        assert(b.stmts@.take(0) =~= Seq::<VecStmt>::empty());
        assert(out@ =~= "{"@ + rendered_stmts(b.stmts@.take(0)));
    }
    let mut i: usize = 0;
    while i < b.stmts.len()
        invariant
            0 <= i <= b.stmts@.len(),
            out@ == "{"@ + rendered_stmts(b.stmts@.take(i as int)),
        decreases b.stmts@.len() - i,
    {
        out.append(" ");
        match &b.stmts[i] {
            VecStmt::Init => out.append("let mut _vec = std::vec::Vec::new();"),
            VecStmt::Push(e) => {
                out.append("_vec.push(");
                out.append(e.as_str());
                out.append(");");
            },
            VecStmt::Finish => out.append("_vec"),
        }
        proof {
            assert(b.stmts@.take(i as int + 1).drop_last() =~= b.stmts@.take(i as int));
            assert(b.stmts@.take(i as int + 1).last() == b.stmts@[i as int]);
            assert(out@ =~= "{"@ + rendered_stmts(b.stmts@.take(i as int + 1)));
        }
        i = i + 1;
    }
    out.append(" }");
    proof {
        assert(b.stmts@.take(b.stmts@.len() as int) =~= b.stmts@);
        assert(out@ =~= "{"@ + rendered_stmts(b.stmts@) + " }"@);
    }
    out
}

/// The text of one field of a generated structure, with a trailing comma.
pub open spec fn rendered_field(f: GenField) -> Seq<char> {
    f.name@ + " : "@ + f.ty@ + " , "@
}

/// The text of a run of fields, in order.
pub open spec fn rendered_fields(fields: Seq<GenField>) -> Seq<char>
    decreases fields.len(),
{
    if fields.len() == 0 {
        Seq::empty()
    } else {
        rendered_fields(fields.drop_last()) + rendered_field(fields.last())
    }
}

/// Renders a generated structure as a public structure declaration.
pub fn render_struct(g: &GenStruct) -> (r: String)
    ensures
        r@ == "pub struct "@ + g.name@ + " { "@ + rendered_fields(g.fields@) + "}"@,
{
    let mut out = "pub struct ".to_owned();
    out.append(g.name.as_str());
    out.append(" { ");
    proof {
        assert(g.fields@.take(0) =~= Seq::<GenField>::empty());
        assert(out@ =~= "pub struct "@ + g.name@ + " { "@ + rendered_fields(g.fields@.take(0)));
    }
    let mut i: usize = 0;
    while i < g.fields.len()
        invariant
            0 <= i <= g.fields@.len(),
            out@ == "pub struct "@ + g.name@ + " { "@ + rendered_fields(g.fields@.take(i as int)),
        decreases g.fields@.len() - i,
    {
        out.append(g.fields[i].name.as_str());
        out.append(" : ");
        out.append(g.fields[i].ty.as_str());
        out.append(" , ");
        proof {
            assert(g.fields@.take(i as int + 1).drop_last() =~= g.fields@.take(i as int));
            assert(g.fields@.take(i as int + 1).last() == g.fields@[i as int]);
            assert(out@ =~= "pub struct "@ + g.name@ + " { "@ + rendered_fields(
                g.fields@.take(i as int + 1),
            ));
        }
        i = i + 1;
    }
    out.append("}");
    proof {
        assert(g.fields@.take(g.fields@.len() as int) =~= g.fields@);
        assert(out@ =~= "pub struct "@ + g.name@ + " { "@ + rendered_fields(g.fields@) + "}"@);
    }
    out
}

} // verus!
