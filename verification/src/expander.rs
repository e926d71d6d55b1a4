//! Expands an ordered list of element expressions into a block that binds a
//! new empty vector, appends each element in source order, and yields the
//! vector; together with the evaluation semantics of such a block.

use vstd::prelude::*;
use crate::ast::{VecExpansion, VecStmt};
use crate::syntax::{parse_expr_list_text, parsed_exprs};

verus! {

/// The character sequences of a list of strings, in order.
pub open spec fn string_views(elems: Seq<String>) -> Seq<Seq<char>> {
    elems.map(|i: int, e: String| e@)
}

/// What the expansion of a given element list must look like: one initial
/// binding, one push per element in order, and a final yield.
pub open spec fn is_expansion_of(b: VecExpansion, elems: Seq<String>) -> bool {
    &&& b.stmts@.len() == elems.len() + 2
    &&& b.stmts@[0] is Init
    &&& b.stmts@[elems.len() as int + 1] is Finish
    &&& forall|i: int|
        0 <= i < elems.len() ==> ((#[trigger] b.stmts@[i + 1]) matches VecStmt::Push(e) && e@
            == elems[i]@)
}

/// Runs the statements after the initial binding against an accumulated
/// vector of element values: a push appends its element's value, a final
/// yield returns the accumulator, and any other shape has no value.
pub open spec fn eval_stmts(stmts: Seq<VecStmt>, acc: Seq<Seq<char>>) -> Option<Seq<Seq<char>>>
    decreases stmts.len(),
{
    if stmts.len() == 0 {
        None
    } else {
        match stmts[0] {
            VecStmt::Init => None,
            VecStmt::Push(e) => eval_stmts(stmts.drop_first(), acc.push(e@)),
            VecStmt::Finish => if stmts.len() == 1 {
                Some(acc)
            } else {
                None
            },
        }
    }
}

/// The value a whole expansion block evaluates to: its statements must open
/// with the initial binding and then run to the final yield.
pub open spec fn eval_expansion_spec(b: VecExpansion) -> Option<Seq<Seq<char>>> {
    if b.stmts@.len() > 0 && b.stmts@[0] is Init {
        eval_stmts(b.stmts@.drop_first(), Seq::empty())
    } else {
        None
    }
}

/// Builds the expansion of an element list: an initial binding, one push per
/// element in left-to-right order, and a final yield.
pub fn my_vec(elems: &Vec<String>) -> (r: VecExpansion)
    ensures
        is_expansion_of(r, elems@),
{
    let mut stmts: Vec<VecStmt> = Vec::new();
    stmts.push(VecStmt::Init);
    let mut i: usize = 0;
    while i < elems.len()
        invariant
            0 <= i <= elems@.len(),
            stmts@.len() == i + 1,
            stmts@[0] is Init,
            forall|j: int|
                0 <= j < i ==> ((#[trigger] stmts@[j + 1]) matches VecStmt::Push(e) && e@
                    == elems@[j]@),
        decreases elems@.len() - i,
    {
        stmts.push(VecStmt::Push(elems[i].clone()));
        i = i + 1;
    }
    stmts.push(VecStmt::Finish);
    VecExpansion { stmts }
}

/// Running the pushed statements of an expansion extends the accumulator by
/// exactly the element values, in order.
proof fn lemma_eval_run(stmts: Seq<VecStmt>, elems: Seq<String>, acc: Seq<Seq<char>>)
    requires
        stmts.len() == elems.len() + 1,
        forall|i: int|
            0 <= i < elems.len() ==> ((#[trigger] stmts[i]) matches VecStmt::Push(e) && e@
                == elems[i]@),
        stmts[elems.len() as int] is Finish,
    ensures
        eval_stmts(stmts, acc) == Some(acc + string_views(elems)),
    decreases elems.len(),
{
    if elems.len() == 0 {
        assert(stmts[0] is Finish);
        assert(eval_stmts(stmts, acc) == Some(acc));
        assert(acc + string_views(elems) =~= acc);
    } else {
        assert(stmts[0] matches VecStmt::Push(e) && e@ == elems[0]@);
        let e0 = stmts[0]->Push_0;
        let stail = stmts.drop_first();
        let etail = elems.drop_first();
        assert forall|i: int| 0 <= i < etail.len() implies ((#[trigger] stail[i])
            matches VecStmt::Push(e) && e@ == etail[i]@) by {
            assert(stail[i] == stmts[i + 1]);
            assert(etail[i] == elems[i + 1]);
        }
        assert(stail[etail.len() as int] == stmts[elems.len() as int]);
        lemma_eval_run(stail, etail, acc.push(e0@));
        assert(eval_stmts(stmts, acc) == eval_stmts(stail, acc.push(e0@)));
        assert(acc.push(e0@) + string_views(etail) =~= acc + string_views(elems)) by {
            assert(string_views(elems)[0] == elems[0]@);
            assert forall|i: int| 0 <= i < etail.len() implies string_views(etail)[i]
                == string_views(elems)[i + 1] by {
                assert(etail[i] == elems[i + 1]);
            }
        }
    }
}

/// The expansion of any element list, of any length, evaluates to exactly the
/// element values, in their source order; the empty list evaluates to the
/// empty vector.
pub proof fn lemma_expansion_evaluates(b: VecExpansion, elems: Seq<String>)
    requires
        is_expansion_of(b, elems),
    ensures
        eval_expansion_spec(b) == Some(string_views(elems)),
{
    let tail = b.stmts@.drop_first();
    assert forall|i: int| 0 <= i < elems.len() implies ((#[trigger] tail[i])
        matches VecStmt::Push(e) && e@ == elems[i]@) by {
        assert(tail[i] == b.stmts@[i + 1]);
    }
    assert(tail[elems.len() as int] == b.stmts@[elems.len() as int + 1]);
    lemma_eval_run(tail, elems, Seq::empty());
    assert(Seq::<Seq<char>>::empty() + string_views(elems) =~= string_views(elems));
}

/// Evaluates an expansion block: returns the vector of element values the
/// block yields, or nothing when the statements do not have the shape an
/// expansion produces.
pub fn eval_expansion(b: &VecExpansion) -> (r: Option<Vec<String>>)
    ensures
        match r {
            Some(v) => eval_expansion_spec(*b) == Some(string_views(v@)),
            None => eval_expansion_spec(*b) is None,
        },
{
    let n = b.stmts.len();
    if n == 0 {
        return None;
    }
    match &b.stmts[0] {
        VecStmt::Init => {},
        _ => {
            return None;
        },
    }
    if n == 1 {
        proof {
            assert(b.stmts@.drop_first().len() == 0);
        }
        return None;
    }
    let mut acc: Vec<String> = Vec::new();
    let mut i: usize = 1;
    proof {
        assert(b.stmts@.skip(1) =~= b.stmts@.drop_first());
        assert(string_views(acc@) =~= Seq::<Seq<char>>::empty());
    }
    while i < n - 1
        invariant
            1 <= i <= n - 1,
            n == b.stmts@.len(),
            b.stmts@[0] is Init,
            eval_stmts(b.stmts@.drop_first(), Seq::empty()) == eval_stmts(
                b.stmts@.skip(i as int),
                string_views(acc@),
            ),
        decreases n - i,
    {
        match &b.stmts[i] {
            VecStmt::Push(e) => {
                let ghost old_acc = acc@;
                acc.push(e.clone());
                proof {
                    assert(b.stmts@.skip(i as int)[0] == b.stmts@[i as int]);
                    assert(b.stmts@.skip(i as int).drop_first() =~= b.stmts@.skip(i as int + 1));
                    assert(string_views(acc@) =~= string_views(old_acc).push(e@));
                }
            },
            _ => {
                proof {
                    assert(b.stmts@.skip(i as int)[0] == b.stmts@[i as int]);
                    assert(b.stmts@.skip(i as int).len() > 1);
                }
                return None;
            },
        }
        i = i + 1;
    }
    proof {
        assert(i + 1 == n);
        assert(b.stmts@.skip(i as int)[0] == b.stmts@[i as int]);
        assert(b.stmts@.skip(i as int).len() == 1);
    }
    match &b.stmts[i] {
        VecStmt::Finish => {
            proof {
                assert(b.stmts@[i as int] is Finish);
                assert(eval_stmts(b.stmts@.skip(i as int), string_views(acc@)) == Some(
                    string_views(acc@),
                ));
                assert(eval_expansion_spec(*b) == Some(string_views(acc@)));
            }
            Some(acc)
        },
        _ => {
            proof {
                let tail = b.stmts@.skip(i as int);
                assert(tail[0] == b.stmts@[i as int]);
                if tail[0] is Push {
                    let e = tail[0]->Push_0;
                    assert(tail.drop_first().len() == 0);
                    assert(eval_stmts(tail.drop_first(), string_views(acc@).push(e@)) is None);
                }
                assert(eval_stmts(tail, string_views(acc@)) is None);
            }
            None
        },
    }
}

/// Parses comma-separated element text and builds its expansion: text that
/// does not parse as a bracketed expression list yields nothing, and parsable
/// text yields exactly the expansion of the parsed elements, whose value
/// under the evaluation semantics is those elements.
pub fn expand_vec_source(src: &str) -> (r: Option<VecExpansion>)
    ensures
        match parsed_exprs(src@) {
            Some(elems) => r matches Some(b) && is_expansion_of(b, elems@)
                && eval_expansion_spec(b) == Some(string_views(elems@)),
            None => r is None,
        },
{
    match parse_expr_list_text(src) {
        Some(elems) => {
            let b = my_vec(&elems);
            proof {
                lemma_expansion_evaluates(b, elems@);
            }
            Some(b)
        },
        None => None,
    }
}

} // verus!
