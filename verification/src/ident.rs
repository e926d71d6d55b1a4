//! Identifier validity as the host language defines it: an identifier opens
//! with an underscore or a Unicode XID-start character and continues with
//! XID-continue characters. The XID tables are outside work, held behind named
//! trusted functions; the decision procedure over them is verified.

use vstd::prelude::*;
use vstd::string::*;

verus! {

/// Whether a character is in the Unicode XID-start class.
pub uninterp spec fn xid_start_char(c: char) -> bool;

/// Whether a character is in the Unicode XID-continue class.
pub uninterp spec fn xid_continue_char(c: char) -> bool;

/// Relies on unicode_ident::is_xid_start, the table proc-macro2 validates
/// identifiers with; the result depends on the character alone, named
/// `xid_start_char`.
#[verifier::external_body]
fn is_xid_start(c: char) -> (r: bool)
    ensures
        r == xid_start_char(c),
{
    unicode_ident::is_xid_start(c)
}

/// Relies on unicode_ident::is_xid_continue, the table proc-macro2 validates
/// identifiers with; the result depends on the character alone, named
/// `xid_continue_char`.
#[verifier::external_body]
fn is_xid_continue(c: char) -> (r: bool)
    ensures
        r == xid_continue_char(c),
{
    unicode_ident::is_xid_continue(c)
}

/// A character that may open an identifier: an underscore or an XID-start
/// character.
pub open spec fn ident_start(c: char) -> bool {
    c == '_' || xid_start_char(c)
}

/// A valid identifier: non-empty, opened by an underscore or an XID-start
/// character, continued by XID-continue characters. This is the acceptance
/// set of proc-macro2's identifier constructor, keywords included.
pub open spec fn valid_ident(s: Seq<char>) -> bool {
    &&& s.len() > 0
    &&& ident_start(s[0])
    &&& forall|i: int| 1 <= i < s.len() ==> xid_continue_char(#[trigger] s[i])
}

/// Decides equality of the character sequences of two strings.
pub fn str_eq(a: &str, b: &str) -> (r: bool)
    ensures
        r == (a@ == b@),
{
    let aa = a.to_owned();
    let bb = b.to_owned();
    aa.eq(&bb)
}

/// Decides `valid_ident` on the characters of `s`.
pub fn is_valid_ident(s: &str) -> (r: bool)
    ensures
        r == valid_ident(s@),
{
    let n = s.unicode_len();
    if n == 0 {
        return false;
    }
    let c0 = s.get_char(0);
    if !(c0 == '_' || is_xid_start(c0)) {
        return false;
    }
    let mut i: usize = 1;
    while i < n
        invariant
            1 <= i <= n,
            n == s@.len(),
            ident_start(s@[0]),
            forall|j: int| 1 <= j < i ==> xid_continue_char(#[trigger] s@[j]),
        decreases n - i,
    {
        let c = s.get_char(i);
        if !is_xid_continue(c) {
            return false;
        }
        i = i + 1;
    }
    true
}

} // verus!
