//! Small verified helpers on strings.

use vstd::prelude::*;
use vstd::utf8::encode_utf8_decode_utf8;

verus! {

/// Whether two string slices hold the same characters.
pub fn text_eq(a: &str, b: &str) -> (same: bool)
    ensures
        same == (a@ == b@),
{
    let x = a.as_bytes();
    let y = b.as_bytes();
    proof {
        encode_utf8_decode_utf8(a@);
        encode_utf8_decode_utf8(b@);
    }
    if x.len() != y.len() {
        return false;
    }
    let mut i: usize = 0;
    while i < x.len()
        invariant
            i <= x.len(),
            x.len() == y.len(),
            x@ == vstd::utf8::encode_utf8(a@),
            y@ == vstd::utf8::encode_utf8(b@),
            forall|k: int| 0 <= k < i ==> x@[k] == y@[k],
        decreases x.len() - i,
    {
        if x[i] != y[i] {
            return false;
        }
        i += 1;
    }
    assert(x@ =~= y@);
    true
}


/// Whether a string holds a given character.
pub fn has_char(text: &str, wanted: char) -> (found: bool)
    ensures
        found == text@.contains(wanted),
{
    let mut found = false;
    for c in it: text.chars()
        invariant
            found == it.seq().take(it.index() as int).contains(wanted),
            it.seq() == text@,
    {
        proof {
            let seen = it.seq().take(it.index() as int);
            let next = it.seq().take(it.index() + 1);
            assert(next =~= seen.push(c));
            if found {
                let k = choose|k: int| 0 <= k < seen.len() && seen[k] == wanted;
                assert(next[k] == wanted);
            }
            if next.contains(wanted) && !found && c != wanted {
                let k = choose|k: int| 0 <= k < next.len() && next[k] == wanted;
                assert(seen[k] == wanted);
            }
            if c == wanted {
                assert(next[it.index() as int] == wanted);
            }
        }
        if c == wanted {
            found = true;
        }
    }
    assert(text@.take(text@.len() as int) =~= text@);
    found
}

} // verus!
