//! Byte-text utilities: ASCII case folding, substring search, and the
//! recognition of fallthrough-marker comments.

use vstd::prelude::*;
use crate::context::Comment;

verus! {

/// ASCII lower-casing of one byte.
pub open spec fn spec_lower_byte(b: u8) -> u8 {
    if 65 <= b && b <= 90 {
        (b + 32) as u8
    } else {
        b
    }
}

/// ASCII lower-casing of a byte sequence.
pub open spec fn spec_lower(s: Seq<u8>) -> Seq<u8> {
    s.map_values(|b: u8| spec_lower_byte(b))
}

/// `needle` occurs in `hay` starting at `i`.
pub open spec fn spec_match_at(hay: Seq<u8>, needle: Seq<u8>, i: int) -> bool {
    &&& 0 <= i
    &&& i + needle.len() <= hay.len()
    &&& forall|j: int| 0 <= j < needle.len() ==> hay[i + j] == needle[j]
}

/// `needle` occurs somewhere in `hay`.
pub open spec fn spec_contains(hay: Seq<u8>, needle: Seq<u8>) -> bool {
    exists|i: int| spec_match_at(hay, needle, i)
}

/// The marker texts that suppress a fallthrough finding, matched
/// case-insensitively as substrings: "fallthrough", "falls through",
/// "fall through".
pub open spec fn marker_joined() -> Seq<u8> {
    seq![102u8, 97u8, 108u8, 108u8, 116u8, 104u8, 114u8, 111u8, 117u8, 103u8, 104u8]
}

pub open spec fn marker_spaced_s() -> Seq<u8> {
    seq![102u8, 97u8, 108u8, 108u8, 115u8, 32u8, 116u8, 104u8, 114u8, 111u8, 117u8, 103u8, 104u8]
}

pub open spec fn marker_spaced() -> Seq<u8> {
    seq![102u8, 97u8, 108u8, 108u8, 32u8, 116u8, 104u8, 114u8, 111u8, 117u8, 103u8, 104u8]
}

/// A comment text marks an intentional fallthrough: lower-cased, it contains
/// one of the three marker texts.
pub open spec fn spec_is_marker(text: Seq<u8>) -> bool {
    ||| spec_contains(spec_lower(text), marker_joined())
    ||| spec_contains(spec_lower(text), marker_spaced_s())
    ||| spec_contains(spec_lower(text), marker_spaced())
}

/// Some comment in the sequence is a fallthrough marker.
pub open spec fn spec_any_marker(comments: Seq<Comment>) -> bool {
    exists|i: int| 0 <= i < comments.len() && spec_is_marker(comments[i].text@)
}

/// ASCII lower-casing, byte for byte.
fn lower_bytes(s: &Vec<u8>) -> (r: Vec<u8>)
    ensures
        r@ == spec_lower(s@),
{
    let mut r: Vec<u8> = Vec::new();
    for i in 0..s.len()
        invariant
            r@ =~= spec_lower(s@).take(i as int),
    {
        let b = s[i];
        if 65 <= b && b <= 90 {
            r.push(b + 32);
        } else {
            r.push(b);
        }
        proof {
            assert(r@ =~= spec_lower(s@).take(i as int + 1));
        }
    }
    proof {
        assert(spec_lower(s@).take(s@.len() as int) =~= spec_lower(s@));
    }
    r
}

/// Naive substring search over bytes.
fn contains_bytes(hay: &Vec<u8>, needle: &Vec<u8>) -> (r: bool)
    ensures
        r == spec_contains(hay@, needle@),
{
    let hn = hay.len();
    let nn = needle.len();
    if nn == 0 {
        assert(spec_match_at(hay@, needle@, 0));
        return true;
    }
    if nn > hn {
        return false;
    }
    let end = hn - nn;
    let mut i: usize = 0;
    while i <= end
        invariant
            hn == hay@.len(),
            nn == needle@.len(),
            1 <= nn <= hn,
            end == hn - nn,
            i <= end + 1,
            forall|k: int| 0 <= k < i ==> !spec_match_at(hay@, needle@, k),
        decreases end + 1 - i,
    {
        let mut ok = true;
        let mut j: usize = 0;
        while j < nn
            invariant
                hn == hay@.len(),
                nn == needle@.len(),
                i + nn <= hn,
                j <= nn,
                ok == forall|l: int| 0 <= l < j ==> hay@[i + l] == needle@[l],
            decreases nn - j,
    {
            if hay[i + j] != needle[j] {
                ok = false;
            }
            j = j + 1;
        }
        if ok {
            assert(spec_match_at(hay@, needle@, i as int));
            return true;
        }
        i = i + 1;
    }
    assert(forall|k: int| spec_match_at(hay@, needle@, k) ==> 0 <= k <= end);
    false
}

fn marker_joined_bytes() -> (r: Vec<u8>)
    ensures
        r@ == marker_joined(),
{
    let mut v: Vec<u8> = Vec::new();
        v.push(102u8);
        v.push(97u8);
        v.push(108u8);
        v.push(108u8);
        v.push(116u8);
        v.push(104u8);
        v.push(114u8);
        v.push(111u8);
        v.push(117u8);
        v.push(103u8);
        v.push(104u8);
    proof {
        assert(v@ =~= marker_joined());
    }
    v
}

fn marker_spaced_s_bytes() -> (r: Vec<u8>)
    ensures
        r@ == marker_spaced_s(),
{
    let mut v: Vec<u8> = Vec::new();
        v.push(102u8);
        v.push(97u8);
        v.push(108u8);
        v.push(108u8);
        v.push(115u8);
        v.push(32u8);
        v.push(116u8);
        v.push(104u8);
        v.push(114u8);
        v.push(111u8);
        v.push(117u8);
        v.push(103u8);
        v.push(104u8);
    proof {
        assert(v@ =~= marker_spaced_s());
    }
    v
}

fn marker_spaced_bytes() -> (r: Vec<u8>)
    ensures
        r@ == marker_spaced(),
{
    let mut v: Vec<u8> = Vec::new();
        v.push(102u8);
        v.push(97u8);
        v.push(108u8);
        v.push(108u8);
        v.push(32u8);
        v.push(116u8);
        v.push(104u8);
        v.push(114u8);
        v.push(111u8);
        v.push(117u8);
        v.push(103u8);
        v.push(104u8);
    proof {
        assert(v@ =~= marker_spaced());
    }
    v
}

/// Byte-for-byte equality of two byte vectors.
pub fn bytes_eq(a: &Vec<u8>, b: &Vec<u8>) -> (r: bool)
    ensures
        r == (a@ == b@),
{
    if a.len() != b.len() {
        return false;
    }
    for i in 0..a.len()
        invariant
            a@.len() == b@.len(),
            forall|j: int| 0 <= j < i ==> a@[j] == b@[j],
    {
        if a[i] != b[i] {
            return false;
        }
    }
    proof {
        assert(a@ =~= b@);
    }
    true
}

/// Whether one comment's text is a fallthrough marker.
pub fn is_marker_comment(text: &Vec<u8>) -> (r: bool)
    ensures
        r == spec_is_marker(text@),
{
    let lowered = lower_bytes(text);
    contains_bytes(&lowered, &marker_joined_bytes()) || contains_bytes(
        &lowered,
        &marker_spaced_s_bytes(),
    ) || contains_bytes(&lowered, &marker_spaced_bytes())
}

/// Whether any comment in the list marks an intentional fallthrough.
pub fn allow_fall_through(comments: &Vec<Comment>) -> (r: bool)
    ensures
        r == spec_any_marker(comments@),
{
    for i in 0..comments.len()
        invariant
            forall|j: int| 0 <= j < i ==> !spec_is_marker(comments@[j].text@),
    {
        if is_marker_comment(&comments[i].text) {
            return true;
        }
    }
    false
}

} // verus!
