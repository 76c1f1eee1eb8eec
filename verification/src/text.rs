//! Strings as sequences of characters: equality and search.

use vstd::prelude::*;
use vstd::string::StrSliceExecFns;

verus! {

/// `needle` stands in `hay` at place `i`.
pub open spec fn occurs_at(hay: Seq<char>, needle: Seq<char>, i: int) -> bool {
    0 <= i && i + needle.len() <= hay.len() && hay.subrange(i, i + needle.len()) == needle
}

/// `needle` stands somewhere in `hay`.
pub open spec fn is_part(needle: Seq<char>, hay: Seq<char>) -> bool {
    exists|i: int| occurs_at(hay, needle, i)
}

/// The first place from `from` on at which `list` holds `name`.
pub open spec fn first_index(list: Seq<Seq<char>>, name: Seq<char>, from: int) -> Option<int>
    decreases list.len() - from,
{
    if 0 <= from < list.len() {
        if list[from] == name {
            Some(from)
        } else {
            first_index(list, name, from + 1)
        }
    } else {
        None
    }
}

/// The places below `upto` at which `list` holds a string that `part` stands
/// in, in growing order.
pub open spec fn places_with(list: Seq<Seq<char>>, part: Seq<char>, upto: int) -> Seq<int>
    decreases upto,
{
    if upto <= 0 {
        Seq::empty()
    } else if is_part(part, list[upto - 1]) {
        places_with(list, part, upto - 1).push(upto - 1)
    } else {
        places_with(list, part, upto - 1)
    }
}

/// Where `name` is found first, nothing before it equals `name`.
pub proof fn lemma_first_index_found(list: Seq<Seq<char>>, name: Seq<char>, from: int, at: int)
    requires
        0 <= from <= at < list.len(),
        forall|j: int| from <= j < at ==> list[j] != name,
        list[at] == name,
    ensures
        first_index(list, name, from) == Some(at),
    decreases at - from,
{
    if from < at {
        lemma_first_index_found(list, name, from + 1, at);
    }
}

/// Where nothing equals `name`, `name` is not found.
pub proof fn lemma_first_index_absent(list: Seq<Seq<char>>, name: Seq<char>, from: int)
    requires
        0 <= from <= list.len(),
        forall|j: int| from <= j < list.len() ==> list[j] != name,
    ensures
        first_index(list, name, from) is None,
    decreases list.len() - from,
{
    if from < list.len() {
        lemma_first_index_absent(list, name, from + 1);
    }
}

/// The characters of `input`, one by one.
pub fn to_chars(input: &str) -> (v: Vec<char>)
    ensures
        v@ == input@,
{
    let n = input.unicode_len();
    let mut v: Vec<char> = Vec::new();
    let mut i: usize = 0;
    while i < n
        invariant
            n == input@.len(),
            i <= n,
            v@ == input@.subrange(0, i as int),
        decreases n - i,
    {
        v.push(input.get_char(i));
        i += 1;
        assert(v@ == input@.subrange(0, i as int));
    }
    assert(v@ == input@);
    v
}

/// Whether `needle` stands in `hay` at place `i`.
pub fn chars_match_at(hay: &Vec<char>, needle: &Vec<char>, i: usize) -> (r: bool)
    ensures
        r == occurs_at(hay@, needle@, i as int),
{
    if needle.len() > hay.len() || i > hay.len() - needle.len() {
        return false;
    }
    let mut k: usize = 0;
    while k < needle.len()
        invariant
            k <= needle.len(),
            i + needle.len() <= hay.len(),
            forall|j: int| 0 <= j < k ==> hay@[i + j] == needle@[j],
        decreases needle.len() - k,
    {
        if hay[i + k] != needle[k] {
            proof {
                let sub = hay@.subrange(i as int, i + needle.len());
                assert(sub[k as int] == hay@[i + k]);
            }
            return false;
        }
        k += 1;
    }
    assert(hay@.subrange(i as int, i + needle.len()) =~= needle@);
    true
}

/// Whether the two strings are made of the same characters.
pub fn chars_eq(a: &Vec<char>, b: &Vec<char>) -> (r: bool)
    ensures
        r == (a@ == b@),
{
    if a.len() != b.len() {
        return false;
    }
    let r = chars_match_at(a, b, 0);
    proof {
        if r {
            assert(a@.subrange(0, b@.len() as int) =~= a@);
        } else if a@ == b@ {
            assert(a@.subrange(0, b@.len() as int) =~= b@);
        }
    }
    r
}

/// Whether `needle` stands somewhere in `hay`.
pub fn chars_contain(hay: &Vec<char>, needle: &Vec<char>) -> (r: bool)
    ensures
        r == is_part(needle@, hay@),
{
    if needle.len() > hay.len() {
        return false;
    }
    let last: usize = hay.len() - needle.len();
    let mut i: usize = 0;
    loop
        invariant
            last == hay.len() - needle.len(),
            i <= last,
            forall|j: int| 0 <= j < i ==> !occurs_at(hay@, needle@, j),
        decreases last - i,
    {
        if chars_match_at(hay, needle, i) {
            return true;
        }
        if i >= last {
            return false;
        }
        i += 1;
    }
}

} // verus!
