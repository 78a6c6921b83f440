//! Small verified helpers on text, stated over sequences of characters.

use vstd::prelude::*;
use vstd::std_specs::iter::IteratorSpec;
use vstd::string::StringSliceAdditionalSpecFns;
use vstd::utf8::encode_utf8_decode_utf8;

verus! {

/// The characters of `text`, in order.
pub fn chars_of(text: &str) -> (chars: Vec<char>)
    ensures
        chars@ == text@,
{
    let mut chars: Vec<char> = Vec::new();
    for c in it: text.chars()
        invariant
            chars@ == it.seq().subrange(0, it.index() as int),
            it.seq() == text@,
    {
        chars.push(c);
    }
    chars
}

/// Whether two texts hold the same characters.
pub fn same_text(left: &str, right: &str) -> (same: bool)
    ensures
        same == (left@ == right@),
{
    let a = left.as_bytes();
    let b = right.as_bytes();
    proof {
        encode_utf8_decode_utf8(left@);
        encode_utf8_decode_utf8(right@);
    }
    if a.len() != b.len() {
        return false;
    }
    let mut i: usize = 0;
    while i < a.len()
        invariant
            i <= a.len(),
            a.len() == b.len(),
            a@ == left.spec_bytes(),
            b@ == right.spec_bytes(),
            a@.subrange(0, i as int) == b@.subrange(0, i as int),
        decreases a.len() - i,
    {
        if a[i] != b[i] {
            return false;
        }
        i += 1;
    }
    assert(a@ == a@.subrange(0, i as int));
    assert(b@ == b@.subrange(0, i as int));
    true
}

/// Whether `prefix` opens `chars`.
pub fn starts_with(chars: &Vec<char>, prefix: &Vec<char>) -> (found: bool)
    ensures
        found == prefix@.is_prefix_of(chars@),
{
    if prefix.len() > chars.len() {
        return false;
    }
    let mut i: usize = 0;
    while i < prefix.len()
        invariant
            i <= prefix.len(),
            prefix.len() <= chars.len(),
            forall|k: int| 0 <= k < i ==> prefix@[k] == chars@[k],
        decreases prefix.len() - i,
    {
        if prefix[i] != chars[i] {
            return false;
        }
        i += 1;
    }
    true
}

/// Whether the text `prefix` opens `text`.
pub fn has_prefix(text: &str, prefix: &str) -> (found: bool)
    ensures
        found == prefix@.is_prefix_of(text@),
{
    let chars = chars_of(text);
    let opening = chars_of(prefix);
    starts_with(&chars, &opening)
}

/// A copy of `items`, text for text.
pub fn clone_texts(items: &Vec<String>) -> (copy: Vec<String>)
    ensures
        copy.deep_view() == items.deep_view(),
{
    let mut copy: Vec<String> = Vec::new();
    let mut i: usize = 0;
    while i < items.len()
        invariant
            i <= items.len(),
            copy.len() == i,
            forall|k: int| 0 <= k < i ==> copy@[k]@ == items@[k]@,
        decreases items.len() - i,
    {
        copy.push(items[i].clone());
        i += 1;
    }
    copy
}

/// Calls `String::from_iter` on the characters, which makes the text that
/// holds exactly these characters in this order.
#[verifier::external_body]
pub(crate) fn string_of(chars: &Vec<char>) -> (text: String)
    ensures
        text@ == chars@,
{
    chars.iter().collect()
}

/// The least position below `len` at which `holds` is true, or -1 where
/// there is none.
#[verifier::opaque]
pub open spec fn least_index(len: int, holds: spec_fn(int) -> bool) -> int {
    if exists|i: int| 0 <= i < len && #[trigger] holds(i) {
        choose|i: int| 0 <= i < len && #[trigger] holds(i) && forall|j: int| 0 <= j < i ==> !#[trigger] holds(j)
    } else {
        -1
    }
}

/// A position at which `holds` is true and before which it is not is the
/// least one; and -1 is, where `holds` is true nowhere.
pub proof fn lemma_least_index_is(len: int, holds: spec_fn(int) -> bool, at: int)
    requires
        -1 <= at < len,
        at >= 0 ==> holds(at),
        forall|j: int| 0 <= j < (if at >= 0 { at } else { len }) ==> !#[trigger] holds(j),
    ensures
        least_index(len, holds) == at,
{
    reveal(least_index);
}

/// Whether `needle` stands in `hay` at position `at`.
pub open spec fn occurs_at(hay: Seq<char>, needle: Seq<char>, at: int) -> bool {
    &&& 0 <= at
    &&& at + needle.len() <= hay.len()
    &&& hay.subrange(at, at + needle.len()) == needle
}

/// The first position at which `needle` stands in `hay`, or -1 where it
/// stands nowhere.
pub open spec fn first_occurrence(hay: Seq<char>, needle: Seq<char>) -> int {
    least_index(hay.len() as int + 1, |at: int| occurs_at(hay, needle, at))
}

/// Whether `needle` stands somewhere in `hay`.
pub open spec fn contains_text(hay: Seq<char>, needle: Seq<char>) -> bool {
    first_occurrence(hay, needle) >= 0
}

/// Whether `needle` stands in `hay` at position `at`.
fn stands_at(hay: &Vec<char>, needle: &Vec<char>, at: usize) -> (found: bool)
    requires
        at + needle.len() <= hay.len(),
    ensures
        found == occurs_at(hay@, needle@, at as int),
{
    let mut k: usize = 0;
    while k < needle.len()
        invariant
            k <= needle.len(),
            at + needle.len() <= hay.len(),
            forall|j: int| 0 <= j < k ==> hay@[at + j] == needle@[j],
        decreases needle.len() - k,
    {
        if hay[at + k] != needle[k] {
            return false;
        }
        k += 1;
    }
    assert(hay@.subrange(at as int, at + needle.len()) =~= needle@);
    true
}

/// The first position at which `needle` stands in `hay`.
pub fn find_text(hay: &Vec<char>, needle: &Vec<char>) -> (found: Option<usize>)
    ensures
        match found {
            Some(at) => at == first_occurrence(hay@, needle@) && at + needle.len() <= hay.len(),
            None => first_occurrence(hay@, needle@) == -1,
        },
{
    let ghost holds = |at: int| occurs_at(hay@, needle@, at);
    if needle.len() > hay.len() {
        proof {
            lemma_least_index_is(hay.len() + 1, holds, -1);
        }
        return None;
    }
    let last: usize = hay.len() - needle.len();
    let mut at: usize = 0;
    while at < last
        invariant
            at <= last,
            last == hay.len() - needle.len(),
            needle.len() <= hay.len(),
            holds == (|at: int| occurs_at(hay@, needle@, at)),
            forall|j: int| 0 <= j < at ==> !#[trigger] holds(j),
        decreases last - at,
    {
        if stands_at(hay, needle, at) {
            proof {
                lemma_least_index_is(hay.len() + 1, holds, at as int);
            }
            return Some(at);
        }
        at += 1;
    }
    if stands_at(hay, needle, last) {
        proof {
            lemma_least_index_is(hay.len() + 1, holds, last as int);
        }
        return Some(last);
    }
    proof {
        lemma_least_index_is(hay.len() + 1, holds, -1);
    }
    None
}

} // verus!
