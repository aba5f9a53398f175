//! Searching and trimming of text by whole characters.

use vstd::prelude::*;

verus! {

/// `part` occurs somewhere in `text`.
pub open spec fn has_part(text: Seq<char>, part: Seq<char>) -> bool {
    exists|i: int|
        0 <= i <= text.len() - part.len() && #[trigger] text.subrange(i, i + part.len()) == part
}

/// `text` without the copies of `prefix` that it starts with.
pub open spec fn without_prefixes(text: Seq<char>, prefix: Seq<char>) -> Seq<char>
    decreases text.len(),
{
    if prefix.len() > 0 && prefix.is_prefix_of(text) {
        without_prefixes(text.skip(prefix.len() as int), prefix)
    } else {
        text
    }
}

/// The characters of a text.
pub fn chars_of(text: &str) -> (chars: Vec<char>)
    ensures
        chars@ == text@,
{
    let mut chars: Vec<char> = Vec::new();
    for c in iter: text.chars()
        invariant
            iter.seq() == text@,
            chars@ == text@.take(iter.index()),
    {
        chars.push(c);
        assert(chars@ =~= text@.take(iter.index() + 1));
    }
    assert(text@.take(text@.len() as int) =~= text@);
    chars
}

/// Whether `part` stands in `text` at position `at`.
fn stands_at(text: &Vec<char>, at: usize, part: &Vec<char>) -> (found: bool)
    requires
        at + part.len() <= text.len(),
    ensures
        found == (text@.subrange(at as int, at + part.len()) == part@),
{
    let n: usize = part.len();
    for k in 0..n
        invariant
            n == part.len(),
            at + part.len() <= text.len(),
            forall|i: int| 0 <= i < k ==> text@[at + i] == #[trigger] part@[i],
    {
        if text[at + k] != part[k] {
            assert(text@.subrange(at as int, at + part.len())[k as int] != part@[k as int]);
            return false;
        }
    }
    assert(text@.subrange(at as int, at + part.len()) =~= part@);
    true
}

/// Whether `text` starts with `prefix`.
pub fn starts_with(text: &str, prefix: &str) -> (found: bool)
    ensures
        found == prefix@.is_prefix_of(text@),
{
    let text = chars_of(text);
    let prefix = chars_of(prefix);
    prefix.len() <= text.len() && stands_at(&text, 0, &prefix)
}

/// Whether `part` occurs in `text`.
pub fn contains(text: &str, part: &str) -> (found: bool)
    ensures
        found == has_part(text@, part@),
{
    let whole = chars_of(text);
    let sought = chars_of(part);
    if sought.len() > whole.len() {
        return false;
    }
    let places: usize = whole.len() - sought.len();
    for at in 0..places
        invariant
            places == whole.len() - sought.len(),
            whole@ == text@,
            sought@ == part@,
            forall|i: int| 0 <= i < at ==> #[trigger] text@.subrange(i, i + part@.len()) != part@,
    {
        if stands_at(&whole, at, &sought) {
            return true;
        }
    }
    stands_at(&whole, places, &sought)
}

/// `text` without the copies of `prefix` that it starts with.
pub fn trim_start_matches(text: &str, prefix: &str) -> (rest: String)
    ensures
        rest@ == without_prefixes(text@, prefix@),
{
    let chars = chars_of(text);
    let part = chars_of(prefix);
    let mut at: usize = 0;
    assert(chars@.skip(0) =~= chars@);
    while part.len() > 0 && part.len() <= chars.len() - at
        invariant_except_break
            at <= chars.len(),
            without_prefixes(chars@, part@) == without_prefixes(chars@.skip(at as int), part@),
        ensures
            at <= chars.len(),
            without_prefixes(chars@, part@) == chars@.skip(at as int),
        decreases chars.len() - at,
    {
        let ghost rest = chars@.skip(at as int);
        assert(rest.subrange(0, part.len() as int) =~= chars@.subrange(at as int, at + part.len()));
        if !stands_at(&chars, at, &part) {
            break;
        }
        assert(rest.skip(part.len() as int) =~= chars@.skip(at + part.len()));
        at = at + part.len();
    }
    assert(chars@.skip(at as int) =~= chars@.subrange(at as int, chars.len() as int));
    text.substring_char(at, chars.len()).to_owned()
}

/// A part occurs in a text exactly when the text is something, the part and
/// something else in a row.
pub proof fn law_part_stands_between(text: Seq<char>, part: Seq<char>)
    ensures
        has_part(text, part) <==> exists|before: Seq<char>, after: Seq<char>|
            text == #[trigger] (before + part + after),
{
    if has_part(text, part) {
        let i = choose|i: int|
            0 <= i <= text.len() - part.len() && #[trigger] text.subrange(i, i + part.len()) == part;
        let before = text.take(i);
        let after = text.skip(i + part.len());
        assert(text =~= before + part + after);
    }
    if exists|before: Seq<char>, after: Seq<char>| text == #[trigger] (before + part + after) {
        let (before, after) = choose|before: Seq<char>, after: Seq<char>|
            text == #[trigger] (before + part + after);
        let i = before.len() as int;
        assert(text.subrange(i, i + part.len()) =~= part);
    }
}

/// Trimming takes a leading copy of the prefix off, and goes on with the rest;
/// it leaves a text without one as it is.
pub proof fn law_trimming_takes_copies_off(text: Seq<char>, prefix: Seq<char>)
    ensures
        prefix.len() > 0 ==> without_prefixes(prefix + text, prefix) == without_prefixes(text, prefix),
        !prefix.is_prefix_of(text) || prefix.len() == 0 ==> without_prefixes(text, prefix) == text,
{
    if prefix.len() > 0 {
        let whole = prefix + text;
        assert(whole.subrange(0, prefix.len() as int) =~= prefix);
        assert(whole.skip(prefix.len() as int) =~= text);
    }
}

} // verus!
