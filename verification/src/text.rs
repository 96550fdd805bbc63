//! Text helpers: searching, splitting and ordering strings by their characters.

use vstd::prelude::*;

verus! {

/// `needle` occurs in `text` at position `at`.
pub open spec fn occurs_at(text: Seq<char>, needle: Seq<char>, at: int) -> bool {
    &&& 0 <= at
    &&& at + needle.len() <= text.len()
    &&& text.subrange(at, at + needle.len()) == needle
}

/// `needle` occurs somewhere in `text`.
pub open spec fn occurs_in(text: Seq<char>, needle: Seq<char>) -> bool {
    exists|at: int| occurs_at(text, needle, at)
}

/// A text occurs in another exactly where that one is made of anything, the text, and
/// anything.
pub proof fn law_text_in_the_middle(text: Seq<char>, needle: Seq<char>)
    ensures
        occurs_in(text, needle) <==> exists|before: Seq<char>, behind: Seq<char>|
            text == #[trigger] (before + needle + behind),
{
    if occurs_in(text, needle) {
        let at = choose|at: int| occurs_at(text, needle, at);
        assert(text =~= text.take(at) + needle + text.skip(at + needle.len()));
    }
    if exists|before: Seq<char>, behind: Seq<char>| text == #[trigger] (before + needle + behind) {
        let (before, behind) = choose|before: Seq<char>, behind: Seq<char>|
            text == #[trigger] (before + needle + behind);
        let at = before.len() as int;
        assert(text.subrange(at, at + needle.len()) =~= needle);
        assert(occurs_at(text, needle, at));
    }
}

/// The characters of a string, one by one.
pub fn chars_of(s: &str) -> (chars: Vec<char>)
    ensures
        chars@ == s@,
{
    let mut chars: Vec<char> = Vec::new();
    for c in it: s.chars()
        invariant
            chars@ == s@.take(it.index()),
            it.seq() == s@,
    {
        chars.push(c);
    }
    chars
}

/// The characters of `text` at `at` are those of `needle`.
fn matches_at(text: &Vec<char>, needle: &Vec<char>, at: usize) -> (found: bool)
    requires
        at + needle@.len() <= text@.len(),
    ensures
        found == occurs_at(text@, needle@, at as int),
{
    let len: usize = text.len();
    let mut i: usize = 0;
    while i < needle.len()
        invariant
            len == text@.len(),
            at + needle@.len() <= len,
            0 <= i <= needle@.len(),
            forall|j: int| 0 <= j < i ==> text@[at + j] == needle@[j],
        decreases needle@.len() - i,
    {
        if text[at + i] != needle[i] {
            assert(text@.subrange(at as int, at + needle@.len())[i as int] != needle@[i as int]);
            return false;
        }
        i += 1;
    }
    assert(text@.subrange(at as int, at + needle@.len()) =~= needle@);
    true
}

/// Whether `needle` occurs anywhere in `text`.
pub fn contains(text: &str, needle: &str) -> (found: bool)
    ensures
        found == occurs_in(text@, needle@),
{
    let text_chars = chars_of(text);
    let needle_chars = chars_of(needle);
    if needle_chars.len() > text_chars.len() {
        return false;
    }
    let last: usize = text_chars.len() - needle_chars.len();
    let mut at: usize = 0;
    loop
        invariant
            text_chars@ == text@,
            needle_chars@ == needle@,
            needle@.len() <= text@.len(),
            last == text@.len() - needle@.len(),
            0 <= at <= last,
            forall|j: int| 0 <= j < at ==> !occurs_at(text@, needle@, j),
        decreases last - at,
    {
        if matches_at(&text_chars, &needle_chars, at) {
            return true;
        }
        if at == last {
            return false;
        }
        at += 1;
    }
}

/// `text` ends with the characters of `suffix`.
pub open spec fn has_suffix(text: Seq<char>, suffix: Seq<char>) -> bool {
    &&& suffix.len() <= text.len()
    &&& text.skip(text.len() - suffix.len()) == suffix
}

/// A text ends with another exactly where it is made of anything and that one.
pub proof fn law_text_at_the_end(text: Seq<char>, suffix: Seq<char>)
    ensures
        has_suffix(text, suffix) <==> exists|before: Seq<char>|
            text == #[trigger] (before + suffix),
{
    if has_suffix(text, suffix) {
        assert(text =~= text.take(text.len() - suffix.len()) + suffix);
    }
    if exists|before: Seq<char>| text == #[trigger] (before + suffix) {
        let before = choose|before: Seq<char>| text == #[trigger] (before + suffix);
        assert(text.skip(text.len() - suffix.len()) =~= suffix);
    }
}

/// Whether `text` ends with `suffix`.
pub fn ends_with(text: &str, suffix: &str) -> (found: bool)
    ensures
        found == has_suffix(text@, suffix@),
{
    let text_chars = chars_of(text);
    let suffix_chars = chars_of(suffix);
    if suffix_chars.len() > text_chars.len() {
        return false;
    }
    let at: usize = text_chars.len() - suffix_chars.len();
    assert(text@.subrange(at as int, text@.len() as int) =~= text@.skip(at as int));
    matches_at(&text_chars, &suffix_chars, at)
}

/// No character of `text` is `c`.
pub open spec fn free_of(text: Seq<char>, c: char) -> bool {
    !text.contains(c)
}

/// What follows the last `c` of `text`: all of `text` where there is none.
pub open spec fn after_last(text: Seq<char>, c: char) -> Seq<char>
    decreases text.len(),
{
    if text.len() == 0 || text.last() == c {
        Seq::empty()
    } else {
        after_last(text.drop_last(), c).push(text.last())
    }
}

/// The last part of a text ends it and is free of the separator, and either nothing or a
/// separator stands before it.
pub proof fn law_last_part_follows_the_last_separator(text: Seq<char>, c: char)
    ensures
        has_suffix(text, after_last(text, c)),
        free_of(after_last(text, c), c),
        after_last(text, c).len() < text.len() ==> text[text.len() - after_last(text, c).len()
            - 1] == c,
    decreases text.len(),
{
    let tail = after_last(text, c);
    if text.len() == 0 || text.last() == c {
        assert(text.skip(text.len() as int) =~= tail);
    } else {
        let short = text.drop_last();
        law_last_part_follows_the_last_separator(short, c);
        assert(text.skip(text.len() - tail.len()) =~= tail) by {
            assert(short.skip(short.len() - after_last(short, c).len()) == after_last(short, c));
            assert forall|i: int| 0 <= i < after_last(short, c).len() implies text[text.len()
                - tail.len() + i] == after_last(short, c)[i] by {
                assert(short.skip(short.len() - after_last(short, c).len())[i]
                    == after_last(short, c)[i]);
            }
        }
        assert forall|x: char| tail.contains(x) implies x != c by {
            let i = choose|i: int| 0 <= i < tail.len() && tail[i] == x;
            if i < tail.len() - 1 {
                assert(after_last(short, c).contains(after_last(short, c)[i]));
            }
        }
    }
}

/// A text made of anything, a separator and a separator-free end gives that end back.
pub proof fn lemma_after_last_joined(head: Seq<char>, c: char, tail: Seq<char>)
    requires
        free_of(tail, c),
    ensures
        after_last(head.push(c) + tail, c) == tail,
    decreases tail.len(),
{
    let text = head.push(c) + tail;
    if tail.len() == 0 {
        assert(text =~= head.push(c));
    } else {
        assert(tail.contains(tail.last()));
        assert forall|x: char| tail.drop_last().contains(x) implies x != c by {
            let i = choose|i: int| 0 <= i < tail.drop_last().len() && tail.drop_last()[i] == x;
            assert(tail[i] == x);
        }
        lemma_after_last_joined(head, c, tail.drop_last());
        assert(text.drop_last() =~= head.push(c) + tail.drop_last());
        assert(tail.drop_last().push(tail.last()) =~= tail);
    }
}

/// A text without a separator is its own last part.
pub proof fn lemma_after_last_whole(text: Seq<char>, c: char)
    requires
        free_of(text, c),
    ensures
        after_last(text, c) == text,
    decreases text.len(),
{
    if text.len() > 0 {
        assert(text.contains(text.last()));
        assert forall|x: char| text.drop_last().contains(x) implies x != c by {
            let i = choose|i: int| 0 <= i < text.drop_last().len() && text.drop_last()[i] == x;
            assert(text[i] == x);
        }
        lemma_after_last_whole(text.drop_last(), c);
        assert(text.drop_last().push(text.last()) =~= text);
    }
}

/// The last part of a text: all of it where the separator is not in it, and what stands
/// behind the last separator otherwise.
pub proof fn law_last_part(head: Seq<char>, c: char, tail: Seq<char>)
    requires
        forall|i: int| 0 <= i < tail.len() ==> tail[i] != c,
    ensures
        after_last(tail, c) == tail,
        after_last(head + seq![c] + tail, c) == tail,
{
    lemma_after_last_whole(tail, c);
    lemma_after_last_joined(head, c, tail);
    assert(head + seq![c] + tail =~= head.push(c) + tail);
}

/// The part of `text` behind its last `separator`.
pub fn last_part<'a>(text: &'a str, separator: char) -> (part: &'a str)
    ensures
        part@ == after_last(text@, separator),
{
    let chars = chars_of(text);
    let len: usize = chars.len();
    let mut from: usize = len;
    while from > 0 && chars[from - 1] != separator
        invariant
            chars@ == text@,
            len == text@.len(),
            0 <= from <= len,
            free_of(text@.skip(from as int), separator),
        ensures
            from == 0 || text@[from - 1] == separator,
        decreases from,
    {
        from -= 1;
        proof {
            assert forall|x: char| text@.skip(from as int).contains(x) implies x != separator by {
                let i = choose|i: int|
                    0 <= i < text@.skip(from as int).len() && text@.skip(from as int)[i] == x;
                if i > 0 {
                    assert(text@.skip(from + 1)[i - 1] == x);
                }
            }
        }
    }
    let part = text.substring_char(from, len);
    proof {
        assert(part@ =~= text@.skip(from as int));
        if from == 0 {
            assert(part@ =~= text@);
            lemma_after_last_whole(text@, separator);
        } else {
            let head = text@.take(from - 1);
            assert(head.push(separator) + part@ =~= text@);
            lemma_after_last_joined(head, separator, part@);
        }
    }
    part
}

/// `a` comes before `b` when compared character by character: at the first position
/// where they differ `a` has the smaller character, or `a` ends first.
pub open spec fn before(a: Seq<char>, b: Seq<char>) -> bool
    decreases a.len(),
{
    if b.len() == 0 {
        false
    } else if a.len() == 0 {
        true
    } else if a[0] != b[0] {
        a[0] < b[0]
    } else {
        before(a.drop_first(), b.drop_first())
    }
}

/// No text comes before itself.
pub proof fn lemma_before_irreflexive(a: Seq<char>)
    ensures
        !before(a, a),
    decreases a.len(),
{
    if a.len() > 0 {
        lemma_before_irreflexive(a.drop_first());
    }
}

/// The order is transitive.
pub proof fn lemma_before_transitive(a: Seq<char>, b: Seq<char>, c: Seq<char>)
    requires
        before(a, b),
        before(b, c),
    ensures
        before(a, c),
    decreases a.len(),
{
    if a.len() > 0 && b.len() > 0 && c.len() > 0 && a[0] == b[0] && b[0] == c[0] {
        lemma_before_transitive(a.drop_first(), b.drop_first(), c.drop_first());
    }
}

/// Two different texts are ordered one way or the other.
pub proof fn lemma_before_total(a: Seq<char>, b: Seq<char>)
    requires
        a != b,
    ensures
        before(a, b) || before(b, a),
    decreases a.len(),
{
    if a.len() > 0 && b.len() > 0 && a[0] == b[0] {
        if a.drop_first() == b.drop_first() {
            assert(a =~= seq![a[0]] + a.drop_first());
            assert(b =~= seq![b[0]] + b.drop_first());
        }
        lemma_before_total(a.drop_first(), b.drop_first());
    } else if a.len() == 0 && b.len() == 0 {
        assert(a =~= b);
    }
}

/// Of two texts with the same beginning, the one with the smaller character behind it comes
/// first; a text comes before every longer one that begins with it.
pub proof fn law_first_difference_decides(
    same: Seq<char>,
    x: char,
    y: char,
    one: Seq<char>,
    other: Seq<char>,
)
    ensures
        x != y ==> (before(same + seq![x] + one, same + seq![y] + other) <==> x < y),
        before(same, same + seq![y] + other),
        !before(same + seq![x] + one, same),
    decreases same.len(),
{
    let a = same + seq![x] + one;
    let b = same + seq![y] + other;
    if same.len() == 0 {
        assert(a[0] == x && b[0] == y);
    } else {
        let rest = same.drop_first();
        law_first_difference_decides(rest, x, y, one, other);
        assert(a.drop_first() =~= rest + seq![x] + one);
        assert(b.drop_first() =~= rest + seq![y] + other);
        assert(a[0] == same[0] && b[0] == same[0]);
    }
}

/// Whether `a` comes before `b`.
pub fn comes_before(a: &str, b: &str) -> (less: bool)
    ensures
        less == before(a@, b@),
{
    let a_chars = chars_of(a);
    let b_chars = chars_of(b);
    let mut i: usize = 0;
    assert(a@.skip(0) =~= a@);
    assert(b@.skip(0) =~= b@);
    loop
        invariant
            a_chars@ == a@,
            b_chars@ == b@,
            0 <= i <= a@.len(),
            i <= b@.len(),
            before(a@, b@) == before(a@.skip(i as int), b@.skip(i as int)),
        decreases a@.len() - i,
    {
        if i == b_chars.len() {
            return false;
        }
        if i == a_chars.len() {
            return true;
        }
        if a_chars[i] != b_chars[i] {
            return a_chars[i] < b_chars[i];
        }
        assert(a@.skip(i as int).drop_first() =~= a@.skip(i + 1));
        assert(b@.skip(i as int).drop_first() =~= b@.skip(i + 1));
        i += 1;
    }
}

} // verus!
