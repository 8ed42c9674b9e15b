//! Characters and lines: the two notions of whitespace, trimming, and the
//! splitting of a line into words.

use vstd::prelude::*;
use vstd::std_specs::iter::IteratorSpec;

verus! {

/// `String::push` of the standard library: the character is appended and
/// nothing else changes.
pub assume_specification[ String::push ](s: &mut String, ch: char)
    ensures
        final(s)@ == old(s)@.push(ch),
;

/// `String::pop` of the standard library: the last character leaves the
/// string and is returned; an empty string stays empty and gives nothing.
pub assume_specification[ String::pop ](s: &mut String) -> (popped: Option<char>)
    ensures
        old(s)@.len() == 0 ==> popped is None && final(s)@ == old(s)@,
        old(s)@.len() > 0 ==> popped == Some(old(s)@.last()) && final(s)@ == old(s)@.drop_last(),
;

/// Space, tab, line feed, form feed and carriage return: the characters that
/// separate the words of a line.
pub open spec fn ascii_whitespace(c: char) -> bool {
    c == ' ' || c == '\t' || c == '\n' || c == '\x0C' || c == '\r'
}

/// The characters with the Unicode property `White_Space`.
pub open spec fn whitespace(c: char) -> bool {
    let n = c as u32;
    ||| 0x09 <= n <= 0x0D
    ||| n == 0x20
    ||| n == 0x85
    ||| n == 0xA0
    ||| n == 0x1680
    ||| 0x2000 <= n <= 0x200A
    ||| n == 0x2028
    ||| n == 0x2029
    ||| n == 0x202F
    ||| n == 0x205F
    ||| n == 0x3000
}

/// The upper-case form of an ASCII lower-case letter; any other character is
/// itself.
pub open spec fn ascii_uppercase(c: char) -> char {
    if 'a' <= c <= 'z' {
        ((c as u8) - 32) as char
    } else {
        c
    }
}

#[verifier::when_used_as_spec(ascii_whitespace)]
pub fn is_ascii_whitespace(c: char) -> (yes: bool)
    ensures
        yes == ascii_whitespace(c),
{
    c == ' ' || c == '\t' || c == '\n' || c == '\x0C' || c == '\r'
}

#[verifier::when_used_as_spec(whitespace)]
pub fn is_whitespace(c: char) -> (yes: bool)
    ensures
        yes == whitespace(c),
{
    let n: u32 = c as u32;
    (0x09 <= n && n <= 0x0D) || n == 0x20 || n == 0x85 || n == 0xA0 || n == 0x1680 || (0x2000 <= n
        && n <= 0x200A) || n == 0x2028 || n == 0x2029 || n == 0x202F || n == 0x205F || n == 0x3000
}

#[verifier::when_used_as_spec(ascii_uppercase)]
pub fn to_ascii_uppercase(c: char) -> (upper: char)
    ensures
        upper == ascii_uppercase(c),
{
    if 'a' <= c && c <= 'z' {
        ((c as u8) - 32u8) as char
    } else {
        c
    }
}

/// Every separator of words is whitespace.
pub proof fn lemma_ascii_whitespace_is_whitespace(c: char)
    requires
        ascii_whitespace(c),
    ensures
        whitespace(c),
{
}

/// The characters of `s`, one by one.
pub fn chars_of(s: &str) -> (chars: Vec<char>)
    ensures
        chars@ == s@,
{
    let mut chars: Vec<char> = Vec::new();
    for c in it: s.chars()
        invariant
            chars@ == it.seq().take(it.index() as int),
    {
        chars.push(c);
    }
    chars
}

/// `s` without the whitespace at its end.
pub open spec fn trimmed_end(s: Seq<char>) -> Seq<char>
    decreases s.len(),
{
    if s.len() > 0 && whitespace(s.last()) {
        trimmed_end(s.drop_last())
    } else {
        s
    }
}

/// What remains of `s` is a prefix of it that does not end in whitespace,
/// and all that was cut off is whitespace.
pub proof fn lemma_trimmed_end(s: Seq<char>)
    ensures
        trimmed_end(s).len() <= s.len(),
        trimmed_end(s) == s.take(trimmed_end(s).len() as int),
        trimmed_end(s).len() > 0 ==> !whitespace(trimmed_end(s).last()),
        forall|i: int| trimmed_end(s).len() <= i < s.len() ==> whitespace(#[trigger] s[i]),
    decreases s.len(),
{
    if s.len() > 0 && whitespace(s.last()) {
        let t = s.drop_last();
        lemma_trimmed_end(t);
        assert(t.take(trimmed_end(t).len() as int) =~= s.take(trimmed_end(t).len() as int));
        assert forall|i: int| trimmed_end(s).len() <= i < s.len() implies whitespace(
            #[trigger] s[i],
        ) by {
            if i < t.len() {
                assert(s[i] == t[i]);
            }
        }
    } else {
        assert(s =~= s.take(s.len() as int));
    }
}

/// Cuts the whitespace off the end of `s`.
pub fn trim_end(s: &str) -> (trimmed: String)
    ensures
        trimmed@ == trimmed_end(s@),
{
    let chars = chars_of(s);
    let mut end: usize = chars.len();
    assert(chars@.take(end as int) =~= chars@);
    while end > 0 && is_whitespace(chars[end - 1])
        invariant
            end <= chars.len(),
            trimmed_end(chars@) == trimmed_end(chars@.take(end as int)),
        decreases end,
    {
        assert(chars@.take(end as int).drop_last() =~= chars@.take(end as int - 1));
        end = end - 1;
    }
    let mut trimmed = String::new();
    let mut i: usize = 0;
    while i < end
        invariant
            i <= end <= chars.len(),
            trimmed@ == chars@.take(i as int),
        decreases end - i,
    {
        trimmed.push(chars[i]);
        assert(chars@.take(i as int).push(chars@[i as int]) =~= chars@.take(i as int + 1));
        i = i + 1;
    }
    trimmed
}

/// The length of the word that `s` begins with: the characters before its
/// first separator.
pub open spec fn word_len(s: Seq<char>) -> nat
    decreases s.len(),
{
    if s.len() == 0 || ascii_whitespace(s[0]) {
        0
    } else {
        1 + word_len(s.drop_first())
    }
}

/// The word at the start of `s` lies within `s`, holds no separator, and
/// ends at a separator or with `s`.
pub proof fn lemma_word_len(s: Seq<char>)
    ensures
        word_len(s) <= s.len(),
        forall|i: int| 0 <= i < word_len(s) ==> !ascii_whitespace(#[trigger] s[i]),
        word_len(s) < s.len() ==> ascii_whitespace(s[word_len(s) as int]),
    decreases s.len(),
{
    if s.len() == 0 || ascii_whitespace(s[0]) {
    } else {
        let t = s.drop_first();
        lemma_word_len(t);
        assert forall|i: int| 0 <= i < word_len(s) implies !ascii_whitespace(#[trigger] s[i]) by {
            if i > 0 {
                assert(s[i] == t[i - 1]);
            }
        }
    }
}

/// The words of `s`: its longest runs of characters that are no separators,
/// from left to right.
pub open spec fn words(s: Seq<char>) -> Seq<Seq<char>>
    decreases s.len(),
{
    if s.len() == 0 {
        Seq::empty()
    } else if ascii_whitespace(s[0]) {
        words(s.drop_first())
    } else {
        let n = word_len(s) as int;
        if 0 < n <= s.len() {
            seq![s.take(n)] + words(s.skip(n))
        } else {
            Seq::empty()
        }
    }
}

/// A word: at least one character, and no separator among them.
pub open spec fn is_word(w: Seq<char>) -> bool {
    w.len() > 0 && forall|i: int| 0 <= i < w.len() ==> !ascii_whitespace(#[trigger] w[i])
}

/// Each of the words of a line is a word.
pub proof fn lemma_words_are_words(s: Seq<char>)
    ensures
        forall|k: int| 0 <= k < words(s).len() ==> is_word(#[trigger] words(s)[k]),
    decreases s.len(),
{
    if s.len() == 0 {
    } else if ascii_whitespace(s[0]) {
        lemma_words_are_words(s.drop_first());
        assert(words(s) == words(s.drop_first()));
    } else {
        lemma_word_len(s);
        let n = word_len(s) as int;
        lemma_words_are_words(s.skip(n));
        assert(is_word(s.take(n)));
        assert(words(s) == seq![s.take(n)] + words(s.skip(n)));
        assert forall|k: int| 0 <= k < words(s).len() implies is_word(#[trigger] words(s)[k]) by {
            if k > 0 {
                assert(words(s)[k] == words(s.skip(n))[k - 1]);
            }
        }
    }
}

/// A line has no word exactly when each of its characters is a separator.
pub proof fn lemma_no_words(s: Seq<char>)
    ensures
        words(s).len() == 0 <==> forall|i: int| 0 <= i < s.len() ==> ascii_whitespace(#[trigger] s[i]),
    decreases s.len(),
{
    if s.len() == 0 {
    } else if ascii_whitespace(s[0]) {
        let t = s.drop_first();
        lemma_no_words(t);
        if words(t).len() == 0 {
            assert forall|i: int| 0 <= i < s.len() implies ascii_whitespace(#[trigger] s[i]) by {
                if i > 0 {
                    assert(s[i] == t[i - 1]);
                }
            }
        } else {
            let j = choose|j: int| 0 <= j < t.len() && !ascii_whitespace(#[trigger] t[j]);
            assert(s[j + 1] == t[j]);
        }
    } else {
        lemma_word_len(s);
    }
}

/// The first word of a line starts after the separators that the line begins
/// with: leading separators change no word.
pub proof fn lemma_words_skip_separators(s: Seq<char>, n: int)
    requires
        0 <= n <= s.len(),
        forall|i: int| 0 <= i < n ==> ascii_whitespace(#[trigger] s[i]),
    ensures
        words(s) == words(s.skip(n)),
    decreases n,
{
    if n == 0 {
        assert(s.skip(0) =~= s);
    } else {
        let t = s.drop_first();
        assert forall|i: int| 0 <= i < n - 1 implies ascii_whitespace(#[trigger] t[i]) by {
            assert(t[i] == s[i + 1]);
        }
        lemma_words_skip_separators(t, n - 1);
        assert(t.skip(n - 1) =~= s.skip(n));
    }
}

/// Splits `s` into its words.
pub fn split_ascii_whitespace(s: &str) -> (parts: Vec<String>)
    ensures
        parts.deep_view() == words(s@),
{
    let chars = chars_of(s);
    let mut parts: Vec<String> = Vec::new();
    let mut i: usize = 0;
    assert(chars@.skip(0) =~= chars@);
    while i < chars.len()
        invariant
            i <= chars.len(),
            chars@ == s@,
            parts.deep_view() + words(chars@.skip(i as int)) == words(chars@),
        decreases chars.len() - i,
    {
        let ghost rest = chars@.skip(i as int);
        assert(rest[0] == chars@[i as int]);
        if is_ascii_whitespace(chars[i]) {
            assert(rest.drop_first() =~= chars@.skip(i as int + 1));
            i = i + 1;
        } else {
            let start: usize = i;
            let mut word = String::new();
            assert(rest.skip(0) =~= rest);
            while i < chars.len() && !is_ascii_whitespace(chars[i])
                invariant
                    start <= i <= chars.len(),
                    rest == chars@.skip(start as int),
                    word@ == rest.take(i - start),
                    word_len(rest) == (i - start) + word_len(rest.skip(i - start)),
                decreases chars.len() - i,
            {
                let ghost tail = rest.skip(i - start);
                assert(tail[0] == chars@[i as int]);
                assert(tail.drop_first() =~= rest.skip(i - start + 1));
                assert(rest.take(i - start).push(chars@[i as int]) =~= rest.take(i - start + 1));
                word.push(chars[i]);
                i = i + 1;
            }
            proof {
                let tail = rest.skip(i - start);
                if i < chars.len() {
                    assert(tail[0] == chars@[i as int]);
                }
                assert(word_len(tail) == 0);
                assert(rest.skip(i - start) =~= chars@.skip(i as int));
            }
            let ghost before = parts.deep_view();
            parts.push(word);
            assert(parts.deep_view() =~= before + seq![word@]);
            assert(before + (seq![word@] + words(chars@.skip(i as int))) =~= (before + seq![word@])
                + words(chars@.skip(i as int)));
        }
    }
    assert(parts.deep_view() + Seq::<Seq<char>>::empty() =~= parts.deep_view());
    parts
}

} // verus!
