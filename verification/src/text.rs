//! Text functions: white space, words and lines.

use vstd::prelude::*;
use vstd::std_specs::iter::IteratorSpec;
use vstd::string::*;

verus! {

/// Whether `c` is white space: a character with the Unicode property
/// `White_Space`.
pub open spec fn is_space(c: char) -> bool {
    let n = c as u32;
    ||| 0x09 <= n <= 0x0d
    ||| n == 0x20
    ||| n == 0x85
    ||| n == 0xa0
    ||| n == 0x1680
    ||| 0x2000 <= n <= 0x200a
    ||| n == 0x2028
    ||| n == 0x2029
    ||| n == 0x202f
    ||| n == 0x205f
    ||| n == 0x3000
}

/// Whether `c` is white space.
pub fn is_whitespace(c: char) -> (b: bool)
    ensures
        b == is_space(c),
{
    let n: u32 = c as u32;
    (0x09 <= n && n <= 0x0d) || n == 0x20 || n == 0x85 || n == 0xa0 || n == 0x1680 || (0x2000 <= n
        && n <= 0x200a) || n == 0x2028 || n == 0x2029 || n == 0x202f || n == 0x205f || n == 0x3000
}

/// The characters of `text`, one by one.
pub fn chars_of(text: &str) -> (chars: Vec<char>)
    ensures
        chars@ == text@,
{
    let mut chars: Vec<char> = Vec::new();
    let mut rest = text.chars();
    loop
        invariant
            chars@ + rest.remaining() == text@,
            rest.decrease() is Some,
        decreases rest.decrease()->0,
    {
        broadcast use group_string_axioms;
        match rest.next() {
            Some(c) => {
                chars.push(c);
            },
            None => {
                return chars;
            },
        }
    }
}

/// The number of characters of `s` before its first white space.
pub open spec fn word_len(s: Seq<char>) -> nat
    decreases s.len(),
{
    if s.len() == 0 || is_space(s[0]) {
        0
    } else {
        1 + word_len(s.skip(1))
    }
}

/// The words of `s`: its longest runs of characters that are not white
/// space, from left to right.
pub open spec fn words(s: Seq<char>) -> Seq<Seq<char>>
    decreases s.len(),
    via words_decreases
{
    if s.len() == 0 {
        Seq::empty()
    } else if is_space(s[0]) {
        words(s.skip(1))
    } else {
        seq![s.take(word_len(s) as int)] + words(s.skip(word_len(s) as int))
    }
}

#[via_fn]
proof fn words_decreases(s: Seq<char>) {
    if s.len() > 0 && !is_space(s[0]) {
        lemma_word_len_bound(s);
    }
}

/// A word ends inside the text, and is not empty where the text starts with
/// a character that is not white space.
pub proof fn lemma_word_len_bound(s: Seq<char>)
    ensures
        word_len(s) <= s.len(),
        s.len() > 0 && !is_space(s[0]) ==> word_len(s) >= 1,
    decreases s.len(),
{
    if s.len() > 0 && !is_space(s[0]) {
        lemma_word_len_bound(s.skip(1));
    }
}

/// A word in the strict sense: not empty, and without white space.
pub open spec fn is_word(word: Seq<char>) -> bool {
    &&& word.len() > 0
    &&& forall|j: int| 0 <= j < word.len() ==> !is_space(#[trigger] word[j])
}

/// No character of the first `word_len(s)` of `s` is white space.
pub proof fn lemma_word_len_solid(s: Seq<char>)
    ensures
        forall|j: int| 0 <= j < word_len(s) ==> !is_space(#[trigger] s[j]),
    decreases s.len(),
{
    if s.len() > 0 && !is_space(s[0]) {
        lemma_word_len_bound(s);
        lemma_word_len_solid(s.skip(1));
        assert forall|j: int| 0 <= j < word_len(s) implies !is_space(#[trigger] s[j]) by {
            if j > 0 {
                assert(s[j] == s.skip(1)[j - 1]);
            }
        }
    }
}

/// Each of the words of a text is a word in the strict sense.
pub proof fn lemma_words_are_words(s: Seq<char>)
    ensures
        forall|k: int| 0 <= k < words(s).len() ==> is_word(#[trigger] words(s)[k]),
    decreases s.len(),
{
    if s.len() == 0 {
    } else if is_space(s[0]) {
        lemma_words_are_words(s.skip(1));
        assert(words(s) == words(s.skip(1)));
    } else {
        let n = word_len(s) as int;
        lemma_word_len_bound(s);
        lemma_word_len_solid(s);
        lemma_words_are_words(s.skip(n));
        let first = s.take(n);
        assert forall|j: int| 0 <= j < first.len() implies !is_space(#[trigger] first[j]) by {}
        assert forall|k: int| 0 <= k < words(s).len() implies is_word(#[trigger] words(s)[k]) by {
            if k > 0 {
                assert(words(s)[k] == words(s.skip(n))[k - 1]);
            }
        }
    }
}

/// Words joined by blanks begin with the first character of the first word
/// and end with the last character of the last: there is no white space at
/// either end.
pub proof fn lemma_joined_is_trimmed(words: Seq<Seq<char>>)
    requires
        forall|k: int| 0 <= k < words.len() ==> is_word(#[trigger] words[k]),
    ensures
        words.len() == 0 ==> joined(words).len() == 0,
        words.len() > 0 ==> joined(words).len() > 0 && !is_space(joined(words).first())
            && !is_space(joined(words).last()),
    decreases words.len(),
{
    if words.len() >= 2 {
        lemma_joined_is_trimmed(words.drop_last());
    }
}

/// Where each word of `chars` starts and where it ends.
fn word_spans(chars: &Vec<char>) -> (spans: Vec<(usize, usize)>)
    ensures
        spans@.len() == words(chars@).len(),
        forall|k: int|
            0 <= k < spans@.len() ==> {
                &&& (#[trigger] spans@[k]).0 <= spans@[k].1 <= chars@.len()
                &&& chars@.subrange(spans@[k].0 as int, spans@[k].1 as int) == words(chars@)[k]
            },
{
    let n = chars.len();
    let mut spans: Vec<(usize, usize)> = Vec::new();
    let ghost mut found: Seq<Seq<char>> = Seq::empty();
    let mut i: usize = 0;
    proof {
        assert(chars@.skip(0) =~= chars@);
    }
    while i < n
        invariant
            n == chars@.len(),
            i <= n,
            words(chars@) == found + words(chars@.skip(i as int)),
            spans@.len() == found.len(),
            forall|k: int|
                0 <= k < spans@.len() ==> {
                    &&& (#[trigger] spans@[k]).0 <= spans@[k].1 <= n
                    &&& chars@.subrange(spans@[k].0 as int, spans@[k].1 as int) == found[k]
                },
        decreases n - i,
    {
        let ghost rest = chars@.skip(i as int);
        proof {
            assert(rest.skip(1) =~= chars@.skip(i + 1));
        }
        if is_whitespace(chars[i]) {
            i = i + 1;
        } else {
            let start = i;
            while i < n && !is_whitespace(chars[i])
                invariant
                    n == chars@.len(),
                    start <= i <= n,
                    rest == chars@.skip(start as int),
                    word_len(rest) == (i - start) + word_len(chars@.skip(i as int)),
                decreases n - i,
            {
                proof {
                    assert(chars@.skip(i as int).skip(1) =~= chars@.skip(i + 1));
                }
                i = i + 1;
            }
            proof {
                assert(rest.take((i - start) as int) =~= chars@.subrange(start as int, i as int));
                assert(rest.skip((i - start) as int) =~= chars@.skip(i as int));
                assert(found + (seq![rest.take((i - start) as int)] + words(
                    chars@.skip(i as int),
                )) =~= found.push(chars@.subrange(start as int, i as int)) + words(
                    chars@.skip(i as int),
                ));
                found = found.push(chars@.subrange(start as int, i as int));
            }
            spans.push((start, i));
        }
    }
    spans
}

/// The words of `text`, each a slice of it.
pub fn split_whitespace<'a>(text: &'a str) -> (found: Vec<&'a str>)
    ensures
        found@.len() == words(text@).len(),
        forall|k: int| 0 <= k < found@.len() ==> (#[trigger] found@[k])@ == words(text@)[k],
{
    let chars = chars_of(text);
    let spans = word_spans(&chars);
    let mut found: Vec<&'a str> = Vec::new();
    let mut k: usize = 0;
    while k < spans.len()
        invariant
            chars@ == text@,
            k <= spans@.len(),
            spans@.len() == words(text@).len(),
            forall|j: int|
                0 <= j < spans@.len() ==> {
                    &&& (#[trigger] spans@[j]).0 <= spans@[j].1 <= chars@.len()
                    &&& chars@.subrange(spans@[j].0 as int, spans@[j].1 as int) == words(text@)[j]
                },
            found@.len() == k,
            forall|j: int| 0 <= j < k ==> (#[trigger] found@[j])@ == words(text@)[j],
        decreases spans@.len() - k,
    {
        let (from, to) = spans[k];
        found.push(text.substring_char(from, to));
        k = k + 1;
    }
    found
}

/// Whether `word` holds the letters `ID`, one after the other.
pub open spec fn has_id(word: Seq<char>) -> bool {
    exists|i: int| 0 <= i && i + 1 < word.len() && #[trigger] word[i] == 'I' && word[i + 1] == 'D'
}

/// Whether `word` holds the letters `ID`, one after the other.
pub fn contains_id(word: &str) -> (b: bool)
    ensures
        b == has_id(word@),
{
    let chars = chars_of(word);
    let n = chars.len();
    if n < 2 {
        return false;
    }
    let mut i: usize = 0;
    while i < n - 1
        invariant
            chars@ == word@,
            n == chars@.len(),
            n >= 2,
            i <= n - 1,
            forall|j: int| 0 <= j < i ==> !(#[trigger] chars@[j] == 'I' && chars@[j + 1] == 'D'),
        decreases n - i,
    {
        if chars[i] == 'I' && chars[i + 1] == 'D' {
            return true;
        }
        i = i + 1;
    }
    false
}

/// The column that holds the identifiers, counted in words from 0, for a
/// header made of the words `header`: the position just before the last
/// word that holds `ID`. Where no word holds `ID`, or only the first one
/// does, it is column 0.
pub open spec fn id_column(header: Seq<Seq<char>>) -> nat
    decreases header.len(),
{
    if header.len() == 0 {
        0
    } else if has_id(header.last()) {
        if header.len() >= 2 {
            (header.len() - 2) as nat
        } else {
            0
        }
    } else {
        id_column(header.drop_last())
    }
}

/// The column of `header` that holds the identifiers.
pub fn id_column_index(header: &str) -> (column: usize)
    ensures
        column == id_column(words(header@)),
{
    let found = split_whitespace(header);
    let ghost all = words(header@);
    let mut i: usize = found.len();
    proof {
        assert(all.take(i as int) =~= all);
    }
    while i > 0
        invariant
            i <= found@.len(),
            all == words(header@),
            found@.len() == all.len(),
            forall|k: int| 0 <= k < found@.len() ==> (#[trigger] found@[k])@ == all[k],
            id_column(all) == id_column(all.take(i as int)),
        decreases i,
    {
        let ghost prefix = all.take(i as int);
        proof {
            assert(prefix.drop_last() =~= all.take(i - 1));
        }
        i = i - 1;
        if contains_id(found[i]) {
            return if i > 0 {
                i - 1
            } else {
                0
            };
        }
    }
    0
}

/// `words`, one after the other with one blank between each two.
pub open spec fn joined(words: Seq<Seq<char>>) -> Seq<char>
    decreases words.len(),
{
    if words.len() == 0 {
        Seq::empty()
    } else if words.len() == 1 {
        words[0]
    } else {
        joined(words.drop_last()) + seq![' '] + words.last()
    }
}

/// The number of characters of `s` before its first line feed.
pub open spec fn line_len(s: Seq<char>) -> nat
    decreases s.len(),
{
    if s.len() == 0 || s[0] == '\n' {
        0
    } else {
        1 + line_len(s.skip(1))
    }
}

/// `line` without the carriage return at its end, if it has one.
pub open spec fn without_cr(line: Seq<char>) -> Seq<char> {
    if line.len() > 0 && line.last() == '\r' {
        line.drop_last()
    } else {
        line
    }
}

/// The lines of `s`. A line ends with a line feed, or with a carriage
/// return and a line feed, neither of which is part of it; the last line
/// may end with the text instead.
pub open spec fn lines(s: Seq<char>) -> Seq<Seq<char>>
    decreases s.len(),
    via lines_decreases
{
    if s.len() == 0 {
        Seq::empty()
    } else if line_len(s) == s.len() {
        seq![s]
    } else {
        seq![without_cr(s.take(line_len(s) as int))] + lines(s.skip(line_len(s) as int + 1))
    }
}

#[via_fn]
proof fn lines_decreases(s: Seq<char>) {
    lemma_line_len_bound(s);
}

/// A line ends inside the text.
pub proof fn lemma_line_len_bound(s: Seq<char>)
    ensures
        line_len(s) <= s.len(),
        line_len(s) < s.len() ==> s[line_len(s) as int] == '\n',
    decreases s.len(),
{
    if s.len() > 0 && s[0] != '\n' {
        lemma_line_len_bound(s.skip(1));
    }
}

/// Where each line of `chars` starts and where it ends.
fn line_spans(chars: &Vec<char>) -> (spans: Vec<(usize, usize)>)
    ensures
        spans@.len() == lines(chars@).len(),
        forall|k: int|
            0 <= k < spans@.len() ==> {
                &&& (#[trigger] spans@[k]).0 <= spans@[k].1 <= chars@.len()
                &&& chars@.subrange(spans@[k].0 as int, spans@[k].1 as int) == lines(chars@)[k]
            },
{
    let n = chars.len();
    let mut spans: Vec<(usize, usize)> = Vec::new();
    let ghost mut found: Seq<Seq<char>> = Seq::empty();
    let mut i: usize = 0;
    proof {
        assert(chars@.skip(0) =~= chars@);
    }
    while i < n
        invariant
            n == chars@.len(),
            i <= n,
            lines(chars@) == found + lines(chars@.skip(i as int)),
            spans@.len() == found.len(),
            forall|k: int|
                0 <= k < spans@.len() ==> {
                    &&& (#[trigger] spans@[k]).0 <= spans@[k].1 <= n
                    &&& chars@.subrange(spans@[k].0 as int, spans@[k].1 as int) == found[k]
                },
        decreases n - i,
    {
        let ghost rest = chars@.skip(i as int);
        let start = i;
        while i < n && chars[i] != '\n'
            invariant
                n == chars@.len(),
                start <= i <= n,
                rest == chars@.skip(start as int),
                line_len(rest) == (i - start) + line_len(chars@.skip(i as int)),
            decreases n - i,
        {
            proof {
                assert(chars@.skip(i as int).skip(1) =~= chars@.skip(i + 1));
            }
            i = i + 1;
        }
        let ghost len = (i - start) as int;
        if i == n {
            proof {
                found = found.push(rest);
            }
            spans.push((start, i));
        } else {
            let end = if start < i && chars[i - 1] == '\r' {
                i - 1
            } else {
                i
            };
            proof {
                let line = chars@.subrange(start as int, end as int);
                assert(line =~= without_cr(rest.take(len)));
                assert(rest.skip(len + 1) =~= chars@.skip(i + 1));
                assert(found + (seq![line] + lines(chars@.skip(i + 1))) =~= found.push(line)
                    + lines(chars@.skip(i + 1)));
                found = found.push(line);
            }
            spans.push((start, end));
            i = i + 1;
        }
    }
    spans
}

/// The lines of `text`, each a text of its own.
pub fn split_lines(text: &str) -> (found: Vec<String>)
    ensures
        found@.len() == lines(text@).len(),
        forall|k: int| 0 <= k < found@.len() ==> (#[trigger] found@[k])@ == lines(text@)[k],
{
    let chars = chars_of(text);
    let spans = line_spans(&chars);
    let mut found: Vec<String> = Vec::new();
    let mut k: usize = 0;
    while k < spans.len()
        invariant
            chars@ == text@,
            k <= spans@.len(),
            spans@.len() == lines(text@).len(),
            forall|j: int|
                0 <= j < spans@.len() ==> {
                    &&& (#[trigger] spans@[j]).0 <= spans@[j].1 <= chars@.len()
                    &&& chars@.subrange(spans@[j].0 as int, spans@[j].1 as int) == lines(text@)[j]
                },
            found@.len() == k,
            forall|j: int| 0 <= j < k ==> (#[trigger] found@[j])@ == lines(text@)[j],
        decreases spans@.len() - k,
    {
        let (from, to) = spans[k];
        found.push(String::from_str(text.substring_char(from, to)));
        k = k + 1;
    }
    found
}

} // verus!
