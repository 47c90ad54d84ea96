//! Splitting a command line into its whitespace-separated words.

use vstd::prelude::*;
use vstd::std_specs::iter::IteratorSpec;

verus! {

/// Whether `c` is a white-space character of Unicode.
pub open spec fn is_whitespace_spec(c: char) -> bool {
    let n: u32 = c as u32;
    ||| 0x09 <= n <= 0x0D
    ||| n == 0x20
    ||| n == 0x85
    ||| n == 0xA0
    ||| n == 0x1680
    ||| 0x2000 <= n <= 0x200A
    ||| n == 0x2028
    ||| n == 0x2029
    ||| n == 0x202F
    ||| n == 0x205F
    ||| n == 0x3000
}

/// Whether no character of `s` is white space.
pub open spec fn is_solid(s: Seq<char>) -> bool {
    forall|i: int| 0 <= i < s.len() ==> !is_whitespace_spec(#[trigger] s[i])
}

/// The words of `s`: its maximal runs of characters that are not white space,
/// from left to right.
///
/// Defined by what the last character of `s` does to the words before it: white
/// space changes nothing, any other character lengthens the last word when it
/// follows one directly, and otherwise begins a new word.
pub open spec fn words_of(s: Seq<char>) -> Seq<Seq<char>>
    decreases s.len(),
{
    if s.len() == 0 {
        Seq::empty()
    } else {
        let before = words_of(s.drop_last());
        if is_whitespace_spec(s.last()) {
            before
        } else if s.len() >= 2 && !is_whitespace_spec(s[s.len() - 2]) {
            before.drop_last().push(before.last().push(s.last()))
        } else {
            before.push(seq![s.last()])
        }
    }
}

/// A text without characters has no words.
pub proof fn lemma_words_of_empty()
    ensures
        words_of(Seq::<char>::empty()) == Seq::<Seq<char>>::empty(),
{
}

/// A text that ends in a character other than white space has a last word.
pub proof fn lemma_words_of_nonempty(s: Seq<char>)
    requires
        s.len() > 0,
        !is_whitespace_spec(s.last()),
    ensures
        words_of(s).len() > 0,
    decreases s.len(),
{
    if s.len() >= 2 && !is_whitespace_spec(s[s.len() - 2]) {
        lemma_words_of_nonempty(s.drop_last());
    }
}

/// A text without white space that has characters is one word: itself.
pub proof fn lemma_words_of_solid(s: Seq<char>)
    requires
        s.len() > 0,
        is_solid(s),
    ensures
        words_of(s) == seq![s],
    decreases s.len(),
{
    if s.len() == 1 {
        assert(words_of(s.drop_last()) =~= Seq::<Seq<char>>::empty());
        assert(seq![s.last()] =~= s);
    } else {
        let shorter = s.drop_last();
        assert(is_solid(shorter)) by {
            assert forall|i: int| 0 <= i < shorter.len() implies !is_whitespace_spec(
                #[trigger] shorter[i],
            ) by {
                assert(shorter[i] == s[i]);
            }
        }
        lemma_words_of_solid(shorter);
        assert(shorter.push(s.last()) =~= s);
    }
}

/// White space separates: the words of a text with a white-space character
/// somewhere in it are the words before that character, then the words after it.
pub proof fn lemma_words_of_split(before: Seq<char>, white: char, after: Seq<char>)
    requires
        is_whitespace_spec(white),
    ensures
        words_of(before.push(white) + after) == words_of(before) + words_of(after),
    decreases after.len(),
{
    let whole = before.push(white) + after;
    if after.len() == 0 {
        assert(whole.drop_last() =~= before);
    } else {
        // The last character of the whole is that of `after`, and the one before
        // it is either in `after` too or the white space between the halves.
        assert(whole.drop_last() =~= before.push(white) + after.drop_last());
        lemma_words_of_split(before, white, after.drop_last());
        if after.len() >= 2 && !is_whitespace_spec(after[after.len() - 2]) {
            lemma_words_of_nonempty(after.drop_last());
        }
    }
}

/// Every word has at least one character, and none of them is white space.
pub proof fn lemma_words_are_solid(s: Seq<char>)
    ensures
        forall|i: int|
            0 <= i < words_of(s).len() ==> (#[trigger] words_of(s)[i]).len() > 0 && is_solid(
                words_of(s)[i],
            ),
    decreases s.len(),
{
    if s.len() > 0 {
        lemma_words_are_solid(s.drop_last());
        if !is_whitespace_spec(s.last()) && s.len() >= 2 && !is_whitespace_spec(s[s.len() - 2]) {
            lemma_words_of_nonempty(s.drop_last());
        }
    }
}

/// The text made of `words` with one space between each two of them.
pub open spec fn joined(words: Seq<Seq<char>>) -> Seq<char>
    decreases words.len(),
{
    if words.len() == 0 {
        Seq::empty()
    } else if words.len() == 1 {
        words[0]
    } else {
        words[0].push(' ') + joined(words.drop_first())
    }
}

/// Splitting undoes joining: words that are put together with spaces between
/// them come apart as the same words.
pub proof fn lemma_words_of_joined(words: Seq<Seq<char>>)
    requires
        forall|i: int|
            0 <= i < words.len() ==> (#[trigger] words[i]).len() > 0 && is_solid(words[i]),
    ensures
        words_of(joined(words)) == words,
    decreases words.len(),
{
    if words.len() == 1 {
        lemma_words_of_solid(words[0]);
    } else if words.len() > 1 {
        let rest = words.drop_first();
        assert forall|i: int| 0 <= i < rest.len() implies (#[trigger] rest[i]).len() > 0
            && is_solid(rest[i]) by {
            assert(rest[i] == words[i + 1]);
        }
        lemma_words_of_joined(rest);
        lemma_words_of_solid(words[0]);
        lemma_words_of_split(words[0], ' ', joined(rest));
        assert(seq![words[0]] + rest =~= words);
    }
}

/// Whether `c` is a white-space character of Unicode.
pub fn is_whitespace(c: char) -> (white: bool)
    ensures
        white == is_whitespace_spec(c),
{
    let n: u32 = c as u32;
    (0x09 <= n && n <= 0x0D) || n == 0x20 || n == 0x85 || n == 0xA0 || n == 0x1680 || (0x2000 <= n
        && n <= 0x200A) || n == 0x2028 || n == 0x2029 || n == 0x202F || n == 0x205F || n == 0x3000
}

/// The words of `text`, each as a string of its own, in the order in which
/// they stand in `text`.
pub fn split_whitespace(text: &str) -> (words: Vec<String>)
    ensures
        words.deep_view() == words_of(text@),
{
    let total: usize = text.unicode_len();
    let mut words: Vec<String> = Vec::new();
    let mut chars = text.chars();
    let mut seen: usize = 0;
    let mut start: Option<usize> = None;
    loop
        invariant
            total == text@.len(),
            seen <= total,
            chars.remaining() == text@.skip(seen as int),
            match start {
                Some(begin) => {
                    &&& begin < seen
                    &&& !is_whitespace_spec(text@[seen - 1])
                    &&& words_of(text@.take(seen as int)) == words.deep_view().push(
                        text@.subrange(begin as int, seen as int),
                    )
                },
                None => {
                    &&& seen > 0 ==> is_whitespace_spec(text@[seen - 1])
                    &&& words_of(text@.take(seen as int)) == words.deep_view()
                },
            },
        ensures
            seen == total,
        decreases total - seen,
    {
        match chars.next() {
            None => {
                break ;
            },
            Some(c) => {
                assert(text@.take(seen + 1).drop_last() =~= text@.take(seen as int));
                if is_whitespace(c) {
                    if let Some(begin) = start {
                        words.push(text.substring_char(begin, seen).to_owned());
                        start = None;
                    }
                } else {
                    match start {
                        Some(begin) => {
                            assert(text@.subrange(begin as int, seen + 1) =~= text@.subrange(
                                begin as int,
                                seen as int,
                            ).push(c));
                        },
                        None => {
                            start = Some(seen);
                            assert(text@.subrange(seen as int, seen + 1) =~= seq![c]);
                        },
                    }
                }
                seen = seen + 1;
            },
        }
    }
    if let Some(begin) = start {
        words.push(text.substring_char(begin, seen).to_owned());
    }
    assert(text@.take(seen as int) =~= text@);
    words
}

} // verus!
