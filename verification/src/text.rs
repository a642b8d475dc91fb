//! The mathematical model of protocol text, and the verified text primitives
//! the rest of the crate is built from: splitting on ASCII whitespace, joining
//! with single spaces, and decimal numerals.

use vstd::prelude::*;
use vstd::string::*;

verus! {

/// The five characters that separate the tokens of a line: space, horizontal
/// tab, line feed, form feed and carriage return.
pub open spec fn is_ascii_whitespace(c: char) -> bool {
    c == ' ' || c == '\t' || c == '\n' || c == '\x0C' || c == '\r'
}

/// An upper-case letter of the ASCII alphabet.
pub open spec fn is_upper_case(c: char) -> bool {
    'A' <= c <= 'Z'
}

/// Some character of `s` is an upper-case letter.
pub open spec fn has_upper_case(s: Seq<char>) -> bool {
    exists|i: int| 0 <= i < s.len() && is_upper_case(#[trigger] s[i])
}

/// No character of `s` is whitespace.
pub open spec fn is_solid(s: Seq<char>) -> bool {
    forall|i: int| 0 <= i < s.len() ==> !is_ascii_whitespace(#[trigger] s[i])
}

/// Every character of `s` is whitespace.
pub open spec fn is_blank(s: Seq<char>) -> bool {
    forall|i: int| 0 <= i < s.len() ==> is_ascii_whitespace(#[trigger] s[i])
}

/// A word: at least one character, none of them whitespace.
pub open spec fn is_word(s: Seq<char>) -> bool {
    s.len() > 0 && is_solid(s)
}

/// What may follow a word without running into it: nothing, or a text that
/// begins with whitespace.
pub open spec fn is_tail(s: Seq<char>) -> bool {
    s.len() == 0 || is_ascii_whitespace(s[0])
}

/// The length of the longest whitespace-free prefix of `s`.
pub open spec fn word_len(s: Seq<char>) -> nat
    decreases s.len(),
{
    if s.len() > 0 && !is_ascii_whitespace(s[0]) {
        1 + word_len(s.drop_first())
    } else {
        0
    }
}

/// The tokens of a line: its maximal whitespace-free runs, from left to right.
pub open spec fn tokens(s: Seq<char>) -> Seq<Seq<char>>
    decreases s.len(),
{
    if s.len() == 0 {
        Seq::empty()
    } else if is_ascii_whitespace(s[0]) {
        tokens(s.drop_first())
    } else {
        let n = word_len(s);
        proof {
            lemma_word_len_bound(s);
        }
        seq![s.take(n as int)] + tokens(s.skip(n as int))
    }
}

/// The words joined by single spaces; the empty text for no words.
pub open spec fn join_with_space(words: Seq<Seq<char>>) -> Seq<char>
    decreases words.len(),
{
    if words.len() == 0 {
        Seq::empty()
    } else if words.len() == 1 {
        words[0]
    } else {
        words[0] + seq![' '] + join_with_space(words.drop_first())
    }
}

/// The words laid out between the given gaps: the first gap, the first
/// word, the second gap, and so on to the last word and the last gap.
pub open spec fn spaced(words: Seq<Seq<char>>, gaps: Seq<Seq<char>>) -> Seq<char>
    recommends
        gaps.len() == words.len() + 1,
    decreases words.len(),
{
    if words.len() == 0 {
        gaps[0]
    } else {
        gaps[0] + words[0] + spaced(words.drop_first(), gaps.drop_first())
    }
}

/// The gaps can separate the words: there is one gap before each word and
/// one after the last, every gap is whitespace only, and a gap between two
/// words is not empty.
pub open spec fn is_spacing(words: Seq<Seq<char>>, gaps: Seq<Seq<char>>) -> bool {
    &&& gaps.len() == words.len() + 1
    &&& forall|i: int| 0 <= i < gaps.len() ==> is_blank(#[trigger] gaps[i])
    &&& forall|i: int| 0 < i < words.len() ==> (#[trigger] gaps[i]).len() > 0
}

/// The text is what joining words with single spaces gives: it neither
/// begins nor ends with whitespace, its only whitespace character is the
/// space, and no two spaces are adjacent.
pub open spec fn is_single_spaced(s: Seq<char>) -> bool {
    &&& s.len() > 0 ==> !is_ascii_whitespace(s[0]) && !is_ascii_whitespace(s[s.len() - 1])
    &&& forall|i: int| 0 <= i < s.len() && is_ascii_whitespace(#[trigger] s[i]) ==> s[i] == ' '
    &&& forall|i: int|
        0 <= i < s.len() - 1 && is_ascii_whitespace(#[trigger] s[i]) ==> !is_ascii_whitespace(
            s[i + 1],
        )
}

/// The character of a decimal digit.
pub open spec fn digit_char(d: nat) -> char
    recommends
        d < 10,
{
    if d == 0 {
        '0'
    } else if d == 1 {
        '1'
    } else if d == 2 {
        '2'
    } else if d == 3 {
        '3'
    } else if d == 4 {
        '4'
    } else if d == 5 {
        '5'
    } else if d == 6 {
        '6'
    } else if d == 7 {
        '7'
    } else if d == 8 {
        '8'
    } else {
        '9'
    }
}

/// The decimal numeral of `n`: most significant digit first, no leading
/// zero except for zero itself.
pub open spec fn decimal(n: nat) -> Seq<char>
    decreases n,
{
    if n < 10 {
        seq![digit_char(n)]
    } else {
        decimal(n / 10).push(digit_char(n % 10))
    }
}

/// The number that a decimal digit stands for.
pub open spec fn digit_value(c: char) -> nat
    recommends
        '0' <= c <= '9',
{
    if c == '0' {
        0
    } else if c == '1' {
        1
    } else if c == '2' {
        2
    } else if c == '3' {
        3
    } else if c == '4' {
        4
    } else if c == '5' {
        5
    } else if c == '6' {
        6
    } else if c == '7' {
        7
    } else if c == '8' {
        8
    } else {
        9
    }
}

/// The number that a text of decimal digits stands for.
pub open spec fn numeral_value(s: Seq<char>) -> nat
    decreases s.len(),
{
    if s.len() == 0 {
        0
    } else {
        numeral_value(s.drop_last()) * 10 + digit_value(s.last())
    }
}

/// The decimal numeral of an integer: a minus sign before the magnitude of a
/// negative one, no sign otherwise.
pub open spec fn signed_decimal(i: int) -> Seq<char> {
    if i < 0 {
        seq!['-'] + decimal((-i) as nat)
    } else {
        decimal(i as nat)
    }
}

/// The texts that a vector of string slices stands for.
pub open spec fn texts(words: Seq<&str>) -> Seq<Seq<char>> {
    Seq::new(words.len(), |i: int| words[i]@)
}

/// `word_len` never runs past the end.
pub proof fn lemma_word_len_bound(s: Seq<char>)
    ensures
        word_len(s) <= s.len(),
    decreases s.len(),
{
    if s.len() > 0 && !is_ascii_whitespace(s[0]) {
        lemma_word_len_bound(s.drop_first());
    }
}

/// A solid prefix of length `n` that ends the text or is followed by
/// whitespace is exactly the leading word.
pub proof fn lemma_word_len_is(s: Seq<char>, n: int)
    requires
        0 <= n <= s.len(),
        is_solid(s.take(n)),
        n == s.len() || is_ascii_whitespace(s[n]),
    ensures
        word_len(s) == n,
    decreases n,
{
    if n > 0 {
        assert(s.take(n)[0] == s[0]);
        let rest = s.drop_first();
        assert forall|i: int| 0 <= i < n - 1 implies !is_ascii_whitespace(
            #[trigger] rest.take(n - 1)[i],
        ) by {
            assert(rest.take(n - 1)[i] == s.take(n)[i + 1]);
        }
        lemma_word_len_is(rest, n - 1);
    }
}

/// The leading word is whitespace-free, and ends the text or is followed by
/// whitespace.
pub proof fn lemma_word_len_ends(s: Seq<char>)
    ensures
        word_len(s) <= s.len(),
        is_solid(s.take(word_len(s) as int)),
        word_len(s) == s.len() || is_ascii_whitespace(s[word_len(s) as int]),
    decreases s.len(),
{
    if s.len() > 0 && !is_ascii_whitespace(s[0]) {
        let rest = s.drop_first();
        lemma_word_len_ends(rest);
        let n = word_len(s) as int;
        assert forall|i: int| 0 <= i < n implies !is_ascii_whitespace(#[trigger] s.take(n)[i]) by {
            if i > 0 {
                assert(s.take(n)[i] == rest.take(n - 1)[i - 1]);
            }
        }
    }
}

/// Whitespace before a text adds no token.
pub proof fn lemma_tokens_after_blank(blank: Seq<char>, s: Seq<char>)
    requires
        is_blank(blank),
    ensures
        tokens(blank + s) == tokens(s),
    decreases blank.len(),
{
    if blank.len() > 0 {
        assert((blank + s).drop_first() == blank.drop_first() + s);
        lemma_tokens_after_blank(blank.drop_first(), s);
    }
}

/// A word that ends the text, or that whitespace follows, is the first
/// token; the other tokens are those of what follows it.
pub proof fn lemma_tokens_after_word(word: Seq<char>, rest: Seq<char>)
    requires
        is_word(word),
        is_tail(rest),
    ensures
        tokens(word + rest) == seq![word] + tokens(rest),
        tokens(word + rest).len() > 0,
        tokens(word + rest)[0] == word,
{
    let s = word + rest;
    let n = word.len() as int;
    assert(s.take(n) == word);
    assert(s.skip(n) == rest);
    lemma_word_len_is(s, n);
}

/// Two tails make a tail, and it is the same to put them behind a head one
/// after the other or as one.
pub proof fn lemma_tail_of_tails(head: Seq<char>, first: Seq<char>, second: Seq<char>)
    requires
        is_tail(first),
        is_tail(second),
    ensures
        is_tail(first + second),
        head + first + second == head + (first + second),
{
}

/// Every token is a word: it is not empty and holds no whitespace.
pub proof fn lemma_tokens_are_words(s: Seq<char>)
    ensures
        forall|i: int| 0 <= i < tokens(s).len() ==> is_word(#[trigger] tokens(s)[i]),
    decreases s.len(),
{
    if s.len() == 0 {
    } else if is_ascii_whitespace(s[0]) {
        lemma_tokens_are_words(s.drop_first());
        assert(tokens(s) == tokens(s.drop_first()));
    } else {
        let n = word_len(s) as int;
        lemma_word_len_ends(s);
        lemma_tokens_are_words(s.skip(n));
        assert forall|i: int| 0 <= i < tokens(s).len() implies is_word(#[trigger] tokens(s)[i]) by {
            if i > 0 {
                assert(tokens(s)[i] == tokens(s.skip(n))[i - 1]);
            }
        }
    }
}

/// Every character of a text that is not whitespace stands in one of its
/// tokens: the result is the token's index and the character's index in it.
pub proof fn lemma_solid_char_in_token(s: Seq<char>, i: int) -> (at: (int, int))
    requires
        0 <= i < s.len(),
        !is_ascii_whitespace(s[i]),
    ensures
        0 <= at.0 < tokens(s).len(),
        0 <= at.1 < tokens(s)[at.0].len(),
        tokens(s)[at.0][at.1] == s[i],
    decreases s.len(),
{
    if is_ascii_whitespace(s[0]) {
        lemma_solid_char_in_token(s.drop_first(), i - 1)
    } else {
        let n = word_len(s) as int;
        lemma_word_len_ends(s);
        if i < n {
            (0, i)
        } else {
            let at = lemma_solid_char_in_token(s.skip(n), i - n);
            (at.0 + 1, at.1)
        }
    }
}

/// Splitting inverts spacing: however much whitespace separates and
/// surrounds the words, the tokens of the text are the words.
pub proof fn lemma_tokens_of_spaced(words: Seq<Seq<char>>, gaps: Seq<Seq<char>>)
    requires
        is_spacing(words, gaps),
        forall|i: int| 0 <= i < words.len() ==> is_word(#[trigger] words[i]),
    ensures
        tokens(spaced(words, gaps)) == words,
    decreases words.len(),
{
    if words.len() == 0 {
        lemma_tokens_after_blank(gaps[0], Seq::empty());
    } else {
        let later_words = words.drop_first();
        let later_gaps = gaps.drop_first();
        let rest = spaced(later_words, later_gaps);
        lemma_tokens_of_spaced(later_words, later_gaps);
        lemma_tokens_after_word(words[0], rest);
        lemma_tokens_after_blank(gaps[0], words[0] + rest);
        assert(gaps[0] + words[0] + rest == gaps[0] + (words[0] + rest));
    }
}

/// Splitting inverts joining: the tokens of words joined by single spaces
/// are those words.
pub proof fn lemma_tokens_of_join(words: Seq<Seq<char>>)
    requires
        forall|i: int| 0 <= i < words.len() ==> is_word(#[trigger] words[i]),
    ensures
        tokens(join_with_space(words)) == words,
    decreases words.len(),
{
    if words.len() > 0 {
        let later = words.drop_first();
        lemma_tokens_of_join(later);
        if words.len() == 1 {
            lemma_tokens_after_word(words[0], Seq::empty());
        } else {
            let rest = seq![' '] + join_with_space(later);
            lemma_tokens_after_blank(seq![' '], join_with_space(later));
            lemma_tokens_after_word(words[0], rest);
            assert(words[0] + seq![' '] + join_with_space(later) == words[0] + rest);
        }
    }
}

/// Words joined by single spaces make a single-spaced text.
pub proof fn lemma_join_is_single_spaced(words: Seq<Seq<char>>)
    requires
        forall|i: int| 0 <= i < words.len() ==> is_word(#[trigger] words[i]),
    ensures
        is_single_spaced(join_with_space(words)),
        words.len() > 0 ==> join_with_space(words).len() > 0,
    decreases words.len(),
{
    if words.len() >= 2 {
        let later = words.drop_first();
        lemma_join_is_single_spaced(later);
        let first = words[0];
        let tail = join_with_space(later);
        let s = join_with_space(words);
        let n = first.len() as int;
        assert forall|i: int| 0 <= i < s.len() implies s[i] == (if i < n {
            first[i]
        } else if i == n {
            ' '
        } else {
            tail[i - n - 1]
        }) by {}
    }
}

/// Joining inverts splitting on a text that is single-spaced.
pub proof fn lemma_join_of_tokens(s: Seq<char>)
    requires
        is_single_spaced(s),
    ensures
        join_with_space(tokens(s)) == s,
    decreases s.len(),
{
    if s.len() > 0 {
        let n = word_len(s) as int;
        lemma_word_len_ends(s);
        let first = s.take(n);
        if n == s.len() {
            assert(tokens(s) == seq![first] + tokens(s.skip(n)));
        } else {
            let rest = s.skip(n + 1);
            assert(s.skip(n).drop_first() == rest);
            assert(tokens(s.skip(n)) == tokens(rest));
            lemma_join_of_tokens(rest);
            let later = tokens(rest);
            assert(tokens(s).drop_first() == later);
        }
    }
}

/// The decimal numeral of a number is made of digits only, begins with a
/// zero only if the number is zero, and stands for the number.
pub proof fn lemma_decimal_is_numeral(n: nat)
    ensures
        decimal(n).len() > 0,
        forall|i: int| 0 <= i < decimal(n).len() ==> '0' <= #[trigger] decimal(n)[i] <= '9',
        decimal(n)[0] == '0' <==> n == 0,
        n == 0 ==> decimal(n).len() == 1,
        numeral_value(decimal(n)) == n,
    decreases n,
{
    if n < 10 {
        assert(decimal(n).drop_last() == Seq::<char>::empty());
        assert(numeral_value(Seq::<char>::empty()) == 0);
    } else {
        lemma_decimal_is_numeral(n / 10);
        assert(decimal(n).drop_last() == decimal(n / 10));
    }
}

/// Whether the character is ASCII whitespace.
pub fn is_whitespace(c: char) -> (b: bool)
    ensures
        b == is_ascii_whitespace(c),
{
    c == ' ' || c == '\t' || c == '\n' || c == '\x0C' || c == '\r'
}

/// The characters of `s`, in order.
pub fn chars_of(s: &str) -> (chars: Vec<char>)
    ensures
        chars@ == s@,
{
    let mut chars: Vec<char> = Vec::new();
    for c in it: s.chars()
        invariant
            it.seq() == s@,
            chars@ == it.seq().take(it.index()),
    {
        chars.push(c);
    }
    chars
}

/// Splits a line into its tokens. Any run of ASCII whitespace separates two
/// tokens; whitespace at either end yields no token.
pub fn split_ascii_whitespace(s: &str) -> (words: Vec<&str>)
    ensures
        texts(words@) == tokens(s@),
{
    let chars = chars_of(s);
    let n: usize = chars.len();
    let mut words: Vec<&str> = Vec::new();
    let mut i: usize = 0;
    assert(s@.skip(0) == s@);
    while i < n
        invariant
            i <= n,
            n == s@.len(),
            chars@ == s@,
            tokens(s@) == texts(words@) + tokens(s@.skip(i as int)),
        decreases n - i,
    {
        let ghost rest = s@.skip(i as int);
        if is_whitespace(chars[i]) {
            assert(rest.drop_first() == s@.skip(i + 1));
            i += 1;
        } else {
            let start: usize = i;
            while i < n && !is_whitespace(chars[i])
                invariant
                    start <= i <= n,
                    n == s@.len(),
                    chars@ == s@,
                    is_solid(s@.subrange(start as int, i as int)),
                decreases n - i,
            {
                i += 1;
            }
            let word = s.substring_char(start, i);
            proof {
                let len = i - start;
                assert(rest.take(len) == s@.subrange(start as int, i as int));
                assert(rest.skip(len) == s@.skip(i as int));
                lemma_word_len_is(rest, len);
            }
            words.push(word);
        }
    }
    words
}

fn digit_str(d: u8) -> (s: &'static str)
    requires
        d < 10,
    ensures
        s@ == seq![digit_char(d as nat)],
{
    proof {
        reveal_strlit("0");
        reveal_strlit("1");
        reveal_strlit("2");
        reveal_strlit("3");
        reveal_strlit("4");
        reveal_strlit("5");
        reveal_strlit("6");
        reveal_strlit("7");
        reveal_strlit("8");
        reveal_strlit("9");
    }
    let s = if d == 0 {
        "0"
    } else if d == 1 {
        "1"
    } else if d == 2 {
        "2"
    } else if d == 3 {
        "3"
    } else if d == 4 {
        "4"
    } else if d == 5 {
        "5"
    } else if d == 6 {
        "6"
    } else if d == 7 {
        "7"
    } else if d == 8 {
        "8"
    } else {
        "9"
    };
    s
}

/// Appends the decimal numeral of `n` to `out`.
pub fn push_decimal(out: &mut String, n: u128)
    ensures
        final(out)@ == old(out)@ + decimal(n as nat),
    decreases n,
{
    if n >= 10 {
        push_decimal(out, n / 10);
    }
    let d: u8 = (n % 10) as u8;
    out.append(digit_str(d));
}

/// Appends the decimal numeral of `i` to `out`, with a minus sign if `i` is
/// negative.
pub fn push_signed_decimal(out: &mut String, i: i64)
    ensures
        final(out)@ == old(out)@ + signed_decimal(i as int),
{
    if i < 0 {
        proof {
            reveal_strlit("-");
        }
        out.append("-");
        let magnitude: u128 = (-(i as i128)) as u128;
        push_decimal(out, magnitude);
    } else {
        push_decimal(out, i as u128);
    }
}

} // verus!
