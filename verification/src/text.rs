//! Text utilities over character sequences: splitting on a separator,
//! tokenising, and reading unsigned decimal numbers.
use vstd::prelude::*;
use vstd::string::*;

verus! {

/// The views of a sequence of strings.
pub open spec fn views(v: Seq<String>) -> Seq<Seq<char>> {
    Seq::new(v.len(), |i: int| v[i]@)
}

/// The text of an optional string.
pub open spec fn text_of(t: Option<&str>) -> Option<Seq<char>> {
    match t {
        Some(s) => Some(s@),
        None => None,
    }
}

/// Whether `c` is white space: a space, a tab, a line feed or a carriage
/// return.
pub open spec fn is_space(c: char) -> bool {
    c == ' ' || c == '\t' || c == '\n' || c == '\r'
}

/// What a text is split at.
#[derive(Debug, Clone, Copy, PartialEq, Eq, Structural)]
pub enum Separator {
    /// Every occurrence of the character.
    Char(char),
    /// Every white-space character.
    Whitespace,
}

impl Separator {
    /// Whether the text is split at `c`.
    pub open spec fn matches(self, c: char) -> bool {
        match self {
            Separator::Char(sep) => c == sep,
            Separator::Whitespace => is_space(c),
        }
    }

    /// Whether the text is split at `c`.
    pub fn is_match(&self, c: char) -> (r: bool)
        ensures
            r == self.matches(c),
    {
        match self {
            Separator::Char(sep) => c == *sep,
            Separator::Whitespace => c == ' ' || c == '\t' || c == '\n' || c == '\r',
        }
    }
}

/// The pieces of `s` that lie between its separators. There is always one
/// piece more than there are separators, so the empty text has one empty
/// piece.
pub open spec fn split_on(s: Seq<char>, sep: Separator) -> Seq<Seq<char>>
    decreases s.len(),
{
    if s.len() == 0 {
        seq![Seq::<char>::empty()]
    } else {
        let before = split_on(s.drop_last(), sep);
        if sep.matches(s.last()) {
            before.push(Seq::<char>::empty())
        } else {
            before.drop_last().push(before.last().push(s.last()))
        }
    }
}

/// A split never yields an empty list of pieces.
pub proof fn lemma_split_on_nonempty(s: Seq<char>, sep: Separator)
    ensures
        split_on(s, sep).len() >= 1,
    decreases s.len(),
{
    if s.len() > 0 {
        lemma_split_on_nonempty(s.drop_last(), sep);
    }
}

/// No piece of a split holds a separator.
pub proof fn lemma_split_on_pieces(s: Seq<char>, sep: Separator)
    ensures
        forall|i: int, j: int|
            0 <= i < split_on(s, sep).len() && 0 <= j < split_on(s, sep)[i].len() ==> !sep.matches(
                #[trigger] split_on(s, sep)[i][j],
            ),
    decreases s.len(),
{
    if s.len() > 0 {
        lemma_split_on_pieces(s.drop_last(), sep);
        lemma_split_on_nonempty(s.drop_last(), sep);
    }
}

/// Splits `s` at every separator.
pub fn split(s: &str, sep: Separator) -> (pieces: Vec<String>)
    ensures
        views(pieces@) == split_on(s@, sep),
{
    let n: usize = s.unicode_len();
    let mut pieces: Vec<String> = Vec::new();
    let mut start: usize = 0;
    let mut i: usize = 0;
    proof {
        assert(s@.take(0).len() == 0);
        assert(s@.subrange(0, 0) =~= Seq::<char>::empty());
        assert(views(pieces@).push(s@.subrange(0, 0)) =~= seq![Seq::<char>::empty()]);
    }
    while i < n
        invariant
            n == s@.len(),
            start <= i <= n,
            views(pieces@).push(s@.subrange(start as int, i as int)) == split_on(
                s@.take(i as int),
                sep,
            ),
        decreases n - i,
    {
        let c = s.get_char(i);
        let ghost before = views(pieces@);
        let ghost open_piece = s@.subrange(start as int, i as int);
        proof {
            assert(s@.take(i + 1).drop_last() =~= s@.take(i as int));
            assert(s@.take(i + 1).last() == s@[i as int]);
            assert(before.push(open_piece).drop_last() =~= before);
            assert(before.push(open_piece).last() == open_piece);
        }
        if sep.is_match(c) {
            let piece = String::from_str(s.substring_char(start, i));
            pieces.push(piece);
            start = i + 1;
            proof {
                assert(views(pieces@) =~= before.push(open_piece));
                assert(s@.subrange(start as int, i + 1) =~= Seq::<char>::empty());
            }
        } else {
            proof {
                assert(s@.subrange(start as int, i + 1) =~= open_piece.push(s@[i as int]));
            }
        }
        i = i + 1;
    }
    let ghost before = views(pieces@);
    let last = String::from_str(s.substring_char(start, n));
    pieces.push(last);
    proof {
        assert(s@.take(n as int) =~= s@);
        assert(views(pieces@) =~= before.push(s@.subrange(start as int, n as int)));
    }
    pieces
}

/// The pieces that are not empty, in their order.
pub open spec fn keep_tokens(pieces: Seq<Seq<char>>) -> Seq<Seq<char>>
    decreases pieces.len(),
{
    if pieces.len() == 0 {
        Seq::<Seq<char>>::empty()
    } else if pieces.last().len() > 0 {
        keep_tokens(pieces.drop_last()).push(pieces.last())
    } else {
        keep_tokens(pieces.drop_last())
    }
}

/// The tokens of a line: its pieces between white space, without the empty
/// ones.
pub open spec fn tokens_of(line: Seq<char>) -> Seq<Seq<char>> {
    keep_tokens(split_on(line, Separator::Whitespace))
}

/// Whether a text holds no white space.
pub open spec fn space_free(t: Seq<char>) -> bool {
    forall|i: int| 0 <= i < t.len() ==> !is_space(#[trigger] t[i])
}

/// Whether a text is one word: not empty, and without white space.
pub open spec fn is_word(t: Seq<char>) -> bool {
    t.len() > 0 && space_free(t)
}

/// Every token of a line is a word.
pub proof fn lemma_tokens_of(line: Seq<char>)
    ensures
        forall|i: int| 0 <= i < tokens_of(line).len() ==> is_word(#[trigger] tokens_of(line)[i]),
{
    let pieces = split_on(line, Separator::Whitespace);
    lemma_split_on_pieces(line, Separator::Whitespace);
    assert forall|i: int| 0 <= i < pieces.len() implies space_free(#[trigger] pieces[i]) by {
        assert forall|j: int| 0 <= j < pieces[i].len() implies !is_space(#[trigger] pieces[i][j]) by {
            assert(!Separator::Whitespace.matches(split_on(line, Separator::Whitespace)[i][j]));
        }
    }
    lemma_keep_tokens(pieces);
}

/// Where no piece holds white space, every kept piece is a word.
pub proof fn lemma_keep_tokens(pieces: Seq<Seq<char>>)
    requires
        forall|i: int| 0 <= i < pieces.len() ==> space_free(#[trigger] pieces[i]),
    ensures
        forall|i: int|
            0 <= i < keep_tokens(pieces).len() ==> is_word(#[trigger] keep_tokens(pieces)[i]),
    decreases pieces.len(),
{
    if pieces.len() > 0 {
        assert forall|i: int| 0 <= i < pieces.drop_last().len() implies space_free(
            #[trigger] pieces.drop_last()[i],
        ) by {
            assert(pieces.drop_last()[i] == pieces[i]);
        }
        assert(space_free(pieces[pieces.len() - 1]));
        lemma_keep_tokens(pieces.drop_last());
        let kept = keep_tokens(pieces);
        let before = keep_tokens(pieces.drop_last());
        assert forall|i: int| 0 <= i < kept.len() implies is_word(#[trigger] kept[i]) by {
            if i < before.len() {
                assert(kept[i] == before[i]);
            }
        }
    } else {
        assert(keep_tokens(pieces).len() == 0);
    }
}

/// Tokenises a line at white space.
pub fn tokens(line: &str) -> (toks: Vec<String>)
    ensures
        views(toks@) == tokens_of(line@),
{
    let pieces = split(line, Separator::Whitespace);
    let mut toks: Vec<String> = Vec::new();
    let mut i: usize = 0;
    assert(views(pieces@).take(0) =~= Seq::<Seq<char>>::empty());
    assert(views(toks@) =~= Seq::<Seq<char>>::empty());
    while i < pieces.len()
        invariant
            i <= pieces.len(),
            views(toks@) == keep_tokens(views(pieces@).take(i as int)),
        decreases pieces.len() - i,
    {
        let piece = &pieces[i];
        let len: usize = piece.as_str().unicode_len();
        let ghost before = views(toks@);
        proof {
            assert(views(pieces@).take(i + 1).drop_last() =~= views(pieces@).take(i as int));
            assert(views(pieces@).take(i + 1).last() == piece@);
        }
        if len > 0 {
            toks.push(piece.clone());
            assert(views(toks@) =~= before.push(piece@));
        }
        i = i + 1;
    }
    assert(views(pieces@).take(pieces.len() as int) =~= views(pieces@));
    toks
}

/// Whether `c` is a decimal digit.
pub open spec fn is_digit(c: char) -> bool {
    '0' <= c && c <= '9'
}

/// The number that a decimal digit stands for.
pub open spec fn digit_value(c: char) -> nat {
    (c as u32 - '0' as u32) as nat
}

/// Whether every character of `s` is a decimal digit.
pub open spec fn all_digits(s: Seq<char>) -> bool {
    forall|i: int| 0 <= i < s.len() ==> is_digit(#[trigger] s[i])
}

/// The number that a string of decimal digits stands for.
pub open spec fn decimal_value(s: Seq<char>) -> nat
    decreases s.len(),
{
    if s.len() == 0 {
        0
    } else {
        decimal_value(s.drop_last()) * 10 + digit_value(s.last())
    }
}

/// The digits of a numeral: the text without one leading plus sign.
pub open spec fn unsigned_digits(s: Seq<char>) -> Seq<char> {
    if s.len() > 0 && s[0] == '+' {
        s.skip(1)
    } else {
        s
    }
}

/// The unsigned 64-bit number that `s` denotes in decimal, if it denotes one:
/// an optional plus sign, then at least one digit and nothing else, with a
/// value that fits.
pub open spec fn parse_decimal(s: Seq<char>) -> Option<u64> {
    let digits = unsigned_digits(s);
    if digits.len() > 0 && all_digits(digits) && decimal_value(digits) <= u64::MAX {
        Some(decimal_value(digits) as u64)
    } else {
        None
    }
}

/// The value of a prefix never exceeds the value of the whole.
pub proof fn lemma_decimal_prefix(s: Seq<char>, k: int)
    requires
        0 <= k <= s.len(),
    ensures
        decimal_value(s.take(k)) <= decimal_value(s),
    decreases s.len(),
{
    if k == s.len() {
        assert(s.take(k) =~= s);
    } else {
        lemma_decimal_prefix(s.drop_last(), k);
        assert(s.drop_last().take(k) =~= s.take(k));
    }
}

/// Reads an unsigned decimal number.
pub fn parse_u64(s: &str) -> (r: Option<u64>)
    ensures
        r == parse_decimal(s@),
{
    let n: usize = s.unicode_len();
    let mut i: usize = 0;
    if n > 0 && s.get_char(0) == '+' {
        i = 1;
    }
    let first: usize = i;
    let ghost digits = unsigned_digits(s@);
    if i >= n {
        return None;
    }
    let mut acc: u64 = 0;
    assert(digits.take(0) =~= Seq::<char>::empty());
    while i < n
        invariant
            n == s@.len(),
            first <= i <= n,
            first <= 1,
            digits == unsigned_digits(s@),
            digits.len() == n - first,
            forall|j: int| 0 <= j < digits.len() ==> digits[j] == s@[j + first],
            all_digits(digits.take(i - first)),
            acc == decimal_value(digits.take(i - first)),
        decreases n - i,
    {
        let c = s.get_char(i);
        let ghost k = i - first;
        proof {
            assert(digits.take(k + 1).drop_last() =~= digits.take(k));
            assert(digits.take(k + 1).last() == c);
        }
        if !(c >= '0' && c <= '9') {
            assert(!is_digit(digits[k]));
            return None;
        }
        let d: u64 = (c as u32 - '0' as u32) as u64;
        if acc > (u64::MAX - d) / 10 {
            proof {
                assert(acc * 10 + d > u64::MAX);
                lemma_decimal_prefix(digits, k + 1);
            }
            return None;
        }
        acc = acc * 10 + d;
        i = i + 1;
        proof {
            assert forall|j: int| 0 <= j < digits.take(i - first).len() implies is_digit(
                #[trigger] digits.take(i - first)[j],
            ) by {
                if j < k {
                    assert(digits.take(k)[j] == digits[j]);
                }
            }
        }
    }
    proof {
        assert(digits.take(n - first) =~= digits);
    }
    Some(acc)
}

} // verus!
