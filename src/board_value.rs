//! The value shown in one cell of the board, its text and its parsing.
use vstd::prelude::*;

verus! {

/// Defines the possible values of a cell on the board.
#[derive(Clone, Copy, Debug, PartialEq, Eq, Structural)]
pub enum BoardValue {
    /// An unopened cell, waiting for interaction
    Closed,
    /// A cell which has been flagged as a possible mine
    Flag,
    /// A cell which has been opened and contains a mine
    Mine,
    /// An opened cell indicating how many of its neighbors are mines
    Open(usize),
    /// A cell whose interaction is pending
    Pending,
}

/// The types of errors that can happen when converting text into a `BoardValue`.
#[derive(Clone, Copy, Debug, PartialEq, Eq, Structural)]
pub enum BoardValueConvertError {
    /// Tried to parse as a count of neighbor mines but failed
    ExpectedNeighborCount,
}

/// The decimal digit character for `d < 10`.
pub open spec fn digit_char(d: nat) -> char {
    seq!['0', '1', '2', '3', '4', '5', '6', '7', '8', '9'][d as int]
}

pub open spec fn is_digit(c: char) -> bool {
    '0' <= c && c <= '9'
}

pub open spec fn digit_value(c: char) -> nat {
    (c as u32 - '0' as u32) as nat
}

/// The decimal text of `n`, most significant digit first, without leading zeros.
pub open spec fn decimal_text(n: nat) -> Seq<char>
    decreases n,
{
    if n < 10 {
        seq![digit_char(n)]
    } else {
        decimal_text(n / 10).push(digit_char(n % 10))
    }
}

pub open spec fn all_digits(s: Seq<char>) -> bool {
    forall|i: int| 0 <= i < s.len() ==> is_digit(#[trigger] s[i])
}

/// The number that a run of decimal digits stands for.
pub open spec fn digits_value(s: Seq<char>) -> nat
    decreases s.len(),
{
    if s.len() == 0 {
        0
    } else {
        digits_value(s.drop_last()) * 10 + digit_value(s.last())
    }
}

/// A neighbor count as unsigned decimal text: an optional `+`, then one or more
/// digits whose value fits in a `usize`.
pub open spec fn count_of_text(s: Seq<char>) -> Option<usize> {
    let digits = if s.len() > 0 && s[0] == '+' {
        s.drop_first()
    } else {
        s
    };
    if digits.len() > 0 && all_digits(digits) && digits_value(digits) <= usize::MAX {
        Some(digits_value(digits) as usize)
    } else {
        None
    }
}

/// The text displayed for a cell.
pub open spec fn display_text(v: BoardValue) -> Seq<char> {
    match v {
        BoardValue::Closed => seq![' '],
        BoardValue::Flag => seq!['F'],
        BoardValue::Mine => seq!['M'],
        BoardValue::Open(n) => decimal_text(n as nat),
        BoardValue::Pending => seq!['*'],
    }
}

/// The cell value that a cell code stands for.
pub open spec fn value_of_text(s: Seq<char>) -> Result<BoardValue, BoardValueConvertError> {
    if s.len() == 0 || s == seq![' '] {
        Ok(BoardValue::Closed)
    } else if s == seq!['M'] {
        Ok(BoardValue::Mine)
    } else if s == seq!['F'] {
        Ok(BoardValue::Flag)
    } else if s == seq!['*'] {
        Ok(BoardValue::Pending)
    } else {
        match count_of_text(s) {
            Some(n) => Ok(BoardValue::Open(n)),
            None => Err(BoardValueConvertError::ExpectedNeighborCount),
        }
    }
}

/// Appends the one-character text of a decimal digit.
fn append_digit(s: &mut String, d: usize)
    requires
        d < 10,
    ensures
        final(s)@ == old(s)@.push(digit_char(d as nat)),
{
    proof {
        reveal_strlit("0");
        reveal_strlit("1");
        reveal_strlit("2");
        reveal_strlit("3");
        reveal_strlit("4");
        reveal_strlit("5");
        reveal_strlit("6");
        reveal_strlit("7");
        reveal_strlit("8");
        reveal_strlit("9");
    }
    let t = match d {
        0 => "0",
        1 => "1",
        2 => "2",
        3 => "3",
        4 => "4",
        5 => "5",
        6 => "6",
        7 => "7",
        8 => "8",
        _ => "9",
    };
    s.append(t);
    assert(final(s)@ =~= old(s)@.push(digit_char(d as nat)));
}

/// Appends the decimal text of `n`.
pub(crate) fn append_decimal(s: &mut String, n: usize)
    ensures
        final(s)@ == old(s)@ + decimal_text(n as nat),
    decreases n,
{
    if n >= 10 {
        append_decimal(s, n / 10);
    }
    append_digit(s, n % 10);
    assert(final(s)@ =~= old(s)@ + decimal_text(n as nat));
}

impl BoardValue {
    /// The text displayed for this value: `" "`, `"F"`, `"M"`, the neighbor
    /// count in decimal, or `"*"`.
    pub fn to_display_text(&self) -> (r: String)
        ensures
            r@ == display_text(*self),
    {
        proof {
            reveal_strlit(" ");
            reveal_strlit("F");
            reveal_strlit("M");
            reveal_strlit("*");
        }
        match self {
            BoardValue::Closed => String::from_str(" "),
            BoardValue::Flag => String::from_str("F"),
            BoardValue::Mine => String::from_str("M"),
            BoardValue::Open(n) => {
                let mut s = String::new();
                append_decimal(&mut s, *n);
                assert(s@ =~= display_text(*self));
                s
            },
            BoardValue::Pending => String::from_str("*"),
        }
    }
}


proof fn lemma_digits_value_prefix(t: Seq<char>, k: int)
    requires
        0 <= k <= t.len(),
    ensures
        digits_value(t.subrange(0, k)) <= digits_value(t),
    decreases t.len(),
{
    if k == t.len() {
        assert(t.subrange(0, k) =~= t);
    } else {
        lemma_digits_value_prefix(t.drop_last(), k);
        assert(t.drop_last().subrange(0, k) =~= t.subrange(0, k));
    }
}

/// Reads a neighbor count: an optional `+`, then decimal digits that fit in a
/// `usize`.
fn count_of_str(value: &str, n: usize) -> (r: Option<usize>)
    requires
        n == value@.len(),
    ensures
        r == count_of_text(value@),
{
    let start: usize = if n > 0 && value.get_char(0) == '+' {
        1
    } else {
        0
    };
    let ghost digits = value@.subrange(start as int, n as int);
    assert(digits =~= if value@.len() > 0 && value@[0] == '+' {
        value@.drop_first()
    } else {
        value@
    });
    if start == n {
        return None;
    }
    let mut acc: usize = 0;
    let mut i: usize = start;
    while i < n
        invariant
            start <= i <= n,
            n == value@.len(),
            digits == value@.subrange(start as int, n as int),
            digits == if value@.len() > 0 && value@[0] == '+' {
                value@.drop_first()
            } else {
                value@
            },
            start < n,
            all_digits(value@.subrange(start as int, i as int)),
            acc as nat == digits_value(value@.subrange(start as int, i as int)),
        decreases n - i,
    {
        let c = value.get_char(i);
        if !('0' <= c && c <= '9') {
            assert(digits[i - start] == c);
            assert(!is_digit(digits[i - start]));
            return None;
        }
        let d = (c as u32 - '0' as u32) as usize;
        let ghost next = value@.subrange(start as int, i + 1);
        assert(next.drop_last() =~= value@.subrange(start as int, i as int));
        assert(digits_value(next) == acc * 10 + d);
        if acc > (usize::MAX - d) / 10 {
            assert(acc * 10 + d > usize::MAX) by (nonlinear_arith)
                requires
                    acc > (usize::MAX - d) / 10,
                    d < 10,
            ;
            proof {
                assert(digits.subrange(0, i + 1 - start) =~= next);
                lemma_digits_value_prefix(digits, i + 1 - start);
            }
            return None;
        }
        assert(acc * 10 + d <= usize::MAX) by (nonlinear_arith)
            requires
                acc <= (usize::MAX - d) / 10,
                d < 10,
        ;
        acc = acc * 10 + d;
        i = i + 1;
    }
    assert(value@.subrange(start as int, i as int) =~= digits);
    Some(acc)
}

impl BoardValue {
    /// Reads a cell code: `""` or `" "` is `Closed`, `"M"` is `Mine`, `"F"` is
    /// `Flag`, `"*"` is `Pending`, and a neighbor count is `Open`; any other text
    /// is refused.
    pub fn parse(value: &str) -> (r: Result<BoardValue, BoardValueConvertError>)
        ensures
            r == value_of_text(value@),
    {
        let n = value.unicode_len();
        if n == 0 {
            return Ok(BoardValue::Closed);
        }
        if n == 1 {
            let c = value.get_char(0);
            assert(value@ =~= seq![c]);
            if c == ' ' {
                return Ok(BoardValue::Closed);
            } else if c == 'M' {
                return Ok(BoardValue::Mine);
            } else if c == 'F' {
                return Ok(BoardValue::Flag);
            } else if c == '*' {
                return Ok(BoardValue::Pending);
            }
        } else {
            assert(value@ != seq![' '] && value@ != seq!['M'] && value@ != seq!['F']
                && value@ != seq!['*']) by {
                assert(seq![' '].len() == 1);
            }
        }
        match count_of_str(value, n) {
            Some(count) => Ok(BoardValue::Open(count)),
            None => Err(BoardValueConvertError::ExpectedNeighborCount),
        }
    }
}

impl core::str::FromStr for BoardValue {
    type Err = BoardValueConvertError;

    fn from_str(value: &str) -> Result<BoardValue, BoardValueConvertError> {
        BoardValue::parse(value)
    }
}

proof fn lemma_digit_char(d: nat)
    requires
        d < 10,
    ensures
        is_digit(digit_char(d)),
        digit_value(digit_char(d)) == d,
{
    reveal_with_fuel(digit_char, 1);
    assert(d == 0 || d == 1 || d == 2 || d == 3 || d == 4 || d == 5 || d == 6 || d == 7 || d == 8
        || d == 9);
}

proof fn lemma_decimal_text(n: nat)
    ensures
        decimal_text(n).len() >= 1,
        all_digits(decimal_text(n)),
        digits_value(decimal_text(n)) == n,
    decreases n,
{
    if n < 10 {
        lemma_digit_char(n);
        assert(decimal_text(n).drop_last() =~= Seq::<char>::empty());
        assert(digits_value(Seq::<char>::empty()) == 0);
    } else {
        lemma_decimal_text(n / 10);
        lemma_digit_char(n % 10);
        assert(decimal_text(n).drop_last() =~= decimal_text(n / 10));
        assert((n / 10) * 10 + n % 10 == n) by (nonlinear_arith);
    }
}

/// Reading back the displayed text of any cell value gives that value again.
/// (A `Pending` cell is never sent over the wire, but its text `"*"` reads back
/// as `Pending` all the same.)
pub proof fn lemma_parse_display_round_trip(v: BoardValue)
    ensures
        value_of_text(display_text(v)) == Ok::<BoardValue, BoardValueConvertError>(v),
{
    if let BoardValue::Open(n) = v {
        let t = decimal_text(n as nat);
        lemma_decimal_text(n as nat);
        assert(is_digit(t[0]));
        assert(t.len() != 0);
        assert(t != seq![' '] && t != seq!['M'] && t != seq!['F'] && t != seq!['*']) by {
            if t.len() == 1 {
                assert(seq![' '][0] == ' ');
                assert(seq!['M'][0] == 'M');
                assert(seq!['F'][0] == 'F');
                assert(seq!['*'][0] == '*');
            }
        }
        assert(count_of_text(t) == Some(n));
    } else {
        assert(display_text(v).len() == 1);
    }
}

} // verus!
