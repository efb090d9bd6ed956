//! The board as text, for a terminal: the grid as it is shown, the grid of
//! choices that a player is asked to pick from, and the reading of the
//! answers.
//!
//! Three functions of this module call std and are believed, not proved:
//! `trim_text`, `parse_decimal` and `lowercase_text`. What is claimed of
//! each stands in its contract and above it.

use vstd::prelude::*;
use crate::board::Board;
use crate::cell::Cell;
use crate::rules::spec_legal_move;

verus! {

/// What follows cell `i` in a grid: the end of the line after the last cell
/// of a row, a space after the others.
pub open spec fn spec_separator(i: int) -> char {
    if i % 3 == 2 {
        '\n'
    } else {
        ' '
    }
}

/// The grid as text: three lines, on each the symbols of a row with a space
/// between them. Cell `i` stands at position `2 * i`, what follows it at
/// position `2 * i + 1`.
pub open spec fn spec_render(cells: Seq<Cell>) -> Seq<char> {
    Seq::new(
        18,
        |k: int|
            if k % 2 == 0 {
                cells[k / 2].spec_symbol()
            } else {
                spec_separator(k / 2)
            },
    )
}

/// The decimal digit for `i`, for `0 <= i <= 9`.
pub open spec fn spec_digit(i: int) -> char {
    if i == 0 {
        '0'
    } else if i == 1 {
        '1'
    } else if i == 2 {
        '2'
    } else if i == 3 {
        '3'
    } else if i == 4 {
        '4'
    } else if i == 5 {
        '5'
    } else if i == 6 {
        '6'
    } else if i == 7 {
        '7'
    } else if i == 8 {
        '8'
    } else {
        '9'
    }
}

/// What cell `i` shows in the grid of choices: its index if it is empty,
/// its symbol if it is taken.
pub open spec fn spec_label(cells: Seq<Cell>, i: int) -> char {
    if cells[i] == Cell::Empty {
        spec_digit(i)
    } else {
        cells[i].spec_symbol()
    }
}

/// The grid of choices as text: like the grid, with each cell as its label
/// in square brackets. Cell `i` takes the positions from `4 * i` on.
pub open spec fn spec_choices(cells: Seq<Cell>) -> Seq<char> {
    Seq::new(
        36,
        |k: int|
            if k % 4 == 0 {
                '['
            } else if k % 4 == 1 {
                spec_label(cells, k / 4)
            } else if k % 4 == 2 {
                ']'
            } else {
                spec_separator(k / 4)
            },
    )
}

/// The value of a text of decimal digits; the empty text has the value 0.
pub open spec fn spec_decimal_value(digits: Seq<char>) -> int
    decreases digits.len(),
{
    if digits.len() == 0 {
        0
    } else {
        10 * spec_decimal_value(digits.drop_last()) + (digits.last() as int - '0' as int)
    }
}

/// Every character of `text` is one of `0` to `9`.
pub open spec fn spec_all_digits(text: Seq<char>) -> bool {
    forall|i: int| 0 <= i < text.len() ==> '0' <= #[trigger] text[i] <= '9'
}

/// The number that `text` is read as: an optional `+`, then at least one
/// decimal digit and nothing else, the value within the range of `usize`.
pub open spec fn spec_parse_decimal(text: Seq<char>) -> Option<usize> {
    let digits = if text.len() > 0 && text[0] == '+' {
        text.skip(1)
    } else {
        text
    };
    if digits.len() > 0 && spec_all_digits(digits) && spec_decimal_value(digits) <= usize::MAX {
        Some(spec_decimal_value(digits) as usize)
    } else {
        None
    }
}

/// Whether `c` is white space, as Unicode defines it by the property
/// `White_Space`: the controls U+0009 to U+000D and U+0085, the space, the
/// no-break spaces U+00A0 and U+202F, U+1680, the spaces U+2000 to U+200A,
/// the line and paragraph separators, U+205F and U+3000.
pub open spec fn spec_is_white_space(c: char) -> bool {
    ||| '\u{0009}' <= c <= '\u{000D}'
    ||| c == '\u{0020}'
    ||| c == '\u{0085}'
    ||| c == '\u{00A0}'
    ||| c == '\u{1680}'
    ||| '\u{2000}' <= c <= '\u{200A}'
    ||| c == '\u{2028}'
    ||| c == '\u{2029}'
    ||| c == '\u{202F}'
    ||| c == '\u{205F}'
    ||| c == '\u{3000}'
}

/// `text` without the white space at its start.
pub open spec fn spec_trimmed_start(text: Seq<char>) -> Seq<char>
    decreases text.len(),
{
    if text.len() > 0 && spec_is_white_space(text.first()) {
        spec_trimmed_start(text.drop_first())
    } else {
        text
    }
}

/// `text` without the white space at its end.
pub open spec fn spec_trimmed_end(text: Seq<char>) -> Seq<char>
    decreases text.len(),
{
    if text.len() > 0 && spec_is_white_space(text.last()) {
        spec_trimmed_end(text.drop_last())
    } else {
        text
    }
}

/// `text` without the white space at its two ends.
pub open spec fn spec_trimmed(text: Seq<char>) -> Seq<char> {
    spec_trimmed_end(spec_trimmed_start(text))
}

/// `text` in lower case.
pub uninterp spec fn spec_lowercased(text: Seq<char>) -> Seq<char>;

/// `text` begins with the letter `y`.
pub open spec fn spec_begins_with_y(text: Seq<char>) -> bool {
    text.len() > 0 && text[0] == 'y'
}

/// The side that an answer to "do you want to play first?" gives the
/// player: X, which opens, if the answer, trimmed and in lower case, begins
/// with `y`; O otherwise.
pub open spec fn spec_side_for_answer(answer: Seq<char>) -> Cell {
    if spec_begins_with_y(spec_lowercased(spec_trimmed(answer))) {
        Cell::X
    } else {
        Cell::O
    }
}

/// The move that an answer stands for: the number that was read, if it is a
/// legal move.
pub open spec fn spec_accept_move(cells: Seq<Cell>, parsed: Option<usize>) -> Option<usize> {
    match parsed {
        Some(i) => if spec_legal_move(cells, i as int) {
            Some(i)
        } else {
            None
        },
        None => None,
    }
}

/// Calls `str::trim`, which returns the text without the white space at its
/// start and at its end, white space being the characters with the Unicode
/// property `White_Space`. The contract claims exactly that.
#[verifier::external_body]
fn trim_text(text: &str) -> (r: &str)
    ensures
        r@ == spec_trimmed(text@),
{
    text.trim()
}

/// Calls `str::parse` for `usize`, which accepts an optional `+` followed
/// by decimal digits only, at least one, and fails on anything else and on
/// a value that does not fit. The contract claims that the result is the
/// value of the digits when the text is accepted, and `None` when it is
/// not.
#[verifier::external_body]
fn parse_decimal(text: &str) -> (r: Option<usize>)
    ensures
        r == spec_parse_decimal(text@),
{
    text.parse::<usize>().ok()
}

/// Calls `str::to_lowercase`, which returns the text with every character
/// replaced by its lower case as Unicode maps it. The contract gives that
/// text a name and claims nothing more of it.
#[verifier::external_body]
fn lowercase_text(text: &str) -> (r: String)
    ensures
        r@ == spec_lowercased(text@),
{
    text.to_lowercase()
}

/// Whether `text` begins with the letter `y`.
pub fn begins_with_y(text: &str) -> (r: bool)
    ensures
        r == spec_begins_with_y(text@),
{
    !text.is_empty() && text.get_char(0) == 'y'
}

/// The side that an answer to "do you want to play first?" gives the
/// player: the answer is trimmed and put in lower case, and the player gets
/// X if it then begins with `y`, O otherwise.
pub fn side_for_answer(answer: &str) -> (r: Cell)
    ensures
        r == spec_side_for_answer(answer@),
{
    let lowered = lowercase_text(trim_text(answer));
    if begins_with_y(lowered.as_str()) {
        Cell::X
    } else {
        Cell::O
    }
}

/// What follows cell `i` in a grid, as text.
fn separator(i: usize) -> (r: &'static str)
    ensures
        r@ == seq![spec_separator(i as int)],
{
    proof {
        reveal_strlit("\n");
        reveal_strlit(" ");
    }
    if i % 3 == 2 {
        "\n"
    } else {
        " "
    }
}

/// The decimal digit for `i`, as text.
fn digit(i: usize) -> (r: &'static str)
    requires
        i <= 9,
    ensures
        r@ == seq![spec_digit(i as int)],
{
    proof {
        reveal_strlit("0");
        reveal_strlit("1");
        reveal_strlit("2");
        reveal_strlit("3");
        reveal_strlit("4");
        reveal_strlit("5");
        reveal_strlit("6");
        reveal_strlit("7");
        reveal_strlit("8");
        reveal_strlit("9");
    }
    match i {
        0 => "0",
        1 => "1",
        2 => "2",
        3 => "3",
        4 => "4",
        5 => "5",
        6 => "6",
        7 => "7",
        8 => "8",
        _ => "9",
    }
}

impl Board {
    /// The grid as text, ready to be printed.
    pub fn render(&self) -> (r: String)
        ensures
            r@ == spec_render(self@),
    {
        let mut text = String::new();
        let mut i: usize = 0;
        while i < 9
            invariant
                i <= 9,
                text@.len() == 2 * i,
                forall|k: int| 0 <= k < 2 * i ==> text@[k] == spec_render(self@)[k],
            decreases 9 - i,
        {
            text.append(self.cells[i].symbol());
            text.append(separator(i));
            i += 1;
        }
        text
    }

    /// The grid of choices as text: an empty cell shows the number to
    /// enter for it.
    pub fn choices(&self) -> (r: String)
        ensures
            r@ == spec_choices(self@),
    {
        proof {
            reveal_strlit("[");
            reveal_strlit("]");
        }
        let mut text = String::new();
        let mut i: usize = 0;
        while i < 9
            invariant
                i <= 9,
                text@.len() == 4 * i,
                "["@ == seq!['['],
                "]"@ == seq![']'],
                forall|k: int| 0 <= k < 4 * i ==> text@[k] == spec_choices(self@)[k],
            decreases 9 - i,
        {
            text.append("[");
            if self.cells[i] == Cell::Empty {
                text.append(digit(i));
            } else {
                text.append(self.cells[i].symbol());
            }
            text.append("]");
            text.append(separator(i));
            i += 1;
        }
        text
    }

    /// The move that a number stands for, if it is a legal one.
    pub fn accept_move(&self, parsed: Option<usize>) -> (r: Option<usize>)
        ensures
            r == spec_accept_move(self@, parsed),
    {
        match parsed {
            Some(index) => if self.legal_move(index) {
                Some(index)
            } else {
                None
            },
            None => None,
        }
    }

    /// The move that a line of input stands for: the text is trimmed and
    /// read as a number, and the number is taken if it is a legal move.
    pub fn read_move(&self, input: &str) -> (r: Option<usize>)
        ensures
            r == spec_accept_move(self@, spec_parse_decimal(spec_trimmed(input@))),
    {
        let parsed = parse_decimal(trim_text(input));
        self.accept_move(parsed)
    }
}

} // verus!
