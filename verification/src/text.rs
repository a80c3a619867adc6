//! Text building: decimal numbers, joined lists and labelled lines.

use vstd::prelude::*;

verus! {

/// The character that stands for one decimal digit.
pub open spec fn digit_char(digit: nat) -> char {
    if digit == 0 {
        '0'
    } else if digit == 1 {
        '1'
    } else if digit == 2 {
        '2'
    } else if digit == 3 {
        '3'
    } else if digit == 4 {
        '4'
    } else if digit == 5 {
        '5'
    } else if digit == 6 {
        '6'
    } else if digit == 7 {
        '7'
    } else if digit == 8 {
        '8'
    } else {
        '9'
    }
}

/// A number written in base ten, without sign, padding or leading zeros.
pub open spec fn decimal(n: nat) -> Seq<char>
    decreases n,
{
    if n < 10 {
        seq![digit_char(n)]
    } else {
        decimal(n / 10).push(digit_char(n % 10))
    }
}

/// Whether a character is a decimal digit.
pub open spec fn is_digit(c: char) -> bool {
    '0' <= c && c <= '9'
}

/// The value of a decimal digit.
pub open spec fn digit_value(c: char) -> nat {
    if c == '1' {
        1
    } else if c == '2' {
        2
    } else if c == '3' {
        3
    } else if c == '4' {
        4
    } else if c == '5' {
        5
    } else if c == '6' {
        6
    } else if c == '7' {
        7
    } else if c == '8' {
        8
    } else if c == '9' {
        9
    } else {
        0
    }
}

/// The number that a text of digits denotes in base ten.
pub open spec fn denoted(digits: Seq<char>) -> nat
    decreases digits.len(),
{
    if digits.len() == 0 {
        0
    } else {
        denoted(digits.drop_last()) * 10 + digit_value(digits.last())
    }
}

/// The parts in order, with the separator between each two neighbours.
pub open spec fn join(parts: Seq<Seq<char>>, separator: Seq<char>) -> Seq<char>
    decreases parts.len(),
{
    if parts.len() == 0 {
        Seq::empty()
    } else if parts.len() == 1 {
        parts[0]
    } else {
        join(parts.drop_last(), separator) + separator + parts.last()
    }
}

/// The text of an optional string.
pub open spec fn opt_view(text: Option<String>) -> Option<Seq<char>> {
    match text {
        Some(t) => Some(t@),
        None => None,
    }
}

/// The token that stands in for a value that is absent.
pub const PLACEHOLDER: &'static str = "-";

/// The value if there is one, the placeholder if not.
pub open spec fn placeholder_or(value: Option<Seq<char>>) -> Seq<char> {
    match value {
        Some(text) => text,
        None => PLACEHOLDER@,
    }
}

/// What the standard library writes for a string under `{:#?}`: the string
/// between double quotes, with escapes for what cannot stand there as it is.
pub uninterp spec fn debug_quoted(text: Seq<char>) -> Seq<char>;

/// A label and a value as one printed line.
pub open spec fn labelled(label: Seq<char>, value: Seq<char>) -> Seq<char> {
    label + ": "@ + value
}

fn digit_text(digit: u64) -> (text: &'static str)
    requires
        digit < 10,
    ensures
        text@ == seq![digit_char(digit as nat)],
{
    proof {
        reveal_strlit("0");
        reveal_strlit("1");
        reveal_strlit("2");
        reveal_strlit("3");
        reveal_strlit("4");
        reveal_strlit("5");
        reveal_strlit("6");
        reveal_strlit("7");
        reveal_strlit("8");
        reveal_strlit("9");
    }
    if digit == 0 {
        "0"
    } else if digit == 1 {
        "1"
    } else if digit == 2 {
        "2"
    } else if digit == 3 {
        "3"
    } else if digit == 4 {
        "4"
    } else if digit == 5 {
        "5"
    } else if digit == 6 {
        "6"
    } else if digit == 7 {
        "7"
    } else if digit == 8 {
        "8"
    } else {
        "9"
    }
}

/// Writes a number in base ten.
pub fn decimal_text(n: u64) -> (text: String)
    ensures
        text@ == decimal(n as nat),
    decreases n,
{
    if n < 10 {
        String::from_str(digit_text(n))
    } else {
        let head = decimal_text(n / 10);
        let text = head.concat(digit_text(n % 10));
        assert(text@ =~= decimal((n / 10) as nat).push(digit_char((n % 10) as nat)));
        text
    }
}

/// Joins the parts with the separator between them.
pub fn join_text(parts: &Vec<String>, separator: &str) -> (joined: String)
    ensures
        joined@ == join(parts.deep_view(), separator@),
{
    let mut joined = String::new();
    let mut i: usize = 0;
    while i < parts.len()
        invariant
            i <= parts.len(),
            joined@ == join(parts.deep_view().take(i as int), separator@),
        decreases parts.len() - i,
    {
        let ghost before = parts.deep_view().take(i as int);
        let ghost after = parts.deep_view().take(i + 1);
        assert(after.drop_last() =~= before);
        assert(after.last() == parts[i as int]@);
        if i > 0 {
            joined.append(separator);
        }
        joined.append(parts[i].as_str());
        assert(joined@ =~= join(after, separator@));
        i += 1;
    }
    assert(parts.deep_view().take(i as int) =~= parts.deep_view());
    joined
}

/// Writes a label and a value as one line.
pub fn labelled_text(label: &str, value: &str) -> (line: String)
    ensures
        line@ == labelled(label@, value@),
{
    let mut line = String::from_str(label);
    line.append(": ");
    line.append(value);
    line
}

/// `Debug` of `str` in its alternate form. Trusted: the text depends on the
/// string alone.
#[verifier::external_body]
fn str_debug(text: &str) -> (quoted: String)
    ensures
        quoted@ == debug_quoted(text@),
{
    format!("{:#?}", text)
}

/// Writes a string as a quoted literal with escapes.
pub fn quote_text(text: &str) -> (quoted: String)
    ensures
        quoted@ == debug_quoted(text@),
{
    str_debug(text)
}

/// An optional value that has been written out, ready to be shown: the text
/// itself, or the placeholder where there is none.
#[derive(Debug, Clone, PartialEq, Eq)]
pub struct OptFormat(pub Option<String>);

impl OptFormat {
    /// What is shown for the value.
    pub open spec fn text(&self) -> Seq<char> {
        placeholder_or(opt_view(self.0))
    }

    /// Writes the value, or the placeholder.
    pub fn render(&self) -> (shown: String)
        ensures
            shown@ == self.text(),
    {
        match &self.0 {
            Some(text) => text.clone(),
            None => String::from_str(PLACEHOLDER),
        }
    }
}

/// A number in base ten is at least one digit and nothing but digits, it
/// starts with a zero only where it is zero, and it denotes the number.
pub proof fn decimal_is_sound(n: nat)
    ensures
        decimal(n).len() >= 1,
        forall|i: int| 0 <= i < decimal(n).len() ==> is_digit(#[trigger] decimal(n)[i]),
        decimal(n)[0] == '0' <==> n == 0,
        denoted(decimal(n)) == n,
    decreases n,
{
    if n < 10 {
        assert(decimal(n).drop_last() =~= Seq::<char>::empty());
        assert(denoted(decimal(n)) == digit_value(digit_char(n))) by {
            reveal_with_fuel(denoted, 2);
        }
    } else {
        decimal_is_sound(n / 10);
        let head = decimal(n / 10);
        assert(decimal(n).drop_last() =~= head);
        assert(decimal(n).last() == digit_char(n % 10));
        assert(decimal(n)[0] == head[0]);
    }
}

/// The placeholder is a single dash, whatever the field: it is neither
/// empty nor the word "null".
pub proof fn placeholder_is_a_dash()
    ensures
        placeholder_or(None) == seq!['-'],
        placeholder_or(None).len() == 1,
        placeholder_or(None) != "null"@,
{
    reveal_strlit("-");
    reveal_strlit("null");
    assert(PLACEHOLDER@ =~= seq!['-']);
}

} // verus!
