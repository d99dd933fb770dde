//! Text that shows a buffer to a person.

use vstd::prelude::*;
use vstd::string::StringExecFns;

verus! {

/// The hex dump of `data` as `pretty_hex::pretty_hex` lays it out: a title
/// line with the length, then rows of sixteen bytes, each with its address,
/// the bytes in hex and the bytes as text.
pub uninterp spec fn pretty_hex_text(data: Seq<u8>) -> Seq<char>;

/// `pretty_hex::pretty_hex`: the hex dump of `data` in the default layout. The
/// text depends on the bytes alone; the contract gives it its name and says
/// nothing of what it holds.
#[verifier::external_body]
pub(crate) fn hex_dump(data: &[u8]) -> (text: String)
    ensures
        text@ == pretty_hex_text(data@),
{
    pretty_hex::pretty_hex(&data)
}

/// The character of the decimal digit `digit`.
pub open spec fn digit_char(digit: nat) -> char {
    if digit == 0 {
        '0'
    } else if digit == 1 {
        '1'
    } else if digit == 2 {
        '2'
    } else if digit == 3 {
        '3'
    } else if digit == 4 {
        '4'
    } else if digit == 5 {
        '5'
    } else if digit == 6 {
        '6'
    } else if digit == 7 {
        '7'
    } else if digit == 8 {
        '8'
    } else {
        '9'
    }
}

/// The decimal digits of `number`, most significant first, without leading zeros.
pub open spec fn decimal_digits(number: nat) -> Seq<char>
    decreases number,
{
    if number < 10 {
        seq![digit_char(number)]
    } else {
        decimal_digits(number / 10).push(digit_char(number % 10))
    }
}

/// The `Display` form of a `usize` in std: its decimal digits, most
/// significant first, without sign, padding or leading zeros.
#[verifier::external_body]
pub(crate) fn decimal(number: usize) -> (text: String)
    ensures
        text@ == decimal_digits(number as nat),
{
    format!("{}", number)
}

/// The dump of a parcel, from the digits of its cursor position, the digits
/// of its length and the hex dump of its data.
pub open spec fn dump_layout(pos: Seq<char>, len: Seq<char>, hex: Seq<char>) -> Seq<char> {
    "Parcel: pos "@ + pos + ", len "@ + len + "\n"@ + hex
}

/// Puts the parts of a dump together.
pub fn layout_dump(pos: &str, len: &str, hex: &str) -> (text: String)
    ensures
        text@ == dump_layout(pos@, len@, hex@),
{
    let mut text = String::from_str("Parcel: pos ");
    text.append(pos);
    text.append(", len ");
    text.append(len);
    text.append("\n");
    text.append(hex);
    text
}

} // verus!
