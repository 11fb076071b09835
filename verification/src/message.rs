//! What is said of a map size that does not fit the system's pages.

use vstd::prelude::*;

verus! {

/// The character of a decimal digit.
pub open spec fn digit(d: int) -> char {
    (('0' as int) + d) as char
}

/// A number in decimal, without leading zeros.
pub open spec fn decimal(n: nat) -> Seq<char>
    decreases n,
{
    if n < 10 {
        seq![digit(n as int)]
    } else {
        decimal(n / 10).push(digit((n % 10) as int))
    }
}

/// What is said of a map size that is not a multiple of the page size.
pub open spec fn map_size_complaint(size: nat, page_size: nat) -> Seq<char> {
    "map size ("@ + decimal(size) + ") must be a multiple of the system page size ("@ + decimal(
        page_size,
    ) + ")"@
}

/// A decimal digit.
fn digit_string(d: usize) -> (string: String)
    requires
        d < 10,
    ensures
        string@ == seq![digit(d as int)],
{
    proof {
        reveal_strlit("0");
        reveal_strlit("1");
        reveal_strlit("2");
        reveal_strlit("3");
        reveal_strlit("4");
        reveal_strlit("5");
        reveal_strlit("6");
        reveal_strlit("7");
        reveal_strlit("8");
        reveal_strlit("9");
    }
    let string = match d {
        0 => "0",
        1 => "1",
        2 => "2",
        3 => "3",
        4 => "4",
        5 => "5",
        6 => "6",
        7 => "7",
        8 => "8",
        _ => "9",
    };
    assert(string@ =~= seq![digit(d as int)]);
    string.to_owned()
}

/// Writes a number in decimal.
fn decimal_string(n: usize) -> (string: String)
    ensures
        string@ == decimal(n as nat),
    decreases n,
{
    if n < 10 {
        digit_string(n)
    } else {
        let mut string = decimal_string(n / 10);
        let last = digit_string(n % 10);
        string.append(last.as_str());
        assert(string@ =~= decimal(n as nat));
        string
    }
}

/// Says of a map size that it is not a multiple of the page size.
pub(crate) fn complain_of_map_size(size: usize, page_size: usize) -> (message: String)
    ensures
        message@ == map_size_complaint(size as nat, page_size as nat),
{
    let mut message = "map size (".to_owned();
    message.append(decimal_string(size).as_str());
    message.append(") must be a multiple of the system page size (");
    message.append(decimal_string(page_size).as_str());
    message.append(")");
    message
}

} // verus!
