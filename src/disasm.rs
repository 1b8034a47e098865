use vstd::prelude::*;

verus! {

/// The hexadecimal digits, upper case, by value.
pub open spec fn hex_digits() -> Seq<char> {
    seq!['0', '1', '2', '3', '4', '5', '6', '7', '8', '9', 'A', 'B', 'C', 'D', 'E', 'F']
}

/// The low hexadecimal digit of `n`.
pub open spec fn hex1(n: int) -> Seq<char> {
    seq![hex_digits()[n % 16]]
}

/// The two low hexadecimal digits of `n`, most significant first.
pub open spec fn hex2(n: int) -> Seq<char> {
    hex1(n / 16) + hex1(n)
}

/// The four low hexadecimal digits of `n`, most significant first.
pub open spec fn hex4(n: int) -> Seq<char> {
    hex2(n / 256) + hex2(n % 256)
}

/// `n` below 100 in decimal, without leading zero.
pub open spec fn dec(n: int) -> Seq<char> {
    if n < 10 {
        seq![hex_digits()[n]]
    } else {
        seq![hex_digits()[n / 10], hex_digits()[n % 10]]
    }
}

/// The one-character text of a digit value.
fn digit_str(n: u8) -> (r: &'static str)
    requires
        n < 16,
    ensures
        r@ == seq![hex_digits()[n as int]],
{
    proof {
        reveal_strlit("0");
        reveal_strlit("1");
        reveal_strlit("2");
        reveal_strlit("3");
        reveal_strlit("4");
        reveal_strlit("5");
        reveal_strlit("6");
        reveal_strlit("7");
        reveal_strlit("8");
        reveal_strlit("9");
        reveal_strlit("A");
        reveal_strlit("B");
        reveal_strlit("C");
        reveal_strlit("D");
        reveal_strlit("E");
        reveal_strlit("F");
    }
    match n {
        0 => "0",
        1 => "1",
        2 => "2",
        3 => "3",
        4 => "4",
        5 => "5",
        6 => "6",
        7 => "7",
        8 => "8",
        9 => "9",
        10 => "A",
        11 => "B",
        12 => "C",
        13 => "D",
        14 => "E",
        _ => "F",
    }
}

/// Appends the low hexadecimal digit of `n`.
pub(crate) fn push_hex1(s: &mut String, n: u8)
    ensures
        final(s)@ == old(s)@ + hex1(n as int),
{
    s.append(digit_str(n % 16));
}

/// Appends the two hexadecimal digits of `n`.
pub(crate) fn push_hex2(s: &mut String, n: u8)
    ensures
        final(s)@ == old(s)@ + hex2(n as int),
{
    push_hex1(s, n / 16);
    push_hex1(s, n);
    assert(hex1((n / 16) as int) == hex1(n as int / 16));
    assert(s@ =~= old(s)@ + hex2(n as int));
}

/// Appends the four hexadecimal digits of `n`.
pub(crate) fn push_hex4(s: &mut String, n: u16)
    ensures
        final(s)@ == old(s)@ + hex4(n as int),
{
    push_hex2(s, (n / 256) as u8);
    push_hex2(s, (n % 256) as u8);
    assert(s@ =~= old(s)@ + hex4(n as int));
}

/// Appends `n` in decimal.
pub(crate) fn push_dec(s: &mut String, n: u8)
    requires
        n < 100,
    ensures
        final(s)@ == old(s)@ + dec(n as int),
{
    if n < 10 {
        s.append(digit_str(n));
    } else {
        s.append(digit_str(n / 10));
        s.append(digit_str(n % 10));
    }
    assert(s@ =~= old(s)@ + dec(n as int));
}

} // verus!
