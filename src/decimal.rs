use vstd::prelude::*;

verus! {

/// The character of a decimal digit.
pub open spec fn digit_char(d: int) -> char {
    if d == 0 {
        '0'
    } else if d == 1 {
        '1'
    } else if d == 2 {
        '2'
    } else if d == 3 {
        '3'
    } else if d == 4 {
        '4'
    } else if d == 5 {
        '5'
    } else if d == 6 {
        '6'
    } else if d == 7 {
        '7'
    } else if d == 8 {
        '8'
    } else {
        '9'
    }
}

/// The decimal digits of a non-negative number, without leading zeros.
pub open spec fn decimal_nat(n: nat) -> Seq<char>
    decreases n,
{
    if n < 10 {
        seq![digit_char(n as int)]
    } else {
        decimal_nat(n / 10) + seq![digit_char((n % 10) as int)]
    }
}

/// The decimal text of an integer, with a leading minus sign when it is negative.
pub open spec fn decimal(n: int) -> Seq<char> {
    if n < 0 {
        seq!['-'] + decimal_nat((-n) as nat)
    } else {
        decimal_nat(n as nat)
    }
}

fn digit_str(d: u64) -> (r: &'static str)
    requires
        d < 10,
    ensures
        r@ == seq![digit_char(d as int)],
{
    proof {
        reveal_strlit("0");
        reveal_strlit("1");
        reveal_strlit("2");
        reveal_strlit("3");
        reveal_strlit("4");
        reveal_strlit("5");
        reveal_strlit("6");
        reveal_strlit("7");
        reveal_strlit("8");
        reveal_strlit("9");
    }
    match d {
        0 => "0",
        1 => "1",
        2 => "2",
        3 => "3",
        4 => "4",
        5 => "5",
        6 => "6",
        7 => "7",
        8 => "8",
        _ => "9",
    }
}

fn append_nat(buffer: &mut String, n: u64)
    ensures
        final(buffer)@ == old(buffer)@ + decimal_nat(n as nat),
    decreases n,
{
    if n >= 10 {
        append_nat(buffer, n / 10);
    }
    buffer.append(digit_str(n % 10));
    proof {
        if n >= 10 {
            assert(final(buffer)@ =~= old(buffer)@ + decimal_nat(n as nat));
        } else {
            assert(final(buffer)@ =~= old(buffer)@ + decimal_nat(n as nat));
        }
    }
}

/// Appends the decimal text of `n`.
pub fn append_decimal(buffer: &mut String, n: i64)
    ensures
        final(buffer)@ == old(buffer)@ + decimal(n as int),
{
    if n < 0 {
        proof {
            reveal_strlit("-");
        }
        buffer.append("-");
        let m: u64 = ((-(n + 1)) as u64) + 1;
        append_nat(buffer, m);
        assert(final(buffer)@ =~= old(buffer)@ + decimal(n as int));
    } else {
        append_nat(buffer, n as u64);
    }
}

} // verus!
