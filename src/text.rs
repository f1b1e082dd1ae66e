use vstd::prelude::*;
use vstd::string::*;

verus! {

/// The decimal digit character for `d` (taken modulo ten).
pub open spec fn digit_char(d: nat) -> char {
    let k = d % 10;
    if k == 0 {
        '0'
    } else if k == 1 {
        '1'
    } else if k == 2 {
        '2'
    } else if k == 3 {
        '3'
    } else if k == 4 {
        '4'
    } else if k == 5 {
        '5'
    } else if k == 6 {
        '6'
    } else if k == 7 {
        '7'
    } else if k == 8 {
        '8'
    } else {
        '9'
    }
}

/// The decimal representation of `n`, without leading zeros.
pub open spec fn decimal(n: nat) -> Seq<char>
    decreases n,
{
    if n < 10 {
        seq![digit_char(n)]
    } else {
        decimal(n / 10).push(digit_char(n % 10))
    }
}

/// `n` copies of the character `c`.
pub open spec fn cells(c: char, n: nat) -> Seq<char> {
    Seq::new(n, |_i: int| c)
}

fn digit_str(d: u64) -> (r: &'static str)
    requires
        d < 10,
    ensures
        r@ == seq![digit_char(d as nat)],
{
    proof {
        reveal_strlit("0");
        reveal_strlit("1");
        reveal_strlit("2");
        reveal_strlit("3");
        reveal_strlit("4");
        reveal_strlit("5");
        reveal_strlit("6");
        reveal_strlit("7");
        reveal_strlit("8");
        reveal_strlit("9");
    }
    if d == 0 {
        let r = "0";
        assert(r@ =~= seq!['0']);
        r
    } else if d == 1 {
        let r = "1";
        assert(r@ =~= seq!['1']);
        r
    } else if d == 2 {
        let r = "2";
        assert(r@ =~= seq!['2']);
        r
    } else if d == 3 {
        let r = "3";
        assert(r@ =~= seq!['3']);
        r
    } else if d == 4 {
        let r = "4";
        assert(r@ =~= seq!['4']);
        r
    } else if d == 5 {
        let r = "5";
        assert(r@ =~= seq!['5']);
        r
    } else if d == 6 {
        let r = "6";
        assert(r@ =~= seq!['6']);
        r
    } else if d == 7 {
        let r = "7";
        assert(r@ =~= seq!['7']);
        r
    } else if d == 8 {
        let r = "8";
        assert(r@ =~= seq!['8']);
        r
    } else {
        let r = "9";
        assert(r@ =~= seq!['9']);
        r
    }
}

/// Appends the decimal representation of `n` to `s`.
pub fn push_decimal(s: &mut String, n: u64)
    ensures
        final(s)@ == old(s)@ + decimal(n as nat),
    decreases n,
{
    if n < 10 {
        s.append(digit_str(n));
    } else {
        push_decimal(s, n / 10);
        s.append(digit_str(n % 10));
        assert(decimal(n as nat) == decimal((n / 10) as nat).push(digit_char((n % 10) as nat)));
        assert(final(s)@ =~= old(s)@ + decimal(n as nat));
    }
}

/// Appends `n` cells to `s`: filled ones (`=`) or blank ones.
pub fn push_cells(s: &mut String, filled: bool, n: usize)
    ensures
        final(s)@ == old(s)@ + cells(if filled { '=' } else { ' ' }, n as nat),
{
    let ghost c: char = if filled { '=' } else { ' ' };
    let cell: &str = if filled { "=" } else { " " };
    proof {
        reveal_strlit("=");
        reveal_strlit(" ");
        assert(cell@ =~= seq![c]);
    }
    let ghost start = s@;
    let mut i: usize = 0;
    while i < n
        invariant
            i <= n,
            cell@ == seq![c],
            s@ =~= start + cells(c, i as nat),
        decreases n - i,
    {
        s.append(cell);
        i = i + 1;
        assert(s@ =~= start + cells(c, i as nat));
    }
}

} // verus!
