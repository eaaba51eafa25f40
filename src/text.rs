use vstd::prelude::*;
use vstd::string::*;

verus! {

/// The digits of bases up to sixteen, lower case.
pub open spec fn digit_chars() -> Seq<char> {
    seq!['0', '1', '2', '3', '4', '5', '6', '7', '8', '9', 'a', 'b', 'c', 'd', 'e', 'f']
}

/// `n` written in `base` without leading zeros.
pub open spec fn radix_text(n: nat, base: nat) -> Seq<char>
    decreases n,
{
    if base < 2 || base > 16 {
        seq![]
    } else if n < base {
        seq![digit_chars()[n as int]]
    } else {
        proof {
            assert(n / base < n) by (nonlinear_arith)
                requires
                    base >= 2,
                    n >= base,
            ;
        }
        radix_text(n / base, base).push(digit_chars()[(n % base) as int])
    }
}

/// `n` in decimal, with a leading minus sign when negative.
pub open spec fn signed_text(n: int) -> Seq<char> {
    if n < 0 {
        seq!['-'] + radix_text((-n) as nat, 10)
    } else {
        radix_text(n as nat, 10)
    }
}

/// `parts` joined, with `sep` between each two neighbours.
pub open spec fn joined(parts: Seq<Seq<char>>, sep: Seq<char>) -> Seq<char>
    decreases parts.len(),
{
    if parts.len() == 0 {
        seq![]
    } else if parts.len() == 1 {
        parts[0]
    } else {
        joined(parts.drop_last(), sep) + sep + parts.last()
    }
}

/// The views of a sequence of strings.
pub open spec fn views(parts: Seq<String>) -> Seq<Seq<char>> {
    parts.map_values(|p: String| p@)
}

fn digit_str(d: u64) -> (r: &'static str)
    requires
        d < 16,
    ensures
        r@ == seq![digit_chars()[d as int]],
{
    proof {
        reveal_strlit("0");
        reveal_strlit("1");
        reveal_strlit("2");
        reveal_strlit("3");
        reveal_strlit("4");
        reveal_strlit("5");
        reveal_strlit("6");
        reveal_strlit("7");
        reveal_strlit("8");
        reveal_strlit("9");
        reveal_strlit("a");
        reveal_strlit("b");
        reveal_strlit("c");
        reveal_strlit("d");
        reveal_strlit("e");
        reveal_strlit("f");
    }
    match d {
        0 => "0",
        1 => "1",
        2 => "2",
        3 => "3",
        4 => "4",
        5 => "5",
        6 => "6",
        7 => "7",
        8 => "8",
        9 => "9",
        10 => "a",
        11 => "b",
        12 => "c",
        13 => "d",
        14 => "e",
        _ => "f",
    }
}

/// Writes `n` in `base` (ten or sixteen).
pub fn radix_string(n: u64, base: u64) -> (r: String)
    requires
        base == 10 || base == 16,
    ensures
        r@ == radix_text(n as nat, base as nat),
    decreases n,
{
    if n < base {
        String::from_str(digit_str(n))
    } else {
        let mut s = radix_string(n / base, base);
        s.append(digit_str(n % base));
        s
    }
}

/// Writes `n` in decimal.
pub fn decimal_string(n: u64) -> (r: String)
    ensures
        r@ == radix_text(n as nat, 10),
{
    radix_string(n, 10)
}

/// Writes a signed `n` in decimal.
pub fn signed_decimal_string(n: i64) -> (r: String)
    ensures
        r@ == signed_text(n as int),
{
    if n < 0 {
        let magnitude: u64 = ((-(n + 1)) as u64) + 1;
        let digits = radix_string(magnitude, 10);
        let mut s = String::from_str("-");
        proof {
            reveal_strlit("-");
        }
        s.append(digits.as_str());
        s
    } else {
        radix_string(n as u64, 10)
    }
}

/// Joins `parts` with `sep` between neighbours.
pub fn join_with(parts: &Vec<String>, sep: &str) -> (r: String)
    ensures
        r@ == joined(views(parts@), sep@),
{
    let mut out = String::new();
    let mut i: usize = 0;
    while i < parts.len()
        invariant
            i <= parts.len(),
            out@ == joined(views(parts@.take(i as int)), sep@),
        decreases parts.len() - i,
    {
        proof {
            let next = views(parts@.take(i as int + 1));
            assert(next.drop_last() =~= views(parts@.take(i as int)));
            assert(next.last() == parts@[i as int]@);
        }
        if i > 0 {
            out.append(sep);
        }
        out.append(parts[i].as_str());
        proof {
            let next = views(parts@.take(i as int + 1));
            if i == 0 {
                assert(out@ =~= next[0]);
            }
        }
        i = i + 1;
    }
    assert(parts@.take(parts.len() as int) =~= parts@);
    out
}

} // verus!
