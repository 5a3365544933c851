//! Numbers written out as text, the way Rust's formatting writes them.

use vstd::prelude::*;
use vstd::string::StringExecFns;

verus! {

/// The character of digit `d` (below 16): `0`-`9`, then `a`-`f`.
pub open spec fn digit_char(d: nat) -> char {
    if d < 10 {
        (48 + d) as char
    } else {
        (87 + d) as char
    }
}

/// The digits of `n` in base `base`, most significant first, without leading zeros
/// (a single `0` for zero).
pub open spec fn digits(n: nat, base: nat) -> Seq<char>
    decreases n,
{
    if base < 2 || n < base {
        seq![digit_char(n)]
    } else {
        proof {
            assert(n / base < n) by (nonlinear_arith)
                requires
                    base >= 2,
                    n >= base,
            ;
        }
        digits(n / base, base).push(digit_char(n % base))
    }
}

/// `v` in decimal, with a leading `-` when negative (`{}`).
pub open spec fn dec_text(v: int) -> Seq<char> {
    if v < 0 {
        seq!['-'] + digits((-v) as nat, 10)
    } else {
        digits(v as nat, 10)
    }
}

/// `v` in lowercase hexadecimal after `0x` (`{:#x}`).
pub open spec fn hex_text(v: nat) -> Seq<char> {
    seq!['0', 'x'] + digits(v, 16)
}

/// The one-character string of digit `d`.
fn digit_str(d: u64) -> (r: &'static str)
    requires
        d < 16,
    ensures
        r@ == seq![digit_char(d as nat)],
{
    proof {
        reveal_strlit("0");
        reveal_strlit("1");
        reveal_strlit("2");
        reveal_strlit("3");
        reveal_strlit("4");
        reveal_strlit("5");
        reveal_strlit("6");
        reveal_strlit("7");
        reveal_strlit("8");
        reveal_strlit("9");
        reveal_strlit("a");
        reveal_strlit("b");
        reveal_strlit("c");
        reveal_strlit("d");
        reveal_strlit("e");
        reveal_strlit("f");
    }
    match d {
        0 => "0",
        1 => "1",
        2 => "2",
        3 => "3",
        4 => "4",
        5 => "5",
        6 => "6",
        7 => "7",
        8 => "8",
        9 => "9",
        10 => "a",
        11 => "b",
        12 => "c",
        13 => "d",
        14 => "e",
        _ => "f",
    }
}

/// Appends the digits of `n` in base `base` to `out`.
fn push_digits(out: &mut String, n: u64, base: u64)
    requires
        2 <= base <= 16,
    ensures
        final(out)@ == old(out)@ + digits(n as nat, base as nat),
    decreases n,
{
    if n < base {
        out.append(digit_str(n));
    } else {
        assert(n / base < n) by (nonlinear_arith)
            requires
                base >= 2,
                n >= base,
        ;
        push_digits(out, n / base, base);
        out.append(digit_str(n % base));
        proof {
            assert(old(out)@ + digits(n as nat, base as nat) =~= old(out)@ + digits((n / base) as nat, base as nat)
                + seq![digit_char((n % base) as nat)]);
        }
    }
}

/// `v` in decimal, as `format!("{}", v)` writes it.
pub fn dec_string(v: i64) -> (r: String)
    ensures
        r@ == dec_text(v as int),
{
    let mut out = String::new();
    if v < 0 {
        out.append("-");
        let m: u64 = (0i128 - v as i128) as u64;
        proof { reveal_strlit("-"); }
        push_digits(&mut out, m, 10);
    } else {
        push_digits(&mut out, v as u64, 10);
    }
    out
}

/// `v` in lowercase hexadecimal after `0x`, as `format!("{:#x}", v)` writes it.
pub fn hex_string(v: u64) -> (r: String)
    ensures
        r@ == hex_text(v as nat),
{
    let mut out = String::new();
    out.append("0x");
    proof { reveal_strlit("0x"); }
    push_digits(&mut out, v, 16);
    out
}

/// The value of a digit character: `0`-`9`, then `a`-`f` from ten on.
pub open spec fn char_value(c: char) -> nat {
    if c <= '9' {
        (c as nat - 48) as nat
    } else {
        (c as nat - 87) as nat
    }
}

/// The number that digits in base `base` write, most significant first.
pub open spec fn digits_value(s: Seq<char>, base: nat) -> nat
    decreases s.len(),
{
    if s.len() == 0 {
        0
    } else {
        digits_value(s.drop_last(), base) * base + char_value(s.last())
    }
}

/// Digits written in base `base` (2 to 16) read back as the number they were
/// written from; each is a digit below the base, and only zero starts with `0`.
pub proof fn law_digits_read_back(n: nat, base: nat)
    requires
        2 <= base <= 16,
    ensures
        digits_value(digits(n, base), base) == n,
        forall|i: int| 0 <= i < digits(n, base).len() ==> #[trigger] char_value(digits(n, base)[i]) < base
            && (digits(n, base)[i] <= '9' || 'a' <= digits(n, base)[i] <= 'f'),
        digits(n, base)[0] == '0' ==> n == 0,
        digits(n, base).len() >= 1,
    decreases n,
{
    if n < base {
        assert(char_value(digit_char(n)) == n);
        assert(digits(n, base) =~= seq![digit_char(n)]);
        assert(seq![digit_char(n)].drop_last() =~= Seq::<char>::empty());
        assert(0 * base == 0) by (nonlinear_arith);
        assert(digits_value(Seq::<char>::empty(), base) == 0);
        assert(digits_value(digits(n, base), base) == n);
    } else {
        let q = n / base;
        let r = n % base;
        assert(1 <= q < n && q * base + r == n && r < base) by (nonlinear_arith)
            requires
                base >= 2,
                n >= base,
                q == n / base,
                r == n % base,
        ;
        law_digits_read_back(q, base);
        let d = digits(q, base);
        assert(digits(n, base) == d.push(digit_char(r)));
        assert(d.push(digit_char(r)).drop_last() =~= d);
        assert(char_value(digit_char(r)) == r);
        assert(digits_value(digits(n, base), base) == digits_value(d, base) * base + r);
        assert(digits_value(digits(n, base), base) == n);
        assert forall|i: int| 0 <= i < digits(n, base).len() implies #[trigger] char_value(digits(n, base)[i]) < base
            && (digits(n, base)[i] <= '9' || 'a' <= digits(n, base)[i] <= 'f') by {
            if i < d.len() {
                assert(digits(n, base)[i] == d[i]);
            }
        }
        assert(digits(n, base)[0] == d[0]);
    }
}

} // verus!
