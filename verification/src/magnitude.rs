//! Rendering of raw byte counts as human-readable magnitude strings.
//!
//! A count is shown in the largest unit among bytes, KB, MB, GB and TB
//! (powers of 1024) in which it is at least one, with exactly two fractional
//! digits and a single space before the unit label. The value is rounded to
//! the nearest hundredth, ties to even, so a rendered magnitude is never
//! more than half a hundredth of its unit away from the raw count.
use vstd::prelude::*;
use vstd::string::*;

verus! {

pub const KB: u64 = 1024;
pub const MB: u64 = 1024 * 1024;
pub const GB: u64 = 1024 * 1024 * 1024;
pub const TB: u64 = 1024 * 1024 * 1024 * 1024;

/// The decimal digit character for a single digit value.
pub open spec fn digit_char(d: nat) -> char {
    if d == 0 {
        '0'
    } else if d == 1 {
        '1'
    } else if d == 2 {
        '2'
    } else if d == 3 {
        '3'
    } else if d == 4 {
        '4'
    } else if d == 5 {
        '5'
    } else if d == 6 {
        '6'
    } else if d == 7 {
        '7'
    } else if d == 8 {
        '8'
    } else {
        '9'
    }
}

/// The usual decimal rendering of a natural number, without leading zeros.
pub open spec fn dec_str(n: nat) -> Seq<char>
    decreases n,
{
    if n < 10 {
        seq![digit_char(n)]
    } else {
        dec_str(n / 10).push(digit_char(n % 10))
    }
}

/// The divisor of the unit a count is rendered in: the largest power of 1024
/// up to 1024^4 that does not exceed the count, and 1 below 1024.
pub open spec fn unit_div(b: nat) -> nat {
    if b >= TB {
        TB as nat
    } else if b >= GB {
        GB as nat
    } else if b >= MB {
        MB as nat
    } else if b >= KB {
        KB as nat
    } else {
        1
    }
}

/// The label of the unit a count is rendered in, with its leading space.
pub open spec fn unit_label(b: nat) -> Seq<char> {
    if b >= TB {
        seq![' ', 'T', 'B']
    } else if b >= GB {
        seq![' ', 'G', 'B']
    } else if b >= MB {
        seq![' ', 'M', 'B']
    } else if b >= KB {
        seq![' ', 'K', 'B']
    } else {
        seq![' ', 'b', 'y', 't', 'e', 's']
    }
}

/// The quotient rounded to the nearest whole number, ties to even.
pub open spec fn round_half_even(num: nat, den: nat) -> nat
    recommends
        den >= 1,
{
    let q = num / den;
    let r = num % den;
    if 2 * r < den {
        q
    } else if 2 * r > den {
        q + 1
    } else if q % 2 == 0 {
        q
    } else {
        q + 1
    }
}

/// The rendered value in hundredths of the chosen unit, rounded to the
/// nearest hundredth, ties to even.
pub open spec fn magnitude_hundredths(b: nat) -> nat {
    round_half_even(b * 100, unit_div(b))
}

/// The full rendering: whole part, a dot, two fractional digits, unit label.
pub open spec fn format_spec(b: nat) -> Seq<char> {
    let h = magnitude_hundredths(b);
    dec_str(h / 100) + seq!['.', digit_char((h / 10) % 10), digit_char(h % 10)] + unit_label(b)
}

fn digit_str(d: u64) -> (r: &'static str)
    requires
        d < 10,
    ensures
        r@ == seq![digit_char(d as nat)],
{
    proof {
        reveal_strlit("0");
        reveal_strlit("1");
        reveal_strlit("2");
        reveal_strlit("3");
        reveal_strlit("4");
        reveal_strlit("5");
        reveal_strlit("6");
        reveal_strlit("7");
        reveal_strlit("8");
        reveal_strlit("9");
        assert("0"@ =~= seq![digit_char(0)]);
        assert("1"@ =~= seq![digit_char(1)]);
        assert("2"@ =~= seq![digit_char(2)]);
        assert("3"@ =~= seq![digit_char(3)]);
        assert("4"@ =~= seq![digit_char(4)]);
        assert("5"@ =~= seq![digit_char(5)]);
        assert("6"@ =~= seq![digit_char(6)]);
        assert("7"@ =~= seq![digit_char(7)]);
        assert("8"@ =~= seq![digit_char(8)]);
        assert("9"@ =~= seq![digit_char(9)]);
    }
    if d == 0 {
        "0"
    } else if d == 1 {
        "1"
    } else if d == 2 {
        "2"
    } else if d == 3 {
        "3"
    } else if d == 4 {
        "4"
    } else if d == 5 {
        "5"
    } else if d == 6 {
        "6"
    } else if d == 7 {
        "7"
    } else if d == 8 {
        "8"
    } else {
        "9"
    }
}

/// Renders a number in decimal, matching `dec_str`.
pub fn u64_to_dec(n: u64) -> (r: String)
    ensures
        r@ == dec_str(n as nat),
    decreases n,
{
    if n < 10 {
        String::from_str(digit_str(n))
    } else {
        let mut s = u64_to_dec(n / 10);
        let d = digit_str(n % 10);
        s.append(d);
        proof {
            assert(dec_str((n / 10) as nat).push(digit_char((n % 10) as nat)) =~= dec_str(
                (n / 10) as nat,
            ) + seq![digit_char((n % 10) as nat)]);
        }
        s
    }
}

fn unit_label_str(b: u64) -> (r: &'static str)
    ensures
        r@ == unit_label(b as nat),
{
    proof {
        reveal_strlit(" TB");
        reveal_strlit(" GB");
        reveal_strlit(" MB");
        reveal_strlit(" KB");
        reveal_strlit(" bytes");
        assert(" TB"@ =~= seq![' ', 'T', 'B']);
        assert(" GB"@ =~= seq![' ', 'G', 'B']);
        assert(" MB"@ =~= seq![' ', 'M', 'B']);
        assert(" KB"@ =~= seq![' ', 'K', 'B']);
        assert(" bytes"@ =~= seq![' ', 'b', 'y', 't', 'e', 's']);
    }
    if b >= TB {
        " TB"
    } else if b >= GB {
        " GB"
    } else if b >= MB {
        " MB"
    } else if b >= KB {
        " KB"
    } else {
        " bytes"
    }
}

/// Renders a byte count as a magnitude string, e.g. `1536` as `"1.50 KB"`.
pub fn format_memory_size(bytes: u64) -> (r: String)
    ensures
        r@ == format_spec(bytes as nat),
{
    let div: u64 = if bytes >= TB {
        TB
    } else if bytes >= GB {
        GB
    } else if bytes >= MB {
        MB
    } else if bytes >= KB {
        KB
    } else {
        1
    };
    let num: u128 = (bytes as u128) * 100;
    let q: u128 = num / (div as u128);
    let r: u128 = num % (div as u128);
    let h_wide: u128 = if 2 * r < div as u128 {
        q
    } else if 2 * r > div as u128 {
        q + 1
    } else if q % 2 == 0 {
        q
    } else {
        q + 1
    };
    proof {
        assert(div as nat == unit_div(bytes as nat));
        assert(h_wide as nat == magnitude_hundredths(bytes as nat));
        if div > 1 {
            assert((bytes as nat) * 100 / (div as nat) < u64::MAX - 1) by (nonlinear_arith)
                requires
                    div >= 1024,
                    bytes <= u64::MAX,
            ;
        } else {
            assert(bytes < 1024);
        }
        assert(h_wide <= q + 1);
    }
    let h: u64 = h_wide as u64;
    let mut s = u64_to_dec(h / 100);
    proof {
        reveal_strlit(".");
        assert("."@ =~= seq!['.']);
    }
    s.append(".");
    let d1 = digit_str((h / 10) % 10);
    s.append(d1);
    let d0 = digit_str(h % 10);
    s.append(d0);
    let label = unit_label_str(bytes);
    s.append(label);
    proof {
        assert(s@ =~= format_spec(bytes as nat));
    }
    s
}

/// Law: the formatter picks the unique largest unit in which the rendered
/// value reaches 1.00; below 1024 the count is always rendered in bytes.
pub proof fn lemma_unit_selection(b: nat)
    ensures
        unit_div(b) == 1 || unit_div(b) == KB || unit_div(b) == MB || unit_div(b) == GB
            || unit_div(b) == TB,
        b < KB ==> unit_div(b) == 1,
        magnitude_hundredths(b) >= 100 <==> b >= unit_div(b),
        unit_div(b) == TB || b < unit_div(b) * 1024,
{
    let d = unit_div(b);
    let n = b * 100;
    let q = n / d;
    assert(d >= 1);
    if b >= d {
        assert(n >= 100 * d) by (nonlinear_arith)
            requires
                b >= d,
                n == b * 100,
        ;
        assert(q >= 100) by (nonlinear_arith)
            requires
                d >= 1,
                n >= 100 * d,
                q == n / d,
        ;
        assert(magnitude_hundredths(b) >= q);
    } else {
        assert(d == 1);
        assert(b == 0);
        assert(magnitude_hundredths(b) == 0);
    }
}

/// Law: a rendered magnitude stays within half a hundredth of its unit of
/// the raw count: the displayed value, scaled back to hundredths of a
/// byte, differs from a hundredfold of the count by at most half the unit
/// divisor, in either direction.
pub proof fn lemma_magnitude_rounding_error(b: nat)
    ensures
        magnitude_hundredths(b) * unit_div(b) <= b * 100 + unit_div(b) / 2,
        b * 100 <= magnitude_hundredths(b) * unit_div(b) + unit_div(b) / 2,
{
    let d = unit_div(b);
    let n = b * 100;
    let q = n / d;
    let r = n % d;
    let h = magnitude_hundredths(b);
    assert(d >= 1);
    assert(d == 1 || d % 2 == 0);
    assert(n == d * q + r && r < d) by (nonlinear_arith)
        requires
            d >= 1,
            q == n / d,
            r == n % d,
    ;
    if h == q {
        assert(2 * r <= d);
        assert(h * d == d * q) by (nonlinear_arith)
            requires
                h == q,
        ;
        assert(h * d + r == n);
        assert(r <= d / 2);
    } else {
        assert(h == q + 1);
        assert(2 * r >= d);
        assert(h * d == d * q + d) by (nonlinear_arith)
            requires
                h == q + 1,
        ;
        assert(h * d == n - r + d);
        assert(d - r <= d / 2);
    }
}

} // verus!
