//! Rendering primitives: decimal and octal numerals and the lightweight
//! `<style>value</style>` markup notation handed to the rendering layer.

use vstd::prelude::*;
use crate::enums::SizeUnit;

verus! {

/// The character for a single digit value below ten (octal digits are a
/// subset).
pub open spec fn digit_char(d: nat) -> char {
    if d == 0 {
        '0'
    } else if d == 1 {
        '1'
    } else if d == 2 {
        '2'
    } else if d == 3 {
        '3'
    } else if d == 4 {
        '4'
    } else if d == 5 {
        '5'
    } else if d == 6 {
        '6'
    } else if d == 7 {
        '7'
    } else if d == 8 {
        '8'
    } else {
        '9'
    }
}

/// The decimal numeral for `n`, most significant digit first, no leading
/// zeros (except for `n == 0` itself).
pub open spec fn dec_str(n: nat) -> Seq<char>
    decreases n,
{
    if n < 10 {
        seq![digit_char(n)]
    } else {
        dec_str(n / 10).push(digit_char(n % 10))
    }
}

/// The octal numeral for `n`, most significant digit first, no leading
/// zeros (except for `n == 0` itself).
pub open spec fn oct_str(n: nat) -> Seq<char>
    decreases n,
{
    if n < 8 {
        seq![digit_char(n)]
    } else {
        oct_str(n / 8).push(digit_char(n % 8))
    }
}

/// A value wrapped in the markup notation: a style tag opened before the
/// value and the close tag after it.
pub open spec fn markup_of(style: Seq<char>, value: Seq<char>) -> Seq<char> {
    seq!['<'] + style + seq!['>'] + value + seq!['<', '/', '>']
}

/// The one-character string for a digit value below ten.
fn digit_literal(d: u64) -> (r: &'static str)
    requires
        d < 10,
    ensures
        r@ == seq![digit_char(d as nat)],
{
    proof {
        reveal_strlit("0");
        reveal_strlit("1");
        reveal_strlit("2");
        reveal_strlit("3");
        reveal_strlit("4");
        reveal_strlit("5");
        reveal_strlit("6");
        reveal_strlit("7");
        reveal_strlit("8");
        reveal_strlit("9");
    }
    let r: &'static str = if d == 0 {
        "0"
    } else if d == 1 {
        "1"
    } else if d == 2 {
        "2"
    } else if d == 3 {
        "3"
    } else if d == 4 {
        "4"
    } else if d == 5 {
        "5"
    } else if d == 6 {
        "6"
    } else if d == 7 {
        "7"
    } else if d == 8 {
        "8"
    } else {
        "9"
    };
    proof {
        assert(r@ =~= seq![digit_char(d as nat)]);
    }
    r
}

/// Render `n` as a decimal numeral.
pub fn u64_to_dec(n: u64) -> (r: String)
    ensures
        r@ == dec_str(n as nat),
    decreases n,
{
    if n < 10 {
        String::from_str(digit_literal(n))
    } else {
        let mut s = u64_to_dec(n / 10);
        s.append(digit_literal(n % 10));
        proof {
            assert(s@ =~= dec_str(n as nat));
        }
        s
    }
}

/// Render `n` as an octal numeral.
pub fn u64_to_oct(n: u64) -> (r: String)
    ensures
        r@ == oct_str(n as nat),
    decreases n,
{
    if n < 8 {
        String::from_str(digit_literal(n))
    } else {
        let mut s = u64_to_oct(n / 8);
        s.append(digit_literal(n % 8));
        proof {
            assert(s@ =~= oct_str(n as nat));
        }
        s
    }
}

/// Wrap `value` in the markup notation under the given style directives.
pub fn markup(style: &str, value: &str) -> (r: String)
    ensures
        r@ == markup_of(style@, value@),
{
    let mut s = String::from_str("<");
    s.append(style);
    s.append(">");
    s.append(value);
    s.append("</>");
    proof {
        reveal_strlit("<");
        reveal_strlit(">");
        reveal_strlit("</>");
        assert(s@ =~= markup_of(style@, value@));
    }
    s
}

/// The magnitude of `v` scaled into binary units: divided by 1024 until
/// it falls below one unit step, truncated toward zero.
pub open spec fn binary_scaled(v: nat) -> nat
    decreases v,
{
    if v < 1024 {
        v
    } else {
        binary_scaled(v / 1024)
    }
}

/// How many binary unit steps the scaling of `v` took.
pub open spec fn binary_steps(v: nat) -> nat
    decreases v,
{
    if v < 1024 {
        0
    } else {
        binary_steps(v / 1024) + 1
    }
}

/// The magnitude of `v` scaled into metric units: divided by 1000 until
/// it falls below one unit step, truncated toward zero.
pub open spec fn metric_scaled(v: nat) -> nat
    decreases v,
{
    if v < 1000 {
        v
    } else {
        metric_scaled(v / 1000)
    }
}

/// How many metric unit steps the scaling of `v` took.
pub open spec fn metric_steps(v: nat) -> nat
    decreases v,
{
    if v < 1000 {
        0
    } else {
        metric_steps(v / 1000) + 1
    }
}

/// The suffix of a binary unit step.
pub open spec fn binary_suffix(steps: nat) -> Seq<char> {
    if steps == 0 {
        seq!['B']
    } else if steps == 1 {
        seq!['K', 'i', 'B']
    } else if steps == 2 {
        seq!['M', 'i', 'B']
    } else if steps == 3 {
        seq!['G', 'i', 'B']
    } else if steps == 4 {
        seq!['T', 'i', 'B']
    } else if steps == 5 {
        seq!['P', 'i', 'B']
    } else {
        seq!['E', 'i', 'B']
    }
}

/// The suffix of a metric unit step.
pub open spec fn metric_suffix(steps: nat) -> Seq<char> {
    if steps == 0 {
        seq!['B']
    } else if steps == 1 {
        seq!['K', 'B']
    } else if steps == 2 {
        seq!['M', 'B']
    } else if steps == 3 {
        seq!['G', 'B']
    } else if steps == 4 {
        seq!['T', 'B']
    } else if steps == 5 {
        seq!['P', 'B']
    } else {
        seq!['E', 'B']
    }
}

/// The text a byte size renders as under the chosen unit system: the raw
/// decimal count, or the scaled magnitude with its unit suffix.
pub open spec fn size_text(v: nat, unit: SizeUnit) -> Seq<char> {
    match unit {
        SizeUnit::Bytes => dec_str(v),
        SizeUnit::Binary => dec_str(binary_scaled(v)) + binary_suffix(binary_steps(v)),
        SizeUnit::Metric => dec_str(metric_scaled(v)) + metric_suffix(metric_steps(v)),
    }
}

/// Scale `v` into binary units: the scaled magnitude and the step count.
/// Six divisions always suffice for a 64-bit count.
fn binary_scale(v: u64) -> (r: (u64, u64))
    ensures
        r.0 as nat == binary_scaled(v as nat),
        r.1 as nat == binary_steps(v as nat),
{
    let mut x = v;
    let mut s: u64 = 0;
    if x >= 1024 {
        x = x / 1024;
        s = s + 1;
    }
    proof {
        assert(binary_scaled(v as nat) == binary_scaled(x as nat));
        assert(binary_steps(v as nat) == binary_steps(x as nat) + s);
    }
    if x >= 1024 {
        x = x / 1024;
        s = s + 1;
    }
    proof {
        assert(binary_scaled(v as nat) == binary_scaled(x as nat));
        assert(binary_steps(v as nat) == binary_steps(x as nat) + s);
    }
    if x >= 1024 {
        x = x / 1024;
        s = s + 1;
    }
    proof {
        assert(binary_scaled(v as nat) == binary_scaled(x as nat));
        assert(binary_steps(v as nat) == binary_steps(x as nat) + s);
    }
    if x >= 1024 {
        x = x / 1024;
        s = s + 1;
    }
    proof {
        assert(binary_scaled(v as nat) == binary_scaled(x as nat));
        assert(binary_steps(v as nat) == binary_steps(x as nat) + s);
    }
    if x >= 1024 {
        x = x / 1024;
        s = s + 1;
    }
    proof {
        assert(binary_scaled(v as nat) == binary_scaled(x as nat));
        assert(binary_steps(v as nat) == binary_steps(x as nat) + s);
    }
    if x >= 1024 {
        x = x / 1024;
        s = s + 1;
    }
    proof {
        assert(binary_scaled(v as nat) == binary_scaled(x as nat));
        assert(binary_steps(v as nat) == binary_steps(x as nat) + s);
    }
    proof {
        assert(x < 1024);
    }
    (x, s)
}

/// Scale `v` into metric units: the scaled magnitude and the step count.
fn metric_scale(v: u64) -> (r: (u64, u64))
    ensures
        r.0 as nat == metric_scaled(v as nat),
        r.1 as nat == metric_steps(v as nat),
{
    let mut x = v;
    let mut s: u64 = 0;
    if x >= 1000 {
        x = x / 1000;
        s = s + 1;
    }
    proof {
        assert(metric_scaled(v as nat) == metric_scaled(x as nat));
        assert(metric_steps(v as nat) == metric_steps(x as nat) + s);
    }
    if x >= 1000 {
        x = x / 1000;
        s = s + 1;
    }
    proof {
        assert(metric_scaled(v as nat) == metric_scaled(x as nat));
        assert(metric_steps(v as nat) == metric_steps(x as nat) + s);
    }
    if x >= 1000 {
        x = x / 1000;
        s = s + 1;
    }
    proof {
        assert(metric_scaled(v as nat) == metric_scaled(x as nat));
        assert(metric_steps(v as nat) == metric_steps(x as nat) + s);
    }
    if x >= 1000 {
        x = x / 1000;
        s = s + 1;
    }
    proof {
        assert(metric_scaled(v as nat) == metric_scaled(x as nat));
        assert(metric_steps(v as nat) == metric_steps(x as nat) + s);
    }
    if x >= 1000 {
        x = x / 1000;
        s = s + 1;
    }
    proof {
        assert(metric_scaled(v as nat) == metric_scaled(x as nat));
        assert(metric_steps(v as nat) == metric_steps(x as nat) + s);
    }
    if x >= 1000 {
        x = x / 1000;
        s = s + 1;
    }
    proof {
        assert(metric_scaled(v as nat) == metric_scaled(x as nat));
        assert(metric_steps(v as nat) == metric_steps(x as nat) + s);
    }
    proof {
        assert(x < 1000);
    }
    (x, s)
}

/// The suffix of a binary unit step, as a string.
fn binary_suffix_str(steps: u64) -> (r: &'static str)
    ensures
        r@ == binary_suffix(steps as nat),
{
    proof {
        reveal_strlit("B");
        reveal_strlit("KiB");
        reveal_strlit("MiB");
        reveal_strlit("GiB");
        reveal_strlit("TiB");
        reveal_strlit("PiB");
        reveal_strlit("EiB");
    }
    let r: &'static str = if steps == 0 {
        "B"
    } else if steps == 1 {
        "KiB"
    } else if steps == 2 {
        "MiB"
    } else if steps == 3 {
        "GiB"
    } else if steps == 4 {
        "TiB"
    } else if steps == 5 {
        "PiB"
    } else {
        "EiB"
    };
    proof {
        assert(r@ =~= binary_suffix(steps as nat));
    }
    r
}

/// The suffix of a metric unit step, as a string.
fn metric_suffix_str(steps: u64) -> (r: &'static str)
    ensures
        r@ == metric_suffix(steps as nat),
{
    proof {
        reveal_strlit("B");
        reveal_strlit("KB");
        reveal_strlit("MB");
        reveal_strlit("GB");
        reveal_strlit("TB");
        reveal_strlit("PB");
        reveal_strlit("EB");
    }
    let r: &'static str = if steps == 0 {
        "B"
    } else if steps == 1 {
        "KB"
    } else if steps == 2 {
        "MB"
    } else if steps == 3 {
        "GB"
    } else if steps == 4 {
        "TB"
    } else if steps == 5 {
        "PB"
    } else {
        "EB"
    };
    proof {
        assert(r@ =~= metric_suffix(steps as nat));
    }
    r
}

/// Render a byte size under the chosen unit system.
pub fn render_size(v: u64, unit: SizeUnit) -> (r: String)
    ensures
        r@ == size_text(v as nat, unit),
{
    match unit {
        SizeUnit::Bytes => u64_to_dec(v),
        SizeUnit::Binary => {
            let (x, steps) = binary_scale(v);
            let mut t = u64_to_dec(x);
            t.append(binary_suffix_str(steps));
            t
        },
        SizeUnit::Metric => {
            let (x, steps) = metric_scale(v);
            let mut t = u64_to_dec(x);
            t.append(metric_suffix_str(steps));
            t
        },
    }
}

/// Wrap a decimal rendering of `n` in the markup notation.
pub fn markup_dec(style: &str, n: u64) -> (r: String)
    ensures
        r@ == markup_of(style@, dec_str(n as nat)),
{
    let value = u64_to_dec(n);
    markup(style, value.as_str())
}

} // verus!
