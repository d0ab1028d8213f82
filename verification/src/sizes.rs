//! Human-readable file sizes: bytes scaled to KB, MB or GB with one
//! decimal digit, rounding to nearest and ties to even.

use vstd::prelude::*;

use crate::text::dec_digit;
use crate::text::dec_rep;
use crate::text::dec_string;
use crate::text::push_char;

verus! {

/// Ten times `n / unit`, rounded to the nearest integer with ties to
/// even: the scaled size in tenths of a unit.
pub open spec fn rounded_tenths(n: nat, unit: nat) -> nat
    recommends
        unit > 0,
{
    let q = (10 * n) / unit;
    let r = (10 * n) % unit;
    if 2 * r > unit {
        q + 1
    } else if 2 * r < unit {
        q
    } else {
        q + q % 2
    }
}

/// `n / unit` printed with one decimal digit.
pub open spec fn scaled_rep(n: nat, unit: nat) -> Seq<char>
    recommends
        unit > 0,
{
    let t = rounded_tenths(n, unit);
    dec_rep(t / 10) + "."@ + seq![dec_digit((t % 10) as int)]
}

/// What `format_file_size` prints: a byte count below 1024 as `B`, and
/// otherwise the size scaled to KB, MB or GB with one decimal digit.
pub open spec fn spec_format_size(bytes: nat) -> Seq<char> {
    if bytes < 1024 {
        dec_rep(bytes) + " B"@
    } else if bytes < 1048576 {
        scaled_rep(bytes, 1024) + " KB"@
    } else if bytes < 1073741824 {
        scaled_rep(bytes, 1048576) + " MB"@
    } else {
        scaled_rep(bytes, 1073741824) + " GB"@
    }
}

/// Renders `bytes / unit` with one decimal digit, verified against
/// `scaled_rep`.
fn scaled_string(bytes: u64, unit: u64) -> (r: String)
    requires
        1024 <= unit,
    ensures
        r@ == scaled_rep(bytes as nat, unit as nat),
{
    let n10: u128 = (bytes as u128) * 10;
    let u: u128 = unit as u128;
    let q = n10 / u;
    let rem = n10 % u;
    let t: u128 = if 2 * rem > u {
        q + 1
    } else if 2 * rem < u {
        q
    } else {
        q + q % 2
    };
    proof {
        assert(t == rounded_tenths(bytes as nat, unit as nat));
        vstd::arithmetic::div_mod::lemma_div_is_ordered_by_denominator(
            n10 as int,
            1024,
            u as int,
        );
        assert(q <= n10 / 1024);
        assert(t <= n10 / 1024 + 1);
    }
    let whole = t / 10;
    let tenth = t % 10;
    let mut r = dec_string(whole as u64);
    push_char(&mut r, '.');
    push_char(&mut r, crate::text::dec_digit_exec((tenth as u64) % 10));
    proof {
        let tn = t as nat;
        assert(r@ =~= dec_rep(tn / 10) + "."@ + seq![dec_digit((tn % 10) as int)]) by {
            assert(dec_rep(tn / 10).push('.') =~= dec_rep(tn / 10) + "."@) by {
                reveal_strlit(".");
            }
        }
    }
    r
}

/// Formats a byte count for display, verified against
/// `spec_format_size`.
pub fn format_file_size(bytes: u64) -> (r: String)
    ensures
        r@ == spec_format_size(bytes as nat),
{
    if bytes < 1024 {
        let mut r = dec_string(bytes);
        r.append(" B");
        r
    } else if bytes < 1048576 {
        let mut r = scaled_string(bytes, 1024);
        r.append(" KB");
        r
    } else if bytes < 1073741824 {
        let mut r = scaled_string(bytes, 1048576);
        r.append(" MB");
        r
    } else {
        let mut r = scaled_string(bytes, 1073741824);
        r.append(" GB");
        r
    }
}

} // verus!
