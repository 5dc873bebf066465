//! Compact numeric formatting and the small deterministic choices made from
//! values: elapsed time, token counts, bar glyphs, colour tiers and icons.

use vstd::prelude::*;
use vstd::utf8::encode_utf8;
use crate::text::dec;
use crate::text::dec2;
use crate::text::push_char;
use crate::text::push_decimal;
use crate::text::push_decimal2;

verus! {

/// `<s>s` under a minute, `<m>m <ss>s` under an hour, `<h>h <mm>m <ss>s`
/// otherwise.
pub open spec fn elapsed_text(secs: nat) -> Seq<char> {
    if secs < 60 {
        dec(secs).push('s')
    } else if secs < 3600 {
        dec(secs / 60) + seq!['m', ' '] + dec2(secs % 60) + seq!['s']
    } else {
        dec(secs / 3600) + seq!['h', ' '] + dec2((secs % 3600) / 60) + seq!['m', ' '] + dec2(
            secs % 60,
        ) + seq!['s']
    }
}

/// Formats a number of elapsed seconds compactly.
pub fn format_elapsed_compact(elapsed_secs: u64) -> (r: String)
    ensures
        r@ == elapsed_text(elapsed_secs as nat),
{
    let mut r = String::new();
    if elapsed_secs < 60 {
        push_decimal(&mut r, elapsed_secs);
        push_char(&mut r, 's');
    } else if elapsed_secs < 3600 {
        push_decimal(&mut r, elapsed_secs / 60);
        push_char(&mut r, 'm');
        push_char(&mut r, ' ');
        push_decimal2(&mut r, elapsed_secs % 60);
        push_char(&mut r, 's');
    } else {
        push_decimal(&mut r, elapsed_secs / 3600);
        push_char(&mut r, 'h');
        push_char(&mut r, ' ');
        push_decimal2(&mut r, (elapsed_secs % 3600) / 60);
        push_char(&mut r, 'm');
        push_char(&mut r, ' ');
        push_decimal2(&mut r, elapsed_secs % 60);
        push_char(&mut r, 's');
    }
    assert(r@ =~= elapsed_text(elapsed_secs as nat));
    r
}

/// `n / d` rounded to the nearest integer, ties to even.
pub open spec fn round_div(n: nat, d: nat) -> nat
    recommends
        d > 0,
{
    let q = n / d;
    let r = n % d;
    if 2 * r > d || (2 * r == d && q % 2 == 1) {
        q + 1
    } else {
        q
    }
}

/// The scale of a count of at least a thousand: 10^3, 10^6, 10^9 or 10^12.
pub open spec fn token_scale(n: nat) -> nat {
    if n >= 1_000_000_000_000 {
        1_000_000_000_000
    } else if n >= 1_000_000_000 {
        1_000_000_000
    } else if n >= 1_000_000 {
        1_000_000
    } else {
        1_000
    }
}

pub open spec fn token_unit(n: nat) -> char {
    if n >= 1_000_000_000_000 {
        'T'
    } else if n >= 1_000_000_000 {
        'B'
    } else if n >= 1_000_000 {
        'M'
    } else {
        'k'
    }
}

/// `n / d` rounded to the nearest integer, halves up.
pub open spec fn round_half_up(n: nat, d: nat) -> nat
    recommends
        d > 0,
{
    if 2 * (n % d) >= d { n / d + 1 } else { n / d }
}

/// Token counts: verbatim under a thousand, else scaled to k, M, B or T with
/// one decimal (halves rounded up), where a decimal of zero is left out.
/// Negative counts show as zero.
pub open spec fn token_count_text(value: int) -> Seq<char> {
    let n: nat = if value < 0 { 0 } else { value as nat };
    if n < 1000 {
        dec(n)
    } else {
        let tenths = round_half_up(n, token_scale(n) / 10);
        let whole = dec(tenths / 10);
        let frac = if tenths % 10 == 0 { Seq::<char>::empty() } else { seq!['.', crate::text::digit_char(tenths % 10)] };
        whole + frac + seq![token_unit(n)]
    }
}

/// Formats a token count compactly (`999`, `1k`, `1.5M`).
pub fn format_token_count(value: i64) -> (r: String)
    ensures
        r@ == token_count_text(value as int),
{
    let n: u64 = if value < 0 { 0 } else { value as u64 };
    let mut r = String::new();
    if n < 1000 {
        push_decimal(&mut r, n);
        return r;
    }
    let (scale, unit): (u64, char) = if n >= 1_000_000_000_000 {
        (1_000_000_000_000, 'T')
    } else if n >= 1_000_000_000 {
        (1_000_000_000, 'B')
    } else if n >= 1_000_000 {
        (1_000_000, 'M')
    } else {
        (1_000, 'k')
    };
    let d = scale / 10;
    let q = n / d;
    let rem = n % d;
    let tenths: u64 = if rem >= d - rem { q + 1 } else { q };
    assert(tenths == round_half_up(n as nat, token_scale(n as nat) / 10));
    push_decimal(&mut r, tenths / 10);
    if tenths % 10 != 0 {
        push_char(&mut r, '.');
        push_decimal(&mut r, tenths % 10);
        assert(dec((tenths % 10) as nat) =~= seq![crate::text::digit_char((tenths % 10) as nat)]);
    }
    push_char(&mut r, unit);
    assert(r@ =~= token_count_text(value as int));
    r
}

/// Glyphs of the context bar.
pub open spec fn progress_glyph(position: nat, fill_width: nat, filled: nat) -> char {
    if position == 0 {
        if filled > 0 { '\u{ee03}' } else { '\u{ee00}' }
    } else if fill_width > 0 && position == fill_width - 1 {
        if position < filled { '\u{ee05}' } else { '\u{ee02}' }
    } else if position < filled {
        '\u{ee04}'
    } else {
        '\u{ee01}'
    }
}

/// The bar glyph at `position`: a rounded left end, a middle cell or a
/// rounded right end, full below `filled_width` and empty from there.
pub fn select_progress_char(position: usize, fill_width: usize, filled_width: usize) -> (r: char)
    ensures
        r == progress_glyph(position as nat, fill_width as nat, filled_width as nat),
{
    if position == 0 {
        if filled_width > 0 { '\u{ee03}' } else { '\u{ee00}' }
    } else if fill_width > 0 && position == fill_width - 1 {
        if position < filled_width { '\u{ee05}' } else { '\u{ee02}' }
    } else if position < filled_width {
        '\u{ee04}'
    } else {
        '\u{ee01}'
    }
}

/// Colour tier of the context bar for a usage given in hundredths of a
/// percent: 1 up to 60%, 2 up to 80%, 3 up to 92%, 4 above.
pub open spec fn tier_of(percent_used_centi: nat) -> u8 {
    if percent_used_centi <= 6000 {
        1
    } else if percent_used_centi <= 8000 {
        2
    } else if percent_used_centi <= 9200 {
        3
    } else {
        4
    }
}

/// The colour tier for a usage in hundredths of a percent.
pub fn context_tier(percent_used_centi: u32) -> (r: u8)
    ensures
        r == tier_of(percent_used_centi as nat),
{
    if percent_used_centi <= 6000 {
        1
    } else if percent_used_centi <= 8000 {
        2
    } else if percent_used_centi <= 9200 {
        3
    } else {
        4
    }
}

pub const MODULUS_64: u128 = 0x1_0000_0000_0000_0000;

/// Multiply-accumulate hash of a byte string, modulo 2^64.
pub open spec fn label_hash(bytes: Seq<u8>, prime: nat) -> nat
    decreases bytes.len(),
{
    if bytes.len() == 0 {
        0
    } else {
        (label_hash(bytes.drop_last(), prime) * prime + bytes.last() as nat) % (MODULUS_64 as nat)
    }
}

fn hash_bytes(bytes: &[u8], prime: u64) -> (r: u64)
    requires
        prime < 1000,
    ensures
        r as nat == label_hash(bytes@, prime as nat),
{
    let mut h: u64 = 0;
    let mut i: usize = 0;
    while i < bytes.len()
        invariant
            prime < 1000,
            i <= bytes@.len(),
            h as nat == label_hash(bytes@.take(i as int), prime as nat),
        decreases bytes.len() - i,
    {
        proof {
            assert(bytes@.take(i + 1).drop_last() =~= bytes@.take(i as int));
            assert((h as nat) * (prime as nat) <= 0xFFFF_FFFF_FFFF_FFFFnat * 1000) by (nonlinear_arith)
                requires h <= 0xFFFF_FFFF_FFFF_FFFFu64, prime < 1000;
        }
        let product: u128 = h as u128 * prime as u128;
        let next: u128 = (product + bytes[i] as u128) % MODULUS_64;
        h = next as u64;
        i += 1;
    }
    assert(bytes@.take(bytes@.len() as int) =~= bytes@);
    h
}

pub open spec fn model_icon_at(i: nat) -> char {
    if i == 0 { '\u{f06a9}' } else if i == 1 { '\u{f169d}' } else if i == 2 { '\u{f169f}' }
    else if i == 3 { '\u{f16a1}' } else if i == 4 { '\u{f16a3}' } else { '\u{f16a5}' }
}

/// The model icon: one of six, picked by a hash of the label's UTF-8 bytes.
pub open spec fn model_icon(label: Seq<char>) -> char {
    model_icon_at(label_hash(encode_utf8(label), 131) % 6)
}

/// Picks the icon shown beside a model label; stable for a given label.
pub fn select_model_icon(model: &str) -> (r: char)
    ensures
        r == model_icon(model@),
{
    let h = hash_bytes(model.as_bytes(), 131);
    let i = h % 6;
    if i == 0 { '\u{f06a9}' } else if i == 1 { '\u{f169d}' } else if i == 2 { '\u{f169f}' }
    else if i == 3 { '\u{f16a1}' } else if i == 4 { '\u{f16a3}' } else { '\u{f16a5}' }
}

pub open spec fn devspace_icon_at(i: nat) -> char {
    if i == 0 { '\u{f0816}' } else if i == 1 { '\u{f0836}' } else if i == 2 { '\u{f02e9}' } else { '\u{f068c}' }
}

/// The dev-environment icon: one of four, picked by a hash of the name.
pub open spec fn devspace_glyph(name: Seq<char>) -> char {
    devspace_icon_at(label_hash(encode_utf8(name), 167) % 4)
}

/// Picks the icon shown beside a dev-environment name.
pub fn devspace_icon(name: &str) -> (r: char)
    ensures
        r == devspace_glyph(name@),
{
    let h = hash_bytes(name.as_bytes(), 167);
    let i = h % 4;
    if i == 0 { '\u{f0816}' } else if i == 1 { '\u{f0836}' } else if i == 2 { '\u{f02e9}' } else { '\u{f068c}' }
}

} // verus!
