//! SummaryTableRenderer: the fixed 3-row statistics panel, and the verified
//! decimal formatting its values (and the price-axis labels) use.
//!
//! The table reports the current price (the last candle's close), the
//! highest visible price (the maximum high over all rendered candles), and
//! the percentage the current price sits below that high, guarded against a
//! non-positive high. The current-price row is tinted with the last candle's
//! direction color; the other rows are neutral.

use vstd::prelude::*;
use vstd::string::StrSliceExecFns;
use vstd::string::StringExecFns;
use crate::color::Rgb;
use crate::model::{Candle, PRICE_UNITS_PER_WHOLE};
use crate::layout::{Region, region_wf};
use crate::scene::Primitive;

verus! {

/// The decimal digit character for `d` (`0 <= d <= 9`).
pub open spec fn digit_char(d: int) -> char {
    if d == 0 {
        '0'
    } else if d == 1 {
        '1'
    } else if d == 2 {
        '2'
    } else if d == 3 {
        '3'
    } else if d == 4 {
        '4'
    } else if d == 5 {
        '5'
    } else if d == 6 {
        '6'
    } else if d == 7 {
        '7'
    } else if d == 8 {
        '8'
    } else {
        '9'
    }
}

/// Decimal digits of `n`, most significant first, no leading zeros (a lone
/// zero for `n == 0`).
pub open spec fn dec_digits(n: nat) -> Seq<char>
    decreases n,
{
    if n < 10 {
        seq![digit_char(n as int)]
    } else {
        dec_digits(n / 10) + seq![digit_char((n % 10) as int)]
    }
}

/// Exactly three decimal digits of `n < 1000`, zero-padded.
pub open spec fn pad3_digits(n: nat) -> Seq<char> {
    seq![
        digit_char((n / 100) as int),
        digit_char(((n / 10) % 10) as int),
        digit_char((n % 10) as int),
    ]
}

/// Exactly two decimal digits of `n < 100`, zero-padded.
pub open spec fn pad2_digits(n: nat) -> Seq<char> {
    seq![digit_char((n / 10) as int), digit_char((n % 10) as int)]
}

/// Decimal digits of `n` grouped in threes from the right with commas.
pub open spec fn grouped_dec(n: nat) -> Seq<char>
    decreases n,
{
    if n < 1000 {
        dec_digits(n)
    } else {
        grouped_dec(n / 1000) + seq![','] + pad3_digits(n % 1000)
    }
}

/// A dollar amount: `$` followed by the comma-grouped digits.
pub open spec fn dollar_text(n: nat) -> Seq<char> {
    seq!['$'] + grouped_dec(n)
}

/// A percentage with two decimals from basis points: optional sign, whole
/// percent digits, a point, two fraction digits, and `%`.
pub open spec fn percent_text(bp: int) -> Seq<char> {
    let a = (if bp < 0 {
        -bp
    } else {
        bp
    }) as nat;
    (if bp < 0 {
        seq!['-']
    } else {
        Seq::<char>::empty()
    }) + dec_digits(a / 100) + seq!['.'] + pad2_digits(a % 100) + seq!['%']
}

fn digit_str(d: u64) -> (s: &'static str)
    requires
        d < 10,
    ensures
        s@ == seq![digit_char(d as int)],
{
    let r: &'static str = if d == 0 {
        "0"
    } else if d == 1 {
        "1"
    } else if d == 2 {
        "2"
    } else if d == 3 {
        "3"
    } else if d == 4 {
        "4"
    } else if d == 5 {
        "5"
    } else if d == 6 {
        "6"
    } else if d == 7 {
        "7"
    } else if d == 8 {
        "8"
    } else {
        "9"
    };
    proof {
        reveal_strlit("0");
        reveal_strlit("1");
        reveal_strlit("2");
        reveal_strlit("3");
        reveal_strlit("4");
        reveal_strlit("5");
        reveal_strlit("6");
        reveal_strlit("7");
        reveal_strlit("8");
        reveal_strlit("9");
    }
    r
}

/// The decimal representation of `n`, no leading zeros.
pub fn dec_str(n: u64) -> (s: String)
    ensures
        s@ == dec_digits(n as nat),
    decreases n,
{
    if n < 10 {
        digit_str(n).to_owned()
    } else {
        let mut s = dec_str(n / 10);
        s.append(digit_str(n % 10));
        s
    }
}

fn dec_str_u128(n: u128) -> (s: String)
    ensures
        s@ == dec_digits(n as nat),
    decreases n,
{
    if n < 10 {
        digit_str(n as u64).to_owned()
    } else {
        let mut s = dec_str_u128(n / 10);
        s.append(digit_str((n % 10) as u64));
        s
    }
}

fn pad3_str(n: u64) -> (s: String)
    requires
        n < 1000,
    ensures
        s@ == pad3_digits(n as nat),
{
    let mut s = digit_str(n / 100).to_owned();
    s.append(digit_str((n / 10) % 10));
    s.append(digit_str(n % 10));
    s
}

/// The decimal representation of `n` with its digits grouped in threes from
/// the right by commas.
pub fn format_with_commas(n: u64) -> (s: String)
    ensures
        s@ == grouped_dec(n as nat),
    decreases n,
{
    if n < 1000 {
        dec_str(n)
    } else {
        let mut s = format_with_commas(n / 1000);
        s.append(",");
        proof {
            reveal_strlit(",");
        }
        let tail = pad3_str(n % 1000);
        s.append(tail.as_str());
        s
    }
}

/// `$` followed by the comma-grouped decimal representation of `n`.
pub fn dollar_label(n: u64) -> (s: String)
    ensures
        s@ == dollar_text(n as nat),
{
    let mut s = "$".to_owned();
    proof {
        reveal_strlit("$");
    }
    let tail = format_with_commas(n);
    s.append(tail.as_str());
    s
}

/// A price in micro-units rounded half-up to whole units.
pub open spec fn spec_round_units(u: u64) -> int {
    (u + PRICE_UNITS_PER_WHOLE / 2) / (PRICE_UNITS_PER_WHOLE as int)
}

/// Rounds a fixed-point price to whole units, half up.
pub fn round_units(u: u64) -> (r: u64)
    ensures
        r == spec_round_units(u),
{
    proof {
        vstd::arithmetic::div_mod::lemma_div_pos_is_pos(
            u + PRICE_UNITS_PER_WHOLE / 2,
            PRICE_UNITS_PER_WHOLE as int,
        );
        vstd::arithmetic::div_mod::lemma_div_is_ordered(
            u + PRICE_UNITS_PER_WHOLE / 2,
            u64::MAX as int + PRICE_UNITS_PER_WHOLE / 2,
            PRICE_UNITS_PER_WHOLE as int,
        );
    }
    (((u as u128) + (PRICE_UNITS_PER_WHOLE as u128) / 2) / (PRICE_UNITS_PER_WHOLE as u128)) as u64
}

/// An axis price label value rounded to the granularity of its magnitude:
/// to 500s at or above 100,000, to 100s at or above 10,000, to 50s at or
/// above 1,000, else to 10s; half up.
pub open spec fn spec_round_price_label(p: int) -> int {
    if p >= 100_000 {
        (p + 250) / 500 * 500
    } else if p >= 10_000 {
        (p + 50) / 100 * 100
    } else if p >= 1_000 {
        (p + 25) / 50 * 50
    } else {
        (p + 5) / 10 * 10
    }
}

/// Rounds a whole-unit price for a price-axis tick label.
pub fn round_price_label(p: u64) -> (r: u64)
    requires
        p <= 100_000_000_000_000_000,
    ensures
        r == spec_round_price_label(p as int),
{
    if p >= 100_000 {
        let q = (p + 250) / 500;
        proof {
            vstd::arithmetic::div_mod::lemma_div_is_ordered(
                p + 250,
                100_000_000_000_000_000int + 250,
                500,
            );
        }
        q * 500
    } else if p >= 10_000 {
        (p + 50) / 100 * 100
    } else if p >= 1_000 {
        (p + 25) / 50 * 50
    } else {
        (p + 5) / 10 * 10
    }
}

/// Percent distance of the current price below the highest visible price,
/// in basis points (hundredths of a percent): zero when the high is not
/// positive, negative when the current price exceeds the high.
pub open spec fn spec_percent_from_high_bp(cur: u64, high: u64) -> int {
    if high == 0 {
        0
    } else if cur <= high {
        (high - cur) * 10000 / (high as int)
    } else {
        -((cur - high) * 10000 / (high as int))
    }
}

/// Computes the percent-from-high in basis points.
pub fn percent_from_high_bp(cur: u64, high: u64) -> (bp: i128)
    ensures
        bp == spec_percent_from_high_bp(cur, high),
        -200_000_000_000_000_000_000_000 <= bp <= 10000,
{
    if high == 0 {
        0
    } else if cur <= high {
        let d = (high - cur) as u128;
        proof {
            vstd::arithmetic::div_mod::lemma_div_pos_is_pos((high - cur) * 10000, high as int);
            vstd::arithmetic::mul::lemma_mul_inequality(
                (high - cur) as int,
                high as int,
                10000,
            );
            assert((high as int) * 10000 == 10000 * (high as int)) by (nonlinear_arith);
            vstd::arithmetic::div_mod::lemma_multiply_divide_le(
                (high - cur) * 10000,
                high as int,
                10000,
            );
        }
        ((d * 10000) / (high as u128)) as i128
    } else {
        let d = (cur - high) as u128;
        proof {
            vstd::arithmetic::div_mod::lemma_div_pos_is_pos((cur - high) * 10000, high as int);
            vstd::arithmetic::div_mod::lemma_div_is_ordered(
                (cur - high) * 10000,
                u64::MAX as int * 10000,
                high as int,
            );
            vstd::arithmetic::mul::lemma_mul_inequality((cur - high) as int, u64::MAX as int, 10000);
        }
        let q = (d * 10000) / (high as u128);
        -(q as i128)
    }
}

/// The percent-from-high is never negative while the current price does not
/// exceed the highest visible price, and is exactly zero when the two are
/// equal and positive.
pub proof fn lemma_percent_from_high(cur: u64, high: u64)
    requires
        cur <= high,
    ensures
        spec_percent_from_high_bp(cur, high) >= 0,
        cur == high ==> spec_percent_from_high_bp(cur, high) == 0,
{
    if high != 0 {
        vstd::arithmetic::div_mod::lemma_div_pos_is_pos((high - cur) * 10000, high as int);
        if cur == high {
            assert((high - cur) * 10000 == 0);
            vstd::arithmetic::div_mod::lemma_div_of0(high as int);
        }
    }
}

/// The formatted percentage, two decimals, signed.
pub fn percent_str(bp: i128) -> (s: String)
    requires
        -200_000_000_000_000_000_000_000 <= bp <= 200_000_000_000_000_000_000_000,
    ensures
        s@ == percent_text(bp as int),
{
    let a: u128 = if bp < 0 {
        (-bp) as u128
    } else {
        bp as u128
    };
    let mut s = if bp < 0 {
        let m = "-".to_owned();
        proof {
            reveal_strlit("-");
        }
        m
    } else {
        let m = "".to_owned();
        proof {
            reveal_strlit("");
        }
        m
    };
    let whole = dec_str_u128(a / 100);
    s.append(whole.as_str());
    s.append(".");
    proof {
        reveal_strlit(".");
    }
    let frac = (a % 100) as u64;
    s.append(digit_str(frac / 10));
    s.append(digit_str(frac % 10));
    s.append("%");
    proof {
        reveal_strlit("%");
        assert(s@ =~= percent_text(bp as int));
    }
    s
}

/// The maximum high over a candle sequence: it bounds every high and is
/// attained.
pub open spec fn is_max_high(cs: Seq<Candle>, h: u64) -> bool {
    &&& forall|i: int| 0 <= i < cs.len() ==> #[trigger] cs[i].high <= h
    &&& exists|i: int| 0 <= i < cs.len() && #[trigger] cs[i].high == h
}

/// The highest visible price: the maximum high over all rendered candles.
pub fn highest_visible(cs: &Vec<Candle>) -> (h: u64)
    requires
        cs@.len() > 0,
    ensures
        is_max_high(cs@, h),
{
    let mut h = cs[0].high;
    let mut i: usize = 1;
    while i < cs.len()
        invariant
            1 <= i <= cs@.len(),
            forall|k: int| 0 <= k < i ==> #[trigger] cs@[k].high <= h,
            exists|k: int| 0 <= k < i && #[trigger] cs@[k].high == h,
        decreases cs@.len() - i,
    {
        if cs[i].high > h {
            h = cs[i].high;
        }
        i = i + 1;
    }
    h
}

// ─── The table layer ────────────────────────────────────────────────────

/// Vertical center of table row `i` (three evenly spaced rows).
pub open spec fn spec_row_y(r: Region, i: int) -> int {
    r.y + r.h * (2 * i + 1) / 6
}

/// X position of the label column.
pub open spec fn spec_label_x(r: Region) -> int {
    r.x + 8
}

/// X position of the value column.
pub open spec fn spec_value_x(r: Region) -> int {
    r.x + r.w / 2
}

/// Neutral text color of the table.
pub open spec fn spec_table_text() -> Rgb {
    Rgb { r: 60, g: 60, b: 60 }
}

/// Background color of the table band.
pub open spec fn spec_table_bg() -> Rgb {
    Rgb { r: 248, g: 248, b: 248 }
}

/// `pr` is a text primitive with exactly these fields.
pub open spec fn is_text_prim(
    pr: Primitive,
    x: int,
    y: int,
    font_size: int,
    color: Rgb,
    content: Seq<char>,
) -> bool {
    pr matches Primitive::Text { x: px, y: py, font_size: pf, color: pc, content: pt }
        && px == x && py == y && pf == font_size && pc == color && pt@ == content
}

/// The seven primitives of the summary layer: the background, then per row
/// a label and a value. The current-price value is tinted with the
/// direction color `dir`; prices are rounded to whole units and
/// dollar-formatted; the percent row formats `bp` basis points.
pub open spec fn summary_layer_ok(
    prims: Seq<Primitive>,
    r: Region,
    dir: Rgb,
    cur: u64,
    high: u64,
    bp: int,
) -> bool {
    &&& prims.len() == 7
    &&& prims[0] == (Primitive::Rect {
        x0: r.x,
        y0: r.y,
        x1: (r.x + r.w) as i64,
        y1: (r.y + r.h) as i64,
        color: spec_table_bg(),
        alpha_pct: 100u8,
    })
    &&& is_text_prim(
        prims[1],
        spec_label_x(r),
        spec_row_y(r, 0),
        14,
        spec_table_text(),
        "Current Price"@,
    )
    &&& is_text_prim(
        prims[2],
        spec_value_x(r),
        spec_row_y(r, 0),
        14,
        dir,
        dollar_text(spec_round_units(cur) as nat),
    )
    &&& is_text_prim(
        prims[3],
        spec_label_x(r),
        spec_row_y(r, 1),
        14,
        spec_table_text(),
        "High (in plot)"@,
    )
    &&& is_text_prim(
        prims[4],
        spec_value_x(r),
        spec_row_y(r, 1),
        14,
        spec_table_text(),
        dollar_text(spec_round_units(high) as nat),
    )
    &&& is_text_prim(
        prims[5],
        spec_label_x(r),
        spec_row_y(r, 2),
        14,
        spec_table_text(),
        "% from High"@,
    )
    &&& is_text_prim(
        prims[6],
        spec_value_x(r),
        spec_row_y(r, 2),
        14,
        spec_table_text(),
        percent_text(bp),
    )
}

fn row_y(r: &Region, i: u64) -> (y: i64)
    requires
        region_wf(*r),
        i < 3,
    ensures
        y == spec_row_y(*r, i as int),
{
    proof {
        vstd::arithmetic::div_mod::lemma_div_pos_is_pos(r.h * (2 * i + 1), 6);
        vstd::arithmetic::mul::lemma_mul_upper_bound(
            r.h as int,
            crate::layout::PIXEL_MAX as int,
            2 * i + 1,
            5,
        );
        vstd::arithmetic::div_mod::lemma_div_nonincreasing(r.h * (2 * i + 1), 6);
    }
    r.y + (((r.h as u64) * (2 * i + 1)) / 6) as i64
}

/// Appends the summary-table layer: computes the three rows from the
/// current price, the highest visible price and the percent-from-high basis
/// points, and draws them over a neutral background.
pub fn push_summary(
    out: &mut Vec<Primitive>,
    r: &Region,
    dir: Rgb,
    cur: u64,
    high: u64,
    bp: i128,
)
    requires
        region_wf(*r),
        -200_000_000_000_000_000_000_000 <= bp <= 10000,
    ensures
        final(out)@.len() == old(out)@.len() + 7,
        final(out)@.take(old(out)@.len() as int) == old(out)@,
        summary_layer_ok(
            final(out)@.skip(old(out)@.len() as int),
            *r,
            dir,
            cur,
            high,
            bp as int,
        ),
{
    let bg = Primitive::Rect {
        x0: r.x,
        y0: r.y,
        x1: r.x + r.w,
        y1: r.y + r.h,
        color: Rgb { r: 248, g: 248, b: 248 },
        alpha_pct: 100,
    };
    out.push(bg);
    let neutral = Rgb { r: 60, g: 60, b: 60 };
    let y0 = row_y(r, 0);
    let y1 = row_y(r, 1);
    let y2 = row_y(r, 2);
    let label_x = r.x + 8;
    proof {
        vstd::arithmetic::div_mod::lemma_div_pos_is_pos(r.w as int, 2);
        vstd::arithmetic::div_mod::lemma_div_nonincreasing(r.w as int, 2);
    }
    let value_x = r.x + ((r.w as u64) / 2) as i64;
    out.push(Primitive::Text {
        x: label_x,
        y: y0,
        font_size: 14,
        color: neutral,
        content: "Current Price".to_owned(),
    });
    out.push(Primitive::Text {
        x: value_x,
        y: y0,
        font_size: 14,
        color: dir,
        content: dollar_label(round_units(cur)),
    });
    out.push(Primitive::Text {
        x: label_x,
        y: y1,
        font_size: 14,
        color: neutral,
        content: "High (in plot)".to_owned(),
    });
    out.push(Primitive::Text {
        x: value_x,
        y: y1,
        font_size: 14,
        color: neutral,
        content: dollar_label(round_units(high)),
    });
    out.push(Primitive::Text {
        x: label_x,
        y: y2,
        font_size: 14,
        color: neutral,
        content: "% from High".to_owned(),
    });
    out.push(Primitive::Text {
        x: value_x,
        y: y2,
        font_size: 14,
        color: neutral,
        content: percent_str(bp),
    });
    proof {
        assert(out@.take(old(out)@.len() as int) =~= old(out)@);
        assert(out@.skip(old(out)@.len() as int).len() == 7);
    }
}

} // verus!
