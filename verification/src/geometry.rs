//! Pure placement calculator for the speech-bubble window.
//!
//! The bubble is a fixed-width window whose height grows with the message's
//! character count, placed horizontally centered over the primary window and
//! vertically immediately above it.
//!
//! The host windowing system reports the primary window in physical
//! (device-pixel) units together with a scale factor; the bubble is created
//! in logical units.  All logical lengths here are carried in thousandths of
//! a logical pixel ("milli" units), so that fractional scale factors need no
//! floating point: a scale factor of 1.25 is passed as `1250`.

use vstd::prelude::*;
use vstd::arithmetic::div_mod::lemma_div_is_ordered;
use vstd::arithmetic::div_mod::lemma_fundamental_div_mod;
use vstd::arithmetic::div_mod::lemma_fundamental_div_mod_converse;
use vstd::arithmetic::div_mod::lemma_div_nonincreasing;
use vstd::utf8::is_continuation_byte;

verus! {

/// Thousandths per unit: the fixed-point denominator for logical lengths.
pub const MILLI: i64 = 1000;

/// Fixed bubble width, in milli logical pixels.
pub const BUBBLE_WIDTH_MILLI: i64 = 320000;

/// Characters assumed to fit on one wrapped line of the bubble.
pub const CHARS_PER_LINE: usize = 15;

/// Height of one wrapped text line, in logical pixels.
pub const LINE_HEIGHT_PX: u64 = 24;

/// Fixed vertical chrome (padding, margins) added around the text, in
/// logical pixels.
pub const CHROME_HEIGHT_PX: u64 = 60;

/// Lower clamp for the bubble height, in logical pixels.
pub const MIN_HEIGHT_PX: u64 = 80;

/// Upper clamp for the bubble height, in logical pixels.
pub const MAX_HEIGHT_PX: u64 = 250;

/// Logical size and position computed for the bubble window, in milli
/// logical pixels.
#[derive(Clone, Copy, Debug, PartialEq, Eq, Structural)]
pub struct BubbleProps {
    pub width_milli: i64,
    pub height_milli: i64,
    pub x_milli: i64,
    pub y_milli: i64,
}

/// Number of characters a UTF-8 byte sequence encodes: every byte that is
/// not a continuation byte starts a character.
pub open spec fn spec_char_count(s: Seq<u8>) -> nat
    decreases s.len(),
{
    if s.len() == 0 {
        0
    } else {
        spec_char_count(s.drop_last()) + if is_continuation_byte(s.last()) {
            0nat
        } else {
            1nat
        }
    }
}

/// Estimated wrapped line count for a message: `ceil(chars / CHARS_PER_LINE)`,
/// with a floor of one line.
pub open spec fn spec_estimated_lines(chars: nat) -> nat {
    if chars == 0 {
        1
    } else {
        (chars + CHARS_PER_LINE - 1) as nat / CHARS_PER_LINE as nat
    }
}

/// Bubble height for a message of `chars` characters, in logical pixels:
/// the estimated line count times the line height plus the chrome height,
/// clamped to `[MIN_HEIGHT_PX, MAX_HEIGHT_PX]`.
pub open spec fn spec_bubble_height_px(chars: nat) -> nat {
    let raw = spec_estimated_lines(chars) * LINE_HEIGHT_PX as nat + CHROME_HEIGHT_PX as nat;
    if raw < MIN_HEIGHT_PX as nat {
        MIN_HEIGHT_PX as nat
    } else if raw > MAX_HEIGHT_PX as nat {
        MAX_HEIGHT_PX as nat
    } else {
        raw
    }
}

/// Physical-to-logical conversion in milli units: `physical / scale`, where
/// `scale` itself is given in thousandths.  The quotient is rounded toward
/// negative infinity.
pub open spec fn spec_logical_milli(physical: int, scale_milli: int) -> int
    recommends
        scale_milli >= 1,
{
    physical * 1000000 / scale_milli
}

/// The placement policy: the bubble sits horizontally centered over the
/// primary window's logical width, with its bottom edge on the primary
/// window's top edge.
pub open spec fn spec_placement(
    primary_x: int,
    primary_y: int,
    primary_width: int,
    scale_milli: int,
    message: Seq<u8>,
) -> BubbleProps {
    let lx = spec_logical_milli(primary_x, scale_milli);
    let ly = spec_logical_milli(primary_y, scale_milli);
    let lw = spec_logical_milli(primary_width, scale_milli);
    let h = spec_bubble_height_px(spec_char_count(message)) * MILLI as int;
    BubbleProps {
        width_milli: BUBBLE_WIDTH_MILLI as i64,
        height_milli: h as i64,
        x_milli: (lx + lw / 2 - BUBBLE_WIDTH_MILLI as int / 2) as i64,
        y_milli: (ly - h) as i64,
    }
}

/// Counts the characters a message encodes, as its wrapped-line estimate
/// sees them.
pub fn message_char_count(message: &Vec<u8>) -> (n: usize)
    ensures
        n == spec_char_count(message@),
        n <= message@.len(),
{
    let mut n: usize = 0;
    let mut i: usize = 0;
    while i < message.len()
        invariant
            i <= message@.len(),
            n <= i,
            n == spec_char_count(message@.take(i as int)),
        decreases message@.len() - i,
    {
        let b = message[i];
        proof {
            assert(message@.take(i as int + 1).drop_last() =~= message@.take(i as int));
            assert(message@.take(i as int + 1).last() == message@[i as int]);
        }
        if !(0x80 <= b && b <= 0xbf) {
            n = n + 1;
        }
        i = i + 1;
    }
    proof {
        assert(message@.take(message@.len() as int) =~= message@);
    }
    n
}

/// Bubble height in logical pixels for a message of `chars` characters.
pub fn bubble_height_px(chars: usize) -> (h: u64)
    ensures
        h == spec_bubble_height_px(chars as nat),
{
    if chars >= 106 {
        proof {
            lemma_div_is_ordered(120, chars as int + 14, 15);
        }
        250
    } else {
        let lines: u64 = if chars == 0 {
            1
        } else {
            (chars as u64 + 14) / 15
        };
        let raw: u64 = lines * 24 + 60;
        if raw > 250 {
            250
        } else {
            raw
        }
    }
}

/// Physical-to-logical conversion, in milli units.
fn to_logical_milli(physical: i64, scale_milli: i64) -> (r: i64)
    requires
        1 <= scale_milli,
        -0x100000000 <= physical <= 0x100000000,
    ensures
        r == spec_logical_milli(physical as int, scale_milli as int),
        -0x100000000000000 <= r <= 0x100000000000000,
{
    let num: i64 = physical * 1000000;
    if num >= 0 {
        let q = (num as u64) / (scale_milli as u64);
        proof {
            lemma_div_nonincreasing(num as int, scale_milli as int);
        }
        q as i64
    } else {
        let a = (-num) as u64;
        let q = a / (scale_milli as u64);
        let rem = a % (scale_milli as u64);
        proof {
            lemma_div_nonincreasing(a as int, scale_milli as int);
            lemma_fundamental_div_mod(a as int, scale_milli as int);
            let ai = a as int;
            let d = scale_milli as int;
            let qi = q as int;
            let ri = rem as int;
            assert(ai == -(num as int));
            assert(ai == d * qi + ri);
            assert(0 <= ri < d);
            if rem == 0 {
                assert(num as int == (-qi) * d + 0) by (nonlinear_arith)
                    requires
                        ai == d * qi + ri,
                        ri == 0,
                        ai == -(num as int),
                ;
                lemma_fundamental_div_mod_converse(num as int, d, -qi, 0);
            } else {
                assert(num as int == (-qi - 1) * d + (d - ri)) by (nonlinear_arith)
                    requires
                        ai == d * qi + ri,
                        ai == -(num as int),
                ;
                assert(0 <= d - ri < d);
                lemma_fundamental_div_mod_converse(num as int, d, -qi - 1, d - ri);
            }
        }
        if rem == 0 {
            -(q as i64)
        } else {
            -(q as i64) - 1
        }
    }
}

/// Computes the bubble window's logical rectangle from the primary
/// window's physical metrics and the message to show.  The result is a
/// function of exactly these inputs, so identical inputs always produce an
/// identical rectangle.  The primary window's height does not enter the
/// placement: the bubble hangs above the window's top edge.
pub fn compute_secondary_placement(
    primary_x: i32,
    primary_y: i32,
    primary_width: u32,
    primary_height: u32,
    scale_milli: i64,
    message: &Vec<u8>,
) -> (r: BubbleProps)
    requires
        1 <= scale_milli,
    ensures
        r == spec_placement(
            primary_x as int,
            primary_y as int,
            primary_width as int,
            scale_milli as int,
            message@,
        ),
{
    let _ = primary_height;
    let lx = to_logical_milli(primary_x as i64, scale_milli);
    let ly = to_logical_milli(primary_y as i64, scale_milli);
    let lw = to_logical_milli(primary_width as i64, scale_milli);
    let cc = message_char_count(message);
    let h_px = bubble_height_px(cc);
    let h_milli: i64 = (h_px as i64) * 1000;
    let half_w: i64 = ((lw as u64) / 2) as i64;
    let x = lx + half_w - 160000;
    let y = ly - h_milli;
    proof {
        assert(BUBBLE_WIDTH_MILLI as int / 2 == 160000);
        assert(lw as int / 2 == (lw as u64 / 2) as int);
    }
    BubbleProps { width_milli: 320000, height_milli: h_milli, x_milli: x, y_milli: y }
}

/// Top-left corner for restoring the main window: the stored position
/// names the window's center, so the corner sits half the window's size up
/// and to the left of it.  All values in milli logical units.
pub fn main_window_top_left(
    center_x_milli: i64,
    center_y_milli: i64,
    width_milli: i64,
    height_milli: i64,
) -> (r: (i64, i64))
    requires
        -1000000000000000 <= center_x_milli <= 1000000000000000,
        -1000000000000000 <= center_y_milli <= 1000000000000000,
        0 <= width_milli <= 1000000000000000,
        0 <= height_milli <= 1000000000000000,
    ensures
        r.0 == center_x_milli as int - width_milli as int / 2,
        r.1 == center_y_milli as int - height_milli as int / 2,
{
    let half_w = ((width_milli as u64) / 2) as i64;
    let half_h = ((height_milli as u64) / 2) as i64;
    (center_x_milli - half_w, center_y_milli - half_h)
}

/// Height monotonicity and bounds: as the message's character count grows,
/// the bubble height never shrinks, and it always stays within the clamp
/// bounds.
pub proof fn lemma_bubble_height_monotonic(c1: nat, c2: nat)
    requires
        c1 <= c2,
    ensures
        spec_bubble_height_px(c1) <= spec_bubble_height_px(c2),
        MIN_HEIGHT_PX <= spec_bubble_height_px(c1) <= MAX_HEIGHT_PX,
{
    if c1 == 0 {
        if c2 > 0 {
            lemma_div_is_ordered(15, c2 as int + 14, 15);
        }
    } else {
        lemma_div_is_ordered(15, c1 as int + 14, 15);
        lemma_div_is_ordered(c1 as int + 14, c2 as int + 14, 15);
    }
    assert(spec_estimated_lines(c1) >= 1);
    assert(spec_estimated_lines(c2) >= spec_estimated_lines(c1));
}

/// The same, lifted to the computed placement: of two messages, the one
/// with no fewer characters gets a bubble at least as tall, and every
/// computed bubble height lies between the clamps.
pub proof fn lemma_placement_height_monotonic(
    px: int,
    py: int,
    pw: int,
    scale: int,
    m1: Seq<u8>,
    m2: Seq<u8>,
)
    requires
        spec_char_count(m1) <= spec_char_count(m2),
    ensures
        spec_placement(px, py, pw, scale, m1).height_milli <= spec_placement(
            px,
            py,
            pw,
            scale,
            m2,
        ).height_milli,
        MIN_HEIGHT_PX as int * MILLI as int <= spec_placement(px, py, pw, scale, m1).height_milli
            as int <= MAX_HEIGHT_PX as int * MILLI as int,
{
    lemma_bubble_height_monotonic(spec_char_count(m1), spec_char_count(m2));
}

/// Determinism of the placement policy: the computed rectangle depends on
/// the primary window's position and width, the scale factor and the
/// message alone, so equal inputs give an identical rectangle.
pub proof fn lemma_placement_deterministic(
    x1: int,
    y1: int,
    w1: int,
    s1: int,
    m1: Seq<u8>,
    x2: int,
    y2: int,
    w2: int,
    s2: int,
    m2: Seq<u8>,
)
    requires
        x1 == x2,
        y1 == y2,
        w1 == w2,
        s1 == s2,
        m1 == m2,
    ensures
        spec_placement(x1, y1, w1, s1, m1) == spec_placement(x2, y2, w2, s2, m2),
{
}

} // verus!
