//! The fixed 64-gate zodiac wheel and its fixed-radix subdivision.
//!
//! The wheel starts at ecliptic 302 degrees with gate 41 and divides the
//! circle into 64 gates of 5.625 degrees; each gate into 6 lines, each line
//! into 6 colors, each color into 6 tones, each tone into 5 bases.  In
//! milliarcseconds every one of those spans is a whole number, so the mapping
//! is exact integer arithmetic.

use vstd::prelude::*;
use vstd::string::StringExecFns;
use crate::strutil::str_eq;
use crate::angle::{normalize, norm_mas, CIRCLE_MAS};
use vstd::arithmetic::mul::lemma_mul_is_commutative;
use vstd::arithmetic::div_mod::{
    lemma_breakdown, lemma_div_denominator, lemma_div_pos_is_pos,
    lemma_fundamental_div_mod, lemma_fundamental_div_mod_converse_div,
    lemma_fundamental_div_mod_converse_mod, lemma_mod_mod, lemma_mod_bound,
    lemma_small_mod,
};

verus! {

/// Ecliptic longitude where the wheel (gate slot 0, which is gate 41) begins: 302 degrees.
pub const WHEEL_START_MAS: i64 = 1_087_200_000;

/// One gate: 5.625 degrees.
pub const GATE_SPAN_MAS: i64 = 20_250_000;

/// One line: a sixth of a gate.
pub const LINE_SPAN_MAS: i64 = 3_375_000;

/// One color: a sixth of a line.
pub const COLOR_SPAN_MAS: i64 = 562_500;

/// One tone: a sixth of a color.
pub const TONE_SPAN_MAS: i64 = 93_750;

/// One base: a fifth of a tone, and the finest cell of the wheel.
pub const BASE_SPAN_MAS: i64 = 18_750;

/// Which gate id sits at a given slot of the wheel, walking from the
/// wheel's start; the wheel's physical order is not numeric gate-id order.
pub open spec fn gate_at(slot: int) -> u8 {
    if slot == 0 { 41 } else if slot == 1 { 19 } else if slot == 2 { 13 } else if slot == 3 { 49
    } else if slot == 4 { 30 } else if slot == 5 { 55 } else if slot == 6 { 37 } else if slot ==
    7 { 63 } else if slot == 8 { 22 } else if slot == 9 { 36 } else if slot == 10 { 25 } else if
    slot == 11 { 17 } else if slot == 12 { 21 } else if slot == 13 { 51 } else if slot == 14 {
    42 } else if slot == 15 { 3 } else if slot == 16 { 27 } else if slot == 17 { 24 } else if
    slot == 18 { 2 } else if slot == 19 { 23 } else if slot == 20 { 8 } else if slot == 21 { 20
    } else if slot == 22 { 16 } else if slot == 23 { 35 } else if slot == 24 { 45 } else if slot
    == 25 { 12 } else if slot == 26 { 15 } else if slot == 27 { 52 } else if slot == 28 { 39 }
    else if slot == 29 { 53 } else if slot == 30 { 62 } else if slot == 31 { 56 } else if slot
    == 32 { 31 } else if slot == 33 { 33 } else if slot == 34 { 7 } else if slot == 35 { 4 }
    else if slot == 36 { 29 } else if slot == 37 { 59 } else if slot == 38 { 40 } else if slot
    == 39 { 64 } else if slot == 40 { 47 } else if slot == 41 { 6 } else if slot == 42 { 46 }
    else if slot == 43 { 18 } else if slot == 44 { 48 } else if slot == 45 { 57 } else if slot
    == 46 { 32 } else if slot == 47 { 50 } else if slot == 48 { 28 } else if slot == 49 { 44 }
    else if slot == 50 { 1 } else if slot == 51 { 43 } else if slot == 52 { 14 } else if slot ==
    53 { 34 } else if slot == 54 { 9 } else if slot == 55 { 5 } else if slot == 56 { 26 } else
    if slot == 57 { 11 } else if slot == 58 { 10 } else if slot == 59 { 58 } else if slot == 60
    { 38 } else if slot == 61 { 54 } else if slot == 62 { 61 } else { 60 }
}

/// The wheel's gate order as a sequence of the 64 gate ids.
pub open spec fn wheel_order() -> Seq<u8> {
    Seq::new(64, |i: int| gate_at(i))
}

/// Looks a slot's gate id up.
pub fn gate_for_slot(slot: usize) -> (g: u8)
    requires
        slot < 64,
    ensures
        g == gate_at(slot as int),
        1 <= g <= 64,
{
    if slot == 0 { 41 } else if slot == 1 { 19 } else if slot == 2 { 13 } else if slot == 3 { 49
    } else if slot == 4 { 30 } else if slot == 5 { 55 } else if slot == 6 { 37 } else if slot ==
    7 { 63 } else if slot == 8 { 22 } else if slot == 9 { 36 } else if slot == 10 { 25 } else if
    slot == 11 { 17 } else if slot == 12 { 21 } else if slot == 13 { 51 } else if slot == 14 {
    42 } else if slot == 15 { 3 } else if slot == 16 { 27 } else if slot == 17 { 24 } else if
    slot == 18 { 2 } else if slot == 19 { 23 } else if slot == 20 { 8 } else if slot == 21 { 20
    } else if slot == 22 { 16 } else if slot == 23 { 35 } else if slot == 24 { 45 } else if slot
    == 25 { 12 } else if slot == 26 { 15 } else if slot == 27 { 52 } else if slot == 28 { 39 }
    else if slot == 29 { 53 } else if slot == 30 { 62 } else if slot == 31 { 56 } else if slot
    == 32 { 31 } else if slot == 33 { 33 } else if slot == 34 { 7 } else if slot == 35 { 4 }
    else if slot == 36 { 29 } else if slot == 37 { 59 } else if slot == 38 { 40 } else if slot
    == 39 { 64 } else if slot == 40 { 47 } else if slot == 41 { 6 } else if slot == 42 { 46 }
    else if slot == 43 { 18 } else if slot == 44 { 48 } else if slot == 45 { 57 } else if slot
    == 46 { 32 } else if slot == 47 { 50 } else if slot == 48 { 28 } else if slot == 49 { 44 }
    else if slot == 50 { 1 } else if slot == 51 { 43 } else if slot == 52 { 14 } else if slot ==
    53 { 34 } else if slot == 54 { 9 } else if slot == 55 { 5 } else if slot == 56 { 26 } else
    if slot == 57 { 11 } else if slot == 58 { 10 } else if slot == 59 { 58 } else if slot == 60
    { 38 } else if slot == 61 { 54 } else if slot == 62 { 61 } else { 60 }
}

/// The slot a gate id sits at: the inverse of `gate_at`.
pub open spec fn slot_of_gate(g: int) -> int {
    if g == 1 { 50 } else if g == 2 { 18 } else if g == 3 { 15 } else if g == 4 { 35 } else if g
    == 5 { 55 } else if g == 6 { 41 } else if g == 7 { 34 } else if g == 8 { 20 } else if g == 9
    { 54 } else if g == 10 { 58 } else if g == 11 { 57 } else if g == 12 { 25 } else if g == 13
    { 2 } else if g == 14 { 52 } else if g == 15 { 26 } else if g == 16 { 22 } else if g == 17 {
    11 } else if g == 18 { 43 } else if g == 19 { 1 } else if g == 20 { 21 } else if g == 21 {
    12 } else if g == 22 { 8 } else if g == 23 { 19 } else if g == 24 { 17 } else if g == 25 {
    10 } else if g == 26 { 56 } else if g == 27 { 16 } else if g == 28 { 48 } else if g == 29 {
    36 } else if g == 30 { 4 } else if g == 31 { 32 } else if g == 32 { 46 } else if g == 33 {
    33 } else if g == 34 { 53 } else if g == 35 { 23 } else if g == 36 { 9 } else if g == 37 { 6
    } else if g == 38 { 60 } else if g == 39 { 28 } else if g == 40 { 38 } else if g == 41 { 0 }
    else if g == 42 { 14 } else if g == 43 { 51 } else if g == 44 { 49 } else if g == 45 { 24 }
    else if g == 46 { 42 } else if g == 47 { 40 } else if g == 48 { 44 } else if g == 49 { 3 }
    else if g == 50 { 47 } else if g == 51 { 13 } else if g == 52 { 27 } else if g == 53 { 29 }
    else if g == 54 { 61 } else if g == 55 { 5 } else if g == 56 { 31 } else if g == 57 { 45 }
    else if g == 58 { 59 } else if g == 59 { 37 } else if g == 60 { 63 } else if g == 61 { 62 }
    else if g == 62 { 30 } else if g == 63 { 7 } else { 39 }
}

/// The wheel's order is a permutation: every slot carries a gate id from 1
/// to 64, each gate id sits at exactly one slot, and `slot_of_gate` inverts
/// `gate_at`.
pub proof fn lemma_wheel_order_permutes()
    ensures
        wheel_order().len() == 64,
        forall|i: int| 0 <= i < 64 ==> 1 <= #[trigger] wheel_order()[i] <= 64,
        forall|i: int| 0 <= i < 64 ==> slot_of_gate(#[trigger] gate_at(i) as int) == i,
        forall|i: int, j: int|
            0 <= i < 64 && 0 <= j < 64 && i != j ==> gate_at(i) != gate_at(j),
{
    assert forall|i: int| 0 <= i < 64 implies slot_of_gate(#[trigger] gate_at(i) as int)
        == i by {}
    assert forall|i: int, j: int|
        0 <= i < 64 && 0 <= j < 64 && i != j implies gate_at(i) != gate_at(j) by {
        if gate_at(i) == gate_at(j) {
            assert(slot_of_gate(gate_at(i) as int) == i);
            assert(slot_of_gate(gate_at(j) as int) == j);
        }
    }
}

/// The wheel offset of a longitude: how far past the wheel's start it lies,
/// normalized into `[0, CIRCLE_MAS)`.
pub open spec fn wheel_offset(lng: int) -> int {
    norm_mas(lng - WHEEL_START_MAS as int)
}

/// The wheel slot (0 to 63) a longitude falls in.
pub open spec fn gate_slot_of(lng: int) -> int {
    wheel_offset(lng) / (GATE_SPAN_MAS as int)
}

/// The line (1 to 6) within its gate.
pub open spec fn line_of(lng: int) -> int {
    (wheel_offset(lng) % (GATE_SPAN_MAS as int)) / (LINE_SPAN_MAS as int) + 1
}

/// The color (1 to 6) within the line.
pub open spec fn color_of(lng: int) -> int {
    (wheel_offset(lng) % (LINE_SPAN_MAS as int)) / (COLOR_SPAN_MAS as int) + 1
}

/// The tone (1 to 6) within the color.
pub open spec fn tone_of(lng: int) -> int {
    (wheel_offset(lng) % (COLOR_SPAN_MAS as int)) / (TONE_SPAN_MAS as int) + 1
}

/// The base (1 to 5) within the tone.
pub open spec fn base_of(lng: int) -> int {
    (wheel_offset(lng) % (TONE_SPAN_MAS as int)) / (BASE_SPAN_MAS as int) + 1
}

/// A longitude resolved against the wheel: which gate it activates and the
/// line, color, tone and base refinement, together with the normalized
/// longitude itself.
pub struct GatePosition {
    /// Gate id, 1 to 64.
    pub gate: u8,
    /// Line within its gate, 1 to 6.
    pub line: u8,
    /// Color within the line, 1 to 6.
    pub color: u8,
    /// Tone within the color, 1 to 6.
    pub tone: u8,
    /// Base within the tone, 1 to 5.
    pub base: u8,
    /// The normalized longitude, in milliarcseconds.
    pub lng_mas: i64,
}

impl GatePosition {
    /// The position is exactly the wheel's reading of its own longitude.
    pub open spec fn wf(self) -> bool {
        &&& 0 <= self.lng_mas < CIRCLE_MAS
        &&& self.gate == gate_at(gate_slot_of(self.lng_mas as int))
        &&& self.line == line_of(self.lng_mas as int)
        &&& self.color == color_of(self.lng_mas as int)
        &&& self.tone == tone_of(self.lng_mas as int)
        &&& self.base == base_of(self.lng_mas as int)
    }
}

/// Maps an ecliptic longitude (milliarcseconds, any value) to its gate
/// activation: the five-level fixed-radix reading of the wheel.
pub fn degree_to_gate(ecliptic_mas: i64) -> (r: GatePosition)
    ensures
        r.lng_mas as int == norm_mas(ecliptic_mas as int),
        r.gate == gate_at(gate_slot_of(ecliptic_mas as int)),
        r.line as int == line_of(ecliptic_mas as int),
        r.color as int == color_of(ecliptic_mas as int),
        r.tone as int == tone_of(ecliptic_mas as int),
        r.base as int == base_of(ecliptic_mas as int),
        1 <= r.gate <= 64,
        1 <= r.line <= 6,
        1 <= r.color <= 6,
        1 <= r.tone <= 6,
        1 <= r.base <= 5,
        r.wf(),
{
    let deg = normalize(ecliptic_mas);
    let offset_i = normalize(deg - WHEEL_START_MAS);
    proof {
        lemma_wheel_offset_stable(ecliptic_mas as int);
    }
    let offset: u64 = offset_i as u64;

    let gate_slot = offset / (GATE_SPAN_MAS as u64);
    let within_gate = offset % (GATE_SPAN_MAS as u64);
    let line_idx = within_gate / (LINE_SPAN_MAS as u64);
    let within_line = within_gate % (LINE_SPAN_MAS as u64);
    let color_idx = within_line / (COLOR_SPAN_MAS as u64);
    let within_color = within_line % (COLOR_SPAN_MAS as u64);
    let tone_idx = within_color / (TONE_SPAN_MAS as u64);
    let within_tone = within_color % (TONE_SPAN_MAS as u64);
    let base_idx = within_tone / (BASE_SPAN_MAS as u64);

    proof {
        let off = offset as int;
        lemma_mod_mod(off, LINE_SPAN_MAS as int, 6);
        assert(LINE_SPAN_MAS as int * 6 == GATE_SPAN_MAS as int);
        lemma_mod_mod(off, COLOR_SPAN_MAS as int, 6);
        assert(COLOR_SPAN_MAS as int * 6 == LINE_SPAN_MAS as int);
        lemma_mod_mod(off, TONE_SPAN_MAS as int, 6);
        assert(TONE_SPAN_MAS as int * 6 == COLOR_SPAN_MAS as int);
        lemma_mod_bound(off, GATE_SPAN_MAS as int);
        lemma_mod_bound(off, LINE_SPAN_MAS as int);
        lemma_mod_bound(off, COLOR_SPAN_MAS as int);
        lemma_mod_bound(off, TONE_SPAN_MAS as int);
        lemma_div_below(off, GATE_SPAN_MAS as int, 64);
        lemma_div_below(off % (GATE_SPAN_MAS as int), LINE_SPAN_MAS as int, 6);
        lemma_div_below(off % (LINE_SPAN_MAS as int), COLOR_SPAN_MAS as int, 6);
        lemma_div_below(off % (COLOR_SPAN_MAS as int), TONE_SPAN_MAS as int, 6);
        lemma_div_below(off % (TONE_SPAN_MAS as int), BASE_SPAN_MAS as int, 5);
    }

    let gate = gate_for_slot(gate_slot as usize);
    GatePosition {
        gate,
        line: (line_idx as u8) + 1,
        color: (color_idx as u8) + 1,
        tone: (tone_idx as u8) + 1,
        base: (base_idx as u8) + 1,
        lng_mas: deg,
    }
}


/// One longitude, one reading: a well-formed position is determined by its
/// longitude alone, so re-deriving from the same longitude always yields
/// the identical tuple.
pub proof fn lemma_reading_unique(p1: GatePosition, p2: GatePosition)
    requires
        p1.wf(),
        p2.wf(),
        p1.lng_mas == p2.lng_mas,
    ensures
        p1 == p2,
{
}

/// A nonnegative value below `bound * d` divides to a quotient below `bound`.
proof fn lemma_div_below(x: int, d: int, bound: int)
    requires
        0 < d,
        0 < bound,
        0 <= x < bound * d,
    ensures
        0 <= x / d < bound,
{
    lemma_fundamental_div_mod(x, d);
    lemma_mod_bound(x, d);
    assert(x / d < bound) by (nonlinear_arith)
        requires
            0 < d,
            0 < bound,
            x < bound * d,
            x == d * (x / d) + x % d,
            0 <= x % d,
    ;
    assert(0 <= x / d) by (nonlinear_arith)
        requires
            0 < d,
            0 <= x,
            x == d * (x / d) + x % d,
            0 <= x % d < d,
    ;
}

/// Normalizing a longitude first does not change its wheel offset.
proof fn lemma_wheel_offset_stable(lng: int)
    ensures
        norm_mas(norm_mas(lng) - WHEEL_START_MAS as int) == wheel_offset(lng),
{
    let c = CIRCLE_MAS as int;
    let w = WHEEL_START_MAS as int;
    lemma_fundamental_div_mod(lng, c);
    let q = lng / c;
    assert(norm_mas(lng) - w == (lng - w) - c * q);
    lemma_mod_multiples_shift(lng - w, q, c);
}

/// The index of the finest wheel cell (one base: 1/69120 of the circle) that
/// a longitude falls in.
pub open spec fn cell_of(lng: int) -> int {
    wheel_offset(lng) / (BASE_SPAN_MAS as int)
}

/// How many base-sized cells the wheel has: 64 gates of 6 lines of 6 colors
/// of 6 tones of 5 bases.
pub const WHEEL_CELLS: i64 = 69_120;

/// The middle digit of a three-level division: for positive `small` and
/// `radix`, the quotient of `x % (small * radix)` by `small` is the `radix`
/// digit of `x / small`.
proof fn lemma_digit(x: int, small: int, radix: int)
    requires
        0 <= x,
        0 < small,
        0 < radix,
    ensures
        (x % (small * radix)) / small == (x / small) % radix,
{
    lemma_breakdown(x, small, radix);
    lemma_mod_bound(x, small);
    lemma_div_pos_is_pos(x, small);
    lemma_mod_bound(x / small, radix);
    lemma_mul_is_commutative(small, (x / small) % radix);
    lemma_fundamental_div_mod_converse_div(
        x % (small * radix),
        small,
        (x / small) % radix,
        x % small,
    );
}

/// The five fields of a gate activation are exactly the mixed-radix digits of
/// the longitude's cell index: the wheel is a non-overlapping partition of the
/// circle into 64 x 6 x 6 x 6 x 5 cells, and the tuple is constant on each
/// cell.
pub proof fn lemma_wheel_digits(lng: int)
    ensures
        0 <= cell_of(lng) < WHEEL_CELLS,
        base_of(lng) - 1 == cell_of(lng) % 5,
        tone_of(lng) - 1 == (cell_of(lng) / 5) % 6,
        color_of(lng) - 1 == (cell_of(lng) / 30) % 6,
        line_of(lng) - 1 == (cell_of(lng) / 180) % 6,
        gate_slot_of(lng) == cell_of(lng) / 1080,
{
    let off = wheel_offset(lng);
    let base = BASE_SPAN_MAS as int;
    let tone = TONE_SPAN_MAS as int;
    let color = COLOR_SPAN_MAS as int;
    let line = LINE_SPAN_MAS as int;
    let gate = GATE_SPAN_MAS as int;
    let cell = cell_of(lng);
    lemma_mod_bound(lng - WHEEL_START_MAS as int, CIRCLE_MAS as int);
    assert(0 <= off < CIRCLE_MAS as int);
    lemma_div_below(off, base, WHEEL_CELLS as int);

    assert(base * 5 == tone);
    assert(tone * 6 == color);
    assert(color * 6 == line);
    assert(line * 6 == gate);

    lemma_digit(off, base, 5);
    assert(base_of(lng) - 1 == (off / base) % 5);

    lemma_digit(off, tone, 6);
    lemma_div_denominator(off, base, 5);
    assert(off / tone == cell / 5);
    assert(tone_of(lng) - 1 == (cell / 5) % 6);

    lemma_digit(off, color, 6);
    lemma_div_denominator(off, tone, 6);
    lemma_div_denominator(cell, 5, 6);
    assert(off / color == (off / tone) / 6);
    assert(off / color == cell / 30);
    assert(color_of(lng) - 1 == (cell / 30) % 6);

    lemma_digit(off, line, 6);
    lemma_div_denominator(off, color, 6);
    lemma_div_denominator(cell, 30, 6);
    assert(off / line == (off / color) / 6);
    assert(off / line == cell / 180);
    assert(line_of(lng) - 1 == (cell / 180) % 6);

    lemma_div_denominator(off, line, 6);
    lemma_div_denominator(cell, 180, 6);
    assert(off / gate == (off / line) / 6);
    assert(gate_slot_of(lng) == cell / 1080);
}

/// Recomposition: a cell index below `WHEEL_CELLS` is rebuilt from its five
/// mixed-radix digits.
proof fn lemma_cell_recompose(cell: int)
    requires
        0 <= cell < WHEEL_CELLS,
    ensures
        cell == (((cell / 1080 * 6 + (cell / 180) % 6) * 6 + (cell / 30) % 6) * 6 + (cell / 5)
            % 6) * 5 + cell % 5,
{
    lemma_fundamental_div_mod(cell, 5);
    lemma_fundamental_div_mod(cell / 5, 6);
    lemma_div_denominator(cell, 5, 6);
    lemma_fundamental_div_mod(cell / 30, 6);
    lemma_div_denominator(cell, 30, 6);
    lemma_fundamental_div_mod(cell / 180, 6);
    lemma_div_denominator(cell, 180, 6);
}

/// The wheel is a partition: two longitudes read as the same
/// gate/line/color/tone/base tuple exactly when they fall in the same one of
/// the 69120 base-sized cells.  With `lemma_wheel_coverage` this says the
/// tuples tile the circle with no gaps and no overlaps.
pub proof fn lemma_wheel_partition(l1: int, l2: int)
    ensures
        (cell_of(l1) == cell_of(l2)) <==> {
            &&& gate_slot_of(l1) == gate_slot_of(l2)
            &&& line_of(l1) == line_of(l2)
            &&& color_of(l1) == color_of(l2)
            &&& tone_of(l1) == tone_of(l2)
            &&& base_of(l1) == base_of(l2)
        },
{
    lemma_wheel_digits(l1);
    lemma_wheel_digits(l2);
    if gate_slot_of(l1) == gate_slot_of(l2) && line_of(l1) == line_of(l2) && color_of(l1)
        == color_of(l2) && tone_of(l1) == tone_of(l2) && base_of(l1) == base_of(l2) {
        lemma_cell_recompose(cell_of(l1));
        lemma_cell_recompose(cell_of(l2));
    }
}

/// Every tuple is reached: the longitude at the start of any cell, named by
/// its five digits, reads back as exactly those digits.
pub proof fn lemma_wheel_coverage(slot: int, line: int, color: int, tone: int, base: int)
    requires
        0 <= slot < 64,
        1 <= line <= 6,
        1 <= color <= 6,
        1 <= tone <= 6,
        1 <= base <= 5,
    ensures
        ({
            let cell = (((slot * 6 + (line - 1)) * 6 + (color - 1)) * 6 + (tone - 1)) * 5 + (base
                - 1);
            let lng = norm_mas(WHEEL_START_MAS as int + cell * BASE_SPAN_MAS as int);
            &&& 0 <= cell < WHEEL_CELLS
            &&& cell_of(lng) == cell
            &&& gate_slot_of(lng) == slot
            &&& line_of(lng) == line
            &&& color_of(lng) == color
            &&& tone_of(lng) == tone
            &&& base_of(lng) == base
        }),
{
    let cell = (((slot * 6 + (line - 1)) * 6 + (color - 1)) * 6 + (tone - 1)) * 5 + (base - 1);
    let base_span = BASE_SPAN_MAS as int;
    let lng = norm_mas(WHEEL_START_MAS as int + cell * base_span);
    assert(0 <= cell < WHEEL_CELLS);
    assert(0 <= cell * base_span < CIRCLE_MAS as int) by (nonlinear_arith)
        requires
            0 <= cell < 69_120,
            base_span == 18_750,
    ;

    // The offset of that longitude is the cell start itself.
    lemma_wheel_offset_stable(WHEEL_START_MAS as int + cell * base_span);
    assert(norm_mas(lng) == lng) by {
        lemma_mod_bound(WHEEL_START_MAS as int + cell * base_span, CIRCLE_MAS as int);
        lemma_small_mod(lng as nat, CIRCLE_MAS as nat);
    }
    assert(wheel_offset(lng) == norm_mas(norm_mas(WHEEL_START_MAS as int + cell * base_span)
        - WHEEL_START_MAS as int));
    assert(norm_mas(WHEEL_START_MAS as int + cell * base_span - WHEEL_START_MAS as int)
        == norm_mas(cell * base_span));
    lemma_small_mod((cell * base_span) as nat, CIRCLE_MAS as nat);
    assert(wheel_offset(lng) == cell * base_span);

    // So its cell index is the cell, and the digits decompose it.
    lemma_fundamental_div_mod_converse_div(cell * base_span, base_span, cell, 0);
    assert(cell_of(lng) == cell);
    lemma_wheel_digits(lng);

    // The named digits are the mixed-radix digits of the cell.
    let d0 = base - 1;
    let q0 = ((slot * 6 + (line - 1)) * 6 + (color - 1)) * 6 + (tone - 1);
    lemma_fundamental_div_mod_converse_div(cell, 5, q0, d0);
    lemma_fundamental_div_mod_converse_mod(cell, 5, q0, d0);
    let d1 = tone - 1;
    let q1 = (slot * 6 + (line - 1)) * 6 + (color - 1);
    lemma_fundamental_div_mod_converse_div(q0, 6, q1, d1);
    lemma_fundamental_div_mod_converse_mod(q0, 6, q1, d1);
    lemma_div_denominator(cell, 5, 6);
    let d2 = color - 1;
    let q2 = slot * 6 + (line - 1);
    lemma_fundamental_div_mod_converse_div(q1, 6, q2, d2);
    lemma_fundamental_div_mod_converse_mod(q1, 6, q2, d2);
    lemma_div_denominator(cell, 30, 6);
    let d3 = line - 1;
    lemma_fundamental_div_mod_converse_div(q2, 6, slot, d3);
    lemma_fundamental_div_mod_converse_mod(q2, 6, slot, d3);
    lemma_div_denominator(cell, 180, 6);
}

/// Shifting by any whole number of circles does not change the remainder.
proof fn lemma_mod_multiples_shift(x: int, q: int, c: int)
    requires
        0 < c,
    ensures
        (x - c * q) % c == x % c,
{
    lemma_fundamental_div_mod(x, c);
    lemma_mod_bound(x, c);
    assert(x - c * q == (x / c - q) * c + x % c) by (nonlinear_arith)
        requires
            x == c * (x / c) + x % c,
    ;
    lemma_fundamental_div_mod_converse_mod(x - c * q, c, x / c - q, x % c);
}

/// One zodiac sign: 30 degrees.
pub const SIGN_SPAN_MAS: i64 = 108_000_000;

/// The sign index (0 for Aries through 11 for Pisces) of a longitude.
pub open spec fn sign_index_of(lng: int) -> int {
    norm_mas(lng) / (SIGN_SPAN_MAS as int)
}

/// How far into its sign a longitude lies.
pub open spec fn sign_within_of(lng: int) -> int {
    norm_mas(lng) % (SIGN_SPAN_MAS as int)
}

/// Splits a longitude into its zodiac sign index and the offset within the
/// sign: the plain 30-degree partition of the circle.
pub fn degree_to_zodiac(lng: i64) -> (r: (u8, i64))
    ensures
        r.0 as int == sign_index_of(lng as int),
        r.1 as int == sign_within_of(lng as int),
        r.0 < 12,
        0 <= r.1 < SIGN_SPAN_MAS,
{
    let deg = normalize(lng);
    let off: u64 = deg as u64;
    let idx = off / (SIGN_SPAN_MAS as u64);
    let within = off % (SIGN_SPAN_MAS as u64);
    proof {
        lemma_mod_bound(off as int, SIGN_SPAN_MAS as int);
        lemma_div_below(off as int, SIGN_SPAN_MAS as int, 12);
    }
    (idx as u8, within as i64)
}

/// The text key of a zodiac sign by index.
pub open spec fn zodiac_key_chars(idx: int) -> Seq<char> {
    if idx == 0 { "aries"@ } else if idx == 1 { "taurus"@ } else if idx == 2 { "gemini"@ } else if idx == 3 { "cancer"@ } else if idx == 4 { "leo"@ } else if idx == 5 { "virgo"@ } else if idx == 6 { "libra"@ } else if idx == 7 { "scorpio"@ } else if idx == 8 { "sagittarius"@ } else if idx == 9 { "capricorn"@ } else if idx == 10 { "aquarius"@ } else { "pisces"@ }
}

/// Looks up the text key of a zodiac sign.
pub fn zodiac_key_for(idx: u8) -> (r: &'static str)
    requires
        idx < 12,
    ensures
        r@ == zodiac_key_chars(idx as int),
{
    if idx == 0 { "aries" } else if idx == 1 { "taurus" } else if idx == 2 { "gemini" } else if idx == 3 { "cancer" } else if idx == 4 { "leo" } else if idx == 5 { "virgo" } else if idx == 6 { "libra" } else if idx == 7 { "scorpio" } else if idx == 8 { "sagittarius" } else if idx == 9 { "capricorn" } else if idx == 10 { "aquarius" } else { "pisces" }
}

/// The symbol shown for a zodiac key; unknown keys give an empty string.
/// Each symbol carries the text-presentation selector.
pub open spec fn zodiac_symbol_chars(key: Seq<char>) -> Seq<char> {
    if key == "aries"@ { "\u{2648}\u{FE0E}"@ } else if key == "taurus"@ { "\u{2649}\u{FE0E}"@ } else if key == "gemini"@ { "\u{264A}\u{FE0E}"@ } else if key == "cancer"@ { "\u{264B}\u{FE0E}"@ } else if key == "leo"@ { "\u{264C}\u{FE0E}"@ } else if key == "virgo"@ { "\u{264D}\u{FE0E}"@ } else if key == "libra"@ { "\u{264E}\u{FE0E}"@ } else if key == "scorpio"@ { "\u{264F}\u{FE0E}"@ } else if key == "sagittarius"@ { "\u{2650}\u{FE0E}"@ } else if key == "capricorn"@ { "\u{2651}\u{FE0E}"@ } else if key == "aquarius"@ { "\u{2652}\u{FE0E}"@ } else if key == "pisces"@ { "\u{2653}\u{FE0E}"@ } else { ""@ }
}

/// The display symbol for a zodiac key.
pub fn zodiac_symbol_from_key(key: &str) -> (r: String)
    ensures
        r@ == zodiac_symbol_chars(key@),
{
    if str_eq(key, "aries") {
        return String::from_str("\u{2648}\u{FE0E}");
    }
    if str_eq(key, "taurus") {
        return String::from_str("\u{2649}\u{FE0E}");
    }
    if str_eq(key, "gemini") {
        return String::from_str("\u{264A}\u{FE0E}");
    }
    if str_eq(key, "cancer") {
        return String::from_str("\u{264B}\u{FE0E}");
    }
    if str_eq(key, "leo") {
        return String::from_str("\u{264C}\u{FE0E}");
    }
    if str_eq(key, "virgo") {
        return String::from_str("\u{264D}\u{FE0E}");
    }
    if str_eq(key, "libra") {
        return String::from_str("\u{264E}\u{FE0E}");
    }
    if str_eq(key, "scorpio") {
        return String::from_str("\u{264F}\u{FE0E}");
    }
    if str_eq(key, "sagittarius") {
        return String::from_str("\u{2650}\u{FE0E}");
    }
    if str_eq(key, "capricorn") {
        return String::from_str("\u{2651}\u{FE0E}");
    }
    if str_eq(key, "aquarius") {
        return String::from_str("\u{2652}\u{FE0E}");
    }
    if str_eq(key, "pisces") {
        return String::from_str("\u{2653}\u{FE0E}");
    }
    proof {
        reveal_strlit("");
        assert(""@ =~= Seq::<char>::empty());
    }
    String::new()
}

} // verus!
