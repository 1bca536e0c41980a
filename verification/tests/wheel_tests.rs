//! The wheel mapping: ranges, determinism, the exact partition, and the
//! zodiac split.

use hd_cli::angle::{normalize, opposite, signed_delta, CIRCLE_MAS, HALF_CIRCLE_MAS, MAS_PER_DEG};
use hd_cli::gates::{
    degree_to_gate, degree_to_zodiac, gate_for_slot, zodiac_key_for, zodiac_symbol_from_key,
    BASE_SPAN_MAS, WHEEL_START_MAS,
};

#[test]
fn normalize_lands_in_range_and_is_periodic() {
    let samples: [i64; 8] = [
        -CIRCLE_MAS - 5,
        -1,
        0,
        1,
        CIRCLE_MAS - 1,
        CIRCLE_MAS,
        5_000_000_000,
        -5_000_000_000,
    ];
    for &x in samples.iter() {
        let r = normalize(x);
        assert!(0 <= r && r < CIRCLE_MAS);
        assert_eq!(normalize(x + CIRCLE_MAS), r);
        assert_eq!(normalize(x - CIRCLE_MAS), r);
    }
}

#[test]
fn normalize_keeps_in_range_values() {
    assert_eq!(normalize(0), 0);
    assert_eq!(normalize(123_456), 123_456);
    assert_eq!(normalize(CIRCLE_MAS - 1), CIRCLE_MAS - 1);
    assert_eq!(normalize(-1), CIRCLE_MAS - 1);
}

#[test]
fn opposite_steps_half_a_circle() {
    assert_eq!(opposite(0), HALF_CIRCLE_MAS);
    assert_eq!(opposite(HALF_CIRCLE_MAS), 0);
    assert_eq!(opposite(10 * MAS_PER_DEG), 190 * MAS_PER_DEG);
}

#[test]
fn signed_delta_takes_the_short_way() {
    assert_eq!(signed_delta(10 * MAS_PER_DEG, 350 * MAS_PER_DEG), 20 * MAS_PER_DEG);
    assert_eq!(signed_delta(350 * MAS_PER_DEG, 10 * MAS_PER_DEG), -20 * MAS_PER_DEG);
    assert_eq!(signed_delta(90 * MAS_PER_DEG, 30 * MAS_PER_DEG), 60 * MAS_PER_DEG);
    assert_eq!(signed_delta(0, 0), 0);
}

#[test]
fn wheel_start_reads_gate_41_first_cell() {
    let gp = degree_to_gate(WHEEL_START_MAS);
    assert_eq!(gp.gate, 41);
    assert_eq!(gp.line, 1);
    assert_eq!(gp.color, 1);
    assert_eq!(gp.tone, 1);
    assert_eq!(gp.base, 1);
}

#[test]
fn gate_mapping_is_deterministic() {
    let a = degree_to_gate(123_456_789);
    let b = degree_to_gate(123_456_789);
    assert_eq!(a.gate, b.gate);
    assert_eq!(a.line, b.line);
    assert_eq!(a.color, b.color);
    assert_eq!(a.tone, b.tone);
    assert_eq!(a.base, b.base);
    assert_eq!(a.lng_mas, b.lng_mas);
}

#[test]
fn gate_mapping_ranges_hold_on_a_sweep() {
    // One probe per line across the whole circle.
    let step = 3_375_000i64;
    let mut lng = 0i64;
    while lng < CIRCLE_MAS {
        let gp = degree_to_gate(lng);
        assert!(1 <= gp.gate && gp.gate <= 64);
        assert!(1 <= gp.line && gp.line <= 6);
        assert!(1 <= gp.color && gp.color <= 6);
        assert!(1 <= gp.tone && gp.tone <= 6);
        assert!(1 <= gp.base && gp.base <= 5);
        lng += step;
    }
}

#[test]
fn wheel_cells_cover_every_tuple_exactly_once() {
    // Walk all 69120 base cells: each must decode to its own mixed-radix
    // digits, so every gate/line/color/tone/base combination appears exactly
    // once per cell and cells never repeat.
    let mut seen = vec![false; 69_120];
    for cell in 0..69_120i64 {
        let lng = normalize(WHEEL_START_MAS + cell * BASE_SPAN_MAS);
        let gp = degree_to_gate(lng);
        let slot = (cell / 1080) as usize;
        assert_eq!(gp.gate, gate_for_slot(slot));
        assert_eq!(gp.line as i64, (cell / 180) % 6 + 1);
        assert_eq!(gp.color as i64, (cell / 30) % 6 + 1);
        assert_eq!(gp.tone as i64, (cell / 5) % 6 + 1);
        assert_eq!(gp.base as i64, cell % 5 + 1);
        let idx = cell as usize;
        assert!(!seen[idx]);
        seen[idx] = true;
    }
    assert!(seen.iter().all(|&b| b));
}

#[test]
fn tuples_are_constant_within_a_cell() {
    for &cell in [0i64, 1, 1079, 1080, 34_567, 69_119].iter() {
        let start = normalize(WHEEL_START_MAS + cell * BASE_SPAN_MAS);
        let a = degree_to_gate(start);
        let b = degree_to_gate(normalize(start + 1));
        let c = degree_to_gate(normalize(start + BASE_SPAN_MAS - 1));
        for other in [&b, &c] {
            assert_eq!(a.gate, other.gate);
            assert_eq!(a.line, other.line);
            assert_eq!(a.color, other.color);
            assert_eq!(a.tone, other.tone);
            assert_eq!(a.base, other.base);
        }
    }
}

#[test]
fn zero_longitude_reads_gate_25() {
    // 0 degrees lies 58 degrees past the wheel start: slot 10, gate 25.
    let gp = degree_to_gate(0);
    assert_eq!(gp.gate, 25);
    assert_eq!(gp.line, 2);
}

#[test]
fn zodiac_partition() {
    assert_eq!(degree_to_zodiac(0), (0, 0));
    assert_eq!(degree_to_zodiac(29 * MAS_PER_DEG), (0, 29 * MAS_PER_DEG));
    assert_eq!(degree_to_zodiac(30 * MAS_PER_DEG), (1, 0));
    assert_eq!(degree_to_zodiac(359 * MAS_PER_DEG), (11, 29 * MAS_PER_DEG));
    assert_eq!(zodiac_key_for(0), "aries");
    assert_eq!(zodiac_key_for(11), "pisces");
    assert_eq!(zodiac_symbol_from_key("aries"), "\u{2648}\u{FE0E}");
    assert_eq!(zodiac_symbol_from_key("nonsense"), "");
}
