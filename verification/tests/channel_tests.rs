//! Channels: the table, activation, keys and dedup by unordered pair.

use std::collections::HashSet;

use hd_cli::centers::{gates_for_center, Center};
use hd_cli::channels::{all_channels, find_active_channels, unique_channels, ChannelDef};

#[test]
fn table_has_the_full_edge_list() {
    let all = all_channels();
    assert_eq!(all.len(), 40);
    for ch in all.iter() {
        assert!(1 <= ch.gate_a && ch.gate_a <= 64);
        assert!(1 <= ch.gate_b && ch.gate_b <= 64);
        assert_ne!(ch.gate_a, ch.gate_b);
        assert_ne!(ch.center_a, ch.center_b);
    }
}

#[test]
fn channel_key_orders_gates() {
    let ch = ChannelDef { gate_a: 1, gate_b: 8, center_a: Center::G, center_b: Center::Throat };
    assert_eq!(ch.key(), "1-8");
    let rev = ChannelDef { gate_a: 8, gate_b: 1, center_a: Center::Throat, center_b: Center::G };
    assert_eq!(rev.key(), "1-8");
    let wide = ChannelDef {
        gate_a: 64,
        gate_b: 47,
        center_a: Center::Head,
        center_b: Center::Ajna,
    };
    assert_eq!(wide.key(), "47-64");
}

#[test]
fn channel_needs_both_gates() {
    // Gate pair (1, 8) activates the G-Throat channel only when both gates
    // are present.
    let both = find_active_channels(&vec![1u8, 8]);
    assert_eq!(both.len(), 1);
    assert_eq!(both[0].key(), "1-8");
    assert_eq!(both[0].center_a, Center::G);
    assert_eq!(both[0].center_b, Center::Throat);

    let only_one = find_active_channels(&vec![1u8]);
    assert!(only_one.is_empty());
    let only_other = find_active_channels(&vec![8u8]);
    assert!(only_other.is_empty());
}

#[test]
fn activation_with_duplicated_rows_dedups() {
    // Gates 20, 34, 57 activate three channels; the 20-57 pair stands twice
    // in the table and must come out once.
    let active = find_active_channels(&vec![20u8, 34, 57]);
    let unique = unique_channels(active);
    let keys: Vec<String> = unique.iter().map(|c| c.key()).collect();
    let keyset: HashSet<&String> = keys.iter().collect();
    assert_eq!(keys.len(), keyset.len());
    assert!(keys.contains(&"20-34".to_string()));
    assert!(keys.contains(&"20-57".to_string()));
    assert!(keys.contains(&"34-57".to_string()));
    assert_eq!(keys.len(), 3);
}

#[test]
fn table_dedups_to_the_36_channels() {
    let unique = unique_channels(all_channels());
    assert_eq!(unique.len(), 36);
    let mut pairs: HashSet<(u8, u8)> = HashSet::new();
    for ch in unique.iter() {
        let pair = if ch.gate_a < ch.gate_b {
            (ch.gate_a, ch.gate_b)
        } else {
            (ch.gate_b, ch.gate_a)
        };
        pairs.insert(pair);
    }
    assert!(pairs.contains(&(10, 57)));
}

#[test]
fn gates_10_and_57_close_their_channel() {
    // The G-Spleen channel needs both its gates, like every other.
    let active = unique_channels(find_active_channels(&vec![10u8, 57]));
    assert_eq!(active.len(), 1);
    assert_eq!(active[0].key(), "10-57");
    assert_eq!(active[0].center_a, Center::G);
    assert_eq!(active[0].center_b, Center::Spleen);
    assert!(unique_channels(find_active_channels(&vec![10u8])).is_empty());
    assert!(unique_channels(find_active_channels(&vec![57u8])).is_empty());
}

#[test]
fn dedup_keeps_each_pair_once() {
    // Feed the whole table twice: every gate pair of the table must appear
    // exactly once afterwards.
    let mut doubled = all_channels();
    let mut again = all_channels();
    doubled.append(&mut again);
    let unique = unique_channels(doubled);
    let mut seen: HashSet<(u8, u8)> = HashSet::new();
    for ch in unique.iter() {
        let pair = if ch.gate_a < ch.gate_b {
            (ch.gate_a, ch.gate_b)
        } else {
            (ch.gate_b, ch.gate_a)
        };
        assert!(seen.insert(pair));
    }
    let mut table_pairs: HashSet<(u8, u8)> = HashSet::new();
    for ch in all_channels().iter() {
        let pair = if ch.gate_a < ch.gate_b {
            (ch.gate_a, ch.gate_b)
        } else {
            (ch.gate_b, ch.gate_a)
        };
        table_pairs.insert(pair);
    }
    assert_eq!(seen, table_pairs);
}

#[test]
fn centers_know_their_gates_and_motors() {
    assert!(gates_for_center(&Center::Throat).contains(&20));
    assert!(gates_for_center(&Center::G).contains(&1));
    assert_eq!(gates_for_center(&Center::Head), vec![64u8, 61, 63]);
    assert!(Center::Sacral.is_motor());
    assert!(Center::Heart.is_motor());
    assert!(Center::SolarPlexus.is_motor());
    assert!(Center::Root.is_motor());
    assert!(!Center::Throat.is_motor());
    assert!(!Center::Head.is_motor());
    assert!(!Center::G.is_motor());
    assert_eq!(Center::all().len(), 9);
    assert_eq!(Center::Sacral.key(), "sacral");
    assert_eq!(Center::SolarPlexus.db_key(), "Эмоциональный центр");
    assert_eq!(Center::Head.name_ru(), "Теменной");
}
