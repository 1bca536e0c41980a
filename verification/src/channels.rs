//! The channel table: the 36 fixed gate-pair edges between body centers.
//!
//! The table lists some gate pairs twice, once from each side; the dedup step
//! keys channels by their unordered gate pair.

use vstd::prelude::*;
use crate::centers::Center;
use crate::strutil::{dec_digits, u8_to_string};

verus! {

/// A channel: an edge of the body graph.  Its two gates sit on its two
/// centers; the channel is active when both gates are activated.
#[derive(Clone, Copy, PartialEq, Eq, Structural, Debug)]
pub struct ChannelDef {
    /// Gate on `center_a`.
    pub gate_a: u8,
    /// Gate on `center_b`.
    pub gate_b: u8,
    /// The center `gate_a` belongs to.
    pub center_a: Center,
    /// The center `gate_b` belongs to.
    pub center_b: Center,
}

/// The fixed channel table: the 36 channels of the body graph.  A few gate
/// pairs are listed in both orientations and collapse under
/// `unique_channels`.
pub open spec fn channel_table() -> Seq<ChannelDef> {
    seq![
        ChannelDef { gate_a: 64, gate_b: 47, center_a: Center::Head, center_b: Center::Ajna },
        ChannelDef { gate_a: 61, gate_b: 24, center_a: Center::Head, center_b: Center::Ajna },
        ChannelDef { gate_a: 63, gate_b: 4, center_a: Center::Head, center_b: Center::Ajna },
        ChannelDef { gate_a: 17, gate_b: 62, center_a: Center::Ajna, center_b: Center::Throat },
        ChannelDef { gate_a: 43, gate_b: 23, center_a: Center::Ajna, center_b: Center::Throat },
        ChannelDef { gate_a: 11, gate_b: 56, center_a: Center::Ajna, center_b: Center::Throat },
        ChannelDef { gate_a: 7, gate_b: 31, center_a: Center::G, center_b: Center::Throat },
        ChannelDef { gate_a: 1, gate_b: 8, center_a: Center::G, center_b: Center::Throat },
        ChannelDef { gate_a: 13, gate_b: 33, center_a: Center::G, center_b: Center::Throat },
        ChannelDef { gate_a: 10, gate_b: 20, center_a: Center::G, center_b: Center::Throat },
        ChannelDef { gate_a: 16, gate_b: 48, center_a: Center::Throat, center_b: Center::Spleen },
        ChannelDef { gate_a: 20, gate_b: 57, center_a: Center::Throat, center_b: Center::Spleen },
        ChannelDef { gate_a: 20, gate_b: 34, center_a: Center::Throat, center_b: Center::Sacral },
        ChannelDef { gate_a: 12, gate_b: 22, center_a: Center::Throat, center_b: Center::SolarPlexus },
        ChannelDef { gate_a: 35, gate_b: 36, center_a: Center::Throat, center_b: Center::SolarPlexus },
        ChannelDef { gate_a: 45, gate_b: 21, center_a: Center::Throat, center_b: Center::Heart },
        ChannelDef { gate_a: 2, gate_b: 14, center_a: Center::G, center_b: Center::Sacral },
        ChannelDef { gate_a: 10, gate_b: 34, center_a: Center::G, center_b: Center::Sacral },
        ChannelDef { gate_a: 10, gate_b: 57, center_a: Center::G, center_b: Center::Spleen },
        ChannelDef { gate_a: 25, gate_b: 51, center_a: Center::G, center_b: Center::Heart },
        ChannelDef { gate_a: 15, gate_b: 5, center_a: Center::G, center_b: Center::Sacral },
        ChannelDef { gate_a: 46, gate_b: 29, center_a: Center::G, center_b: Center::Sacral },
        ChannelDef { gate_a: 26, gate_b: 44, center_a: Center::Heart, center_b: Center::Spleen },
        ChannelDef { gate_a: 40, gate_b: 37, center_a: Center::Heart, center_b: Center::SolarPlexus },
        ChannelDef { gate_a: 59, gate_b: 6, center_a: Center::Sacral, center_b: Center::SolarPlexus },
        ChannelDef { gate_a: 27, gate_b: 50, center_a: Center::Sacral, center_b: Center::Spleen },
        ChannelDef { gate_a: 34, gate_b: 57, center_a: Center::Sacral, center_b: Center::Spleen },
        ChannelDef { gate_a: 5, gate_b: 15, center_a: Center::Sacral, center_b: Center::G },
        ChannelDef { gate_a: 14, gate_b: 2, center_a: Center::Sacral, center_b: Center::G },
        ChannelDef { gate_a: 29, gate_b: 46, center_a: Center::Sacral, center_b: Center::G },
        ChannelDef { gate_a: 42, gate_b: 53, center_a: Center::Sacral, center_b: Center::Root },
        ChannelDef { gate_a: 3, gate_b: 60, center_a: Center::Sacral, center_b: Center::Root },
        ChannelDef { gate_a: 9, gate_b: 52, center_a: Center::Sacral, center_b: Center::Root },
        ChannelDef { gate_a: 57, gate_b: 20, center_a: Center::Spleen, center_b: Center::Throat },
        ChannelDef { gate_a: 18, gate_b: 58, center_a: Center::Spleen, center_b: Center::Root },
        ChannelDef { gate_a: 28, gate_b: 38, center_a: Center::Spleen, center_b: Center::Root },
        ChannelDef { gate_a: 32, gate_b: 54, center_a: Center::Spleen, center_b: Center::Root },
        ChannelDef { gate_a: 39, gate_b: 55, center_a: Center::Root, center_b: Center::SolarPlexus },
        ChannelDef { gate_a: 41, gate_b: 30, center_a: Center::Root, center_b: Center::SolarPlexus },
        ChannelDef { gate_a: 19, gate_b: 49, center_a: Center::Root, center_b: Center::SolarPlexus },
    ]
}

/// The unordered gate pair of a channel: smaller gate first.
pub open spec fn gate_pair(ch: ChannelDef) -> (u8, u8) {
    if ch.gate_a < ch.gate_b {
        (ch.gate_a, ch.gate_b)
    } else {
        (ch.gate_b, ch.gate_a)
    }
}

/// The text key of a channel: smaller gate, a dash, larger gate.
pub open spec fn channel_key_chars(ch: ChannelDef) -> Seq<char> {
    dec_digits(gate_pair(ch).0 as int) + "-"@ + dec_digits(gate_pair(ch).1 as int)
}

impl ChannelDef {
    /// The channel's text key, e.g. the 1-8 channel between G and Throat.
    pub fn key(&self) -> (r: String)
        ensures
            r@ == channel_key_chars(*self),
    {
        let (lo, hi) = if self.gate_a < self.gate_b {
            (self.gate_a, self.gate_b)
        } else {
            (self.gate_b, self.gate_a)
        };
        let mut s = u8_to_string(lo);
        s.append("-");
        let hi_s = u8_to_string(hi);
        s.append(hi_s.as_str());
        s
    }
}

/// The whole channel table as a vector.
pub fn all_channels() -> (v: Vec<ChannelDef>)
    ensures
        v@ == channel_table(),
{
    let mut v: Vec<ChannelDef> = Vec::new();
    v.push(ChannelDef { gate_a: 64, gate_b: 47, center_a: Center::Head, center_b: Center::Ajna });
    v.push(ChannelDef { gate_a: 61, gate_b: 24, center_a: Center::Head, center_b: Center::Ajna });
    v.push(ChannelDef { gate_a: 63, gate_b: 4, center_a: Center::Head, center_b: Center::Ajna });
    v.push(ChannelDef { gate_a: 17, gate_b: 62, center_a: Center::Ajna, center_b: Center::Throat });
    v.push(ChannelDef { gate_a: 43, gate_b: 23, center_a: Center::Ajna, center_b: Center::Throat });
    v.push(ChannelDef { gate_a: 11, gate_b: 56, center_a: Center::Ajna, center_b: Center::Throat });
    v.push(ChannelDef { gate_a: 7, gate_b: 31, center_a: Center::G, center_b: Center::Throat });
    v.push(ChannelDef { gate_a: 1, gate_b: 8, center_a: Center::G, center_b: Center::Throat });
    v.push(ChannelDef { gate_a: 13, gate_b: 33, center_a: Center::G, center_b: Center::Throat });
    v.push(ChannelDef { gate_a: 10, gate_b: 20, center_a: Center::G, center_b: Center::Throat });
    v.push(ChannelDef { gate_a: 16, gate_b: 48, center_a: Center::Throat, center_b: Center::Spleen });
    v.push(ChannelDef { gate_a: 20, gate_b: 57, center_a: Center::Throat, center_b: Center::Spleen });
    v.push(ChannelDef { gate_a: 20, gate_b: 34, center_a: Center::Throat, center_b: Center::Sacral });
    v.push(ChannelDef { gate_a: 12, gate_b: 22, center_a: Center::Throat, center_b: Center::SolarPlexus });
    v.push(ChannelDef { gate_a: 35, gate_b: 36, center_a: Center::Throat, center_b: Center::SolarPlexus });
    v.push(ChannelDef { gate_a: 45, gate_b: 21, center_a: Center::Throat, center_b: Center::Heart });
    v.push(ChannelDef { gate_a: 2, gate_b: 14, center_a: Center::G, center_b: Center::Sacral });
    v.push(ChannelDef { gate_a: 10, gate_b: 34, center_a: Center::G, center_b: Center::Sacral });
    v.push(ChannelDef { gate_a: 10, gate_b: 57, center_a: Center::G, center_b: Center::Spleen });
    v.push(ChannelDef { gate_a: 25, gate_b: 51, center_a: Center::G, center_b: Center::Heart });
    v.push(ChannelDef { gate_a: 15, gate_b: 5, center_a: Center::G, center_b: Center::Sacral });
    v.push(ChannelDef { gate_a: 46, gate_b: 29, center_a: Center::G, center_b: Center::Sacral });
    v.push(ChannelDef { gate_a: 26, gate_b: 44, center_a: Center::Heart, center_b: Center::Spleen });
    v.push(ChannelDef { gate_a: 40, gate_b: 37, center_a: Center::Heart, center_b: Center::SolarPlexus });
    v.push(ChannelDef { gate_a: 59, gate_b: 6, center_a: Center::Sacral, center_b: Center::SolarPlexus });
    v.push(ChannelDef { gate_a: 27, gate_b: 50, center_a: Center::Sacral, center_b: Center::Spleen });
    v.push(ChannelDef { gate_a: 34, gate_b: 57, center_a: Center::Sacral, center_b: Center::Spleen });
    v.push(ChannelDef { gate_a: 5, gate_b: 15, center_a: Center::Sacral, center_b: Center::G });
    v.push(ChannelDef { gate_a: 14, gate_b: 2, center_a: Center::Sacral, center_b: Center::G });
    v.push(ChannelDef { gate_a: 29, gate_b: 46, center_a: Center::Sacral, center_b: Center::G });
    v.push(ChannelDef { gate_a: 42, gate_b: 53, center_a: Center::Sacral, center_b: Center::Root });
    v.push(ChannelDef { gate_a: 3, gate_b: 60, center_a: Center::Sacral, center_b: Center::Root });
    v.push(ChannelDef { gate_a: 9, gate_b: 52, center_a: Center::Sacral, center_b: Center::Root });
    v.push(ChannelDef { gate_a: 57, gate_b: 20, center_a: Center::Spleen, center_b: Center::Throat });
    v.push(ChannelDef { gate_a: 18, gate_b: 58, center_a: Center::Spleen, center_b: Center::Root });
    v.push(ChannelDef { gate_a: 28, gate_b: 38, center_a: Center::Spleen, center_b: Center::Root });
    v.push(ChannelDef { gate_a: 32, gate_b: 54, center_a: Center::Spleen, center_b: Center::Root });
    v.push(ChannelDef { gate_a: 39, gate_b: 55, center_a: Center::Root, center_b: Center::SolarPlexus });
    v.push(ChannelDef { gate_a: 41, gate_b: 30, center_a: Center::Root, center_b: Center::SolarPlexus });
    v.push(ChannelDef { gate_a: 19, gate_b: 49, center_a: Center::Root, center_b: Center::SolarPlexus });
    proof {
        assert(v@ =~= channel_table());
    }
    v
}

/// The predicate a channel must pass to be active for a gate set: both its
/// gates are activated.
pub open spec fn channel_active(ch: ChannelDef, gates: Seq<u8>) -> bool {
    gates.contains(ch.gate_a) && gates.contains(ch.gate_b)
}

/// The channels of a list whose both gates are in `gates`, in list order.
pub open spec fn filter_active(chs: Seq<ChannelDef>, gates: Seq<u8>) -> Seq<ChannelDef>
    decreases chs.len(),
{
    if chs.len() == 0 {
        Seq::empty()
    } else {
        let rest = filter_active(chs.drop_last(), gates);
        if channel_active(chs.last(), gates) {
            rest.push(chs.last())
        } else {
            rest
        }
    }
}

/// Membership in the filtered list: a channel is there exactly when it is in
/// the original list and both its gates are active.
pub proof fn lemma_filter_active_members(chs: Seq<ChannelDef>, gates: Seq<u8>, ch: ChannelDef)
    ensures
        filter_active(chs, gates).contains(ch) <==> (chs.contains(ch) && channel_active(
            ch,
            gates,
        )),
    decreases chs.len(),
{
    if chs.len() > 0 {
        let rest = chs.drop_last();
        lemma_filter_active_members(rest, gates, ch);
        let f = filter_active(chs, gates);
        let fr = filter_active(rest, gates);
        if f.contains(ch) {
            let k = choose|k: int| 0 <= k < f.len() && f[k] == ch;
            if k < fr.len() {
                assert(fr.contains(ch));
                let m = choose|m: int| 0 <= m < rest.len() && rest[m] == ch;
                assert(chs[m] == ch);
            } else {
                assert(ch == chs.last());
                assert(chs[chs.len() - 1] == ch);
            }
        }
        if chs.contains(ch) && channel_active(ch, gates) {
            let m = choose|m: int| 0 <= m < chs.len() && chs[m] == ch;
            if m < chs.len() - 1 {
                assert(rest[m] == ch);
                assert(rest.contains(ch));
                let k = choose|k: int| 0 <= k < fr.len() && fr[k] == ch;
                assert(f[k] == ch);
            } else {
                assert(f[f.len() - 1] == ch);
            }
        }
    }
}

/// Filters the channel table down to the channels whose both gates are in
/// `active_gates`.
pub fn find_active_channels(active_gates: &Vec<u8>) -> (r: Vec<ChannelDef>)
    ensures
        r@ == filter_active(channel_table(), active_gates@),
{
    let all = all_channels();
    let mut r: Vec<ChannelDef> = Vec::new();
    let mut i: usize = 0;
    while i < all.len()
        invariant
            all@ == channel_table(),
            i <= all@.len(),
            r@ == filter_active(all@.take(i as int), active_gates@),
        decreases all@.len() - i,
    {
        let ch = all[i];
        let both = contains_gate(active_gates, ch.gate_a) && contains_gate(active_gates, ch.gate_b);
        proof {
            assert(all@.take(i as int + 1).drop_last() =~= all@.take(i as int));
            assert(all@.take(i as int + 1).last() == ch);
        }
        if both {
            r.push(ch);
        }
        i = i + 1;
    }
    proof {
        assert(all@.take(all@.len() as int) =~= all@);
    }
    r
}

/// Whether a gate id occurs in a gate list.
pub fn contains_gate(gates: &Vec<u8>, g: u8) -> (r: bool)
    ensures
        r == gates@.contains(g),
{
    let mut i: usize = 0;
    while i < gates.len()
        invariant
            i <= gates@.len(),
            forall|j: int| 0 <= j < i ==> gates@[j] != g,
        decreases gates@.len() - i,
    {
        if gates[i] == g {
            return true;
        }
        i = i + 1;
    }
    false
}

/// A channel is in the active set exactly when it stands in the table and
/// both its gates are activated: one present gate alone activates nothing.
pub proof fn lemma_channel_active_iff(gates: Seq<u8>, ch: ChannelDef)
    ensures
        filter_active(channel_table(), gates).contains(ch) <==> (channel_table().contains(ch)
            && channel_active(ch, gates)),
{
    lemma_filter_active_members(channel_table(), gates, ch);
}

/// Deduplication by unordered gate pair, keeping first occurrences: an
/// element stays exactly when no earlier element has its gate pair.
pub open spec fn dedup_by_pair(s: Seq<ChannelDef>) -> Seq<ChannelDef>
    decreases s.len(),
{
    if s.len() == 0 {
        s
    } else {
        let rest = dedup_by_pair(s.drop_last());
        if has_pair(s.drop_last(), gate_pair(s.last())) {
            rest
        } else {
            rest.push(s.last())
        }
    }
}

/// Whether some element of `s` has the unordered gate pair `p`.
pub open spec fn has_pair(s: Seq<ChannelDef>, p: (u8, u8)) -> bool {
    exists|j: int| 0 <= j < s.len() && gate_pair(#[trigger] s[j]) == p
}

/// Removes channels whose unordered gate pair already occurred earlier in
/// the list.
pub fn unique_channels(channels: Vec<ChannelDef>) -> (r: Vec<ChannelDef>)
    ensures
        r@ == dedup_by_pair(channels@),
{
    let mut r: Vec<ChannelDef> = Vec::new();
    let mut i: usize = 0;
    while i < channels.len()
        invariant
            i <= channels@.len(),
            r@ == dedup_by_pair(channels@.take(i as int)),
            forall|p: (u8, u8)| has_pair(r@, p) <==> has_pair(channels@.take(i as int), p),
        decreases channels@.len() - i,
    {
        let ch = channels[i];
        let (lo, hi) = if ch.gate_a < ch.gate_b {
            (ch.gate_a, ch.gate_b)
        } else {
            (ch.gate_b, ch.gate_a)
        };
        let mut seen = false;
        let mut j: usize = 0;
        while j < r.len()
            invariant
                j <= r@.len(),
                (lo, hi) == gate_pair(ch),
                seen <==> exists|k: int| 0 <= k < j && gate_pair(#[trigger] r@[k]) == (lo, hi),
            decreases r@.len() - j,
        {
            let e = r[j];
            let (elo, ehi) = if e.gate_a < e.gate_b {
                (e.gate_a, e.gate_b)
            } else {
                (e.gate_b, e.gate_a)
            };
            if elo == lo && ehi == hi {
                seen = true;
            }
            j = j + 1;
        }
        proof {
            assert(seen <==> has_pair(r@, gate_pair(ch)));
            assert(channels@.take(i as int + 1).drop_last() =~= channels@.take(i as int));
            assert(channels@.take(i as int + 1).last() == ch);
        }
        let ghost old_r = r@;
        if !seen {
            r.push(ch);
        }
        proof {
            assert forall|p: (u8, u8)| has_pair(r@, p) <==> has_pair(
                channels@.take(i as int + 1),
                p,
            ) by {
                let pre = channels@.take(i as int);
                let cur = channels@.take(i as int + 1);
                assert(cur[i as int] == ch);
                if has_pair(r@, p) {
                    let k = choose|k: int| 0 <= k < r@.len() && gate_pair(#[trigger] r@[k]) == p;
                    if k < old_r.len() {
                        assert(gate_pair(old_r[k]) == p);
                        assert(has_pair(old_r, p));
                        assert(has_pair(pre, p));
                        let m = choose|m: int|
                            0 <= m < pre.len() && gate_pair(#[trigger] pre[m]) == p;
                        assert(gate_pair(cur[m]) == p);
                        assert(has_pair(cur, p));
                    } else {
                        assert(r@[k] == ch);
                        assert(gate_pair(cur[i as int]) == p);
                        assert(has_pair(cur, p));
                    }
                }
                if has_pair(cur, p) {
                    let m = choose|m: int| 0 <= m < cur.len() && gate_pair(#[trigger] cur[m]) == p;
                    if m < i as int {
                        assert(gate_pair(pre[m]) == p);
                        assert(has_pair(pre, p));
                        assert(has_pair(old_r, p));
                        let k = choose|k: int|
                            0 <= k < old_r.len() && gate_pair(#[trigger] old_r[k]) == p;
                        assert(gate_pair(r@[k]) == p);
                        assert(has_pair(r@, p));
                    } else {
                        assert(gate_pair(ch) == p);
                        if seen {
                            assert(has_pair(old_r, gate_pair(ch)));
                            let k = choose|k: int|
                                0 <= k < old_r.len() && gate_pair(#[trigger] old_r[k]) == p;
                            assert(gate_pair(r@[k]) == p);
                            assert(has_pair(r@, p));
                        } else {
                            assert(gate_pair(r@[r@.len() - 1]) == p);
                            assert(has_pair(r@, p));
                        }
                    }
                }
            }
        }
        i = i + 1;
    }
    proof {
        assert(channels@.take(channels@.len() as int) =~= channels@);
    }
    r
}

/// After dedup no two channels share a gate pair, and every pair of the
/// input survives: each gate-pair key appears exactly once.
pub proof fn lemma_dedup_by_pair(s: Seq<ChannelDef>)
    ensures
        forall|i: int, j: int|
            0 <= i < j < dedup_by_pair(s).len() ==> gate_pair(#[trigger] dedup_by_pair(s)[i])
                != gate_pair(#[trigger] dedup_by_pair(s)[j]),
        forall|p: (u8, u8)| has_pair(dedup_by_pair(s), p) <==> has_pair(s, p),
        forall|ch: ChannelDef| #[trigger] dedup_by_pair(s).contains(ch) ==> s.contains(ch),
    decreases s.len(),
{
    if s.len() > 0 {
        let rest = s.drop_last();
        lemma_dedup_by_pair(rest);
        let d = dedup_by_pair(s);
        let dr = dedup_by_pair(rest);
        assert forall|p: (u8, u8)| has_pair(dr, p) <==> has_pair(rest, p) by {}
        assert forall|ch: ChannelDef| #[trigger] dr.contains(ch) implies rest.contains(ch) by {
            let k = choose|k: int| 0 <= k < rest.len() && rest[k] == ch;
            assert(s[k] == ch);
        }
        assert forall|ch: ChannelDef| #[trigger] d.contains(ch) implies s.contains(ch) by {
            let k = choose|k: int| 0 <= k < d.len() && d[k] == ch;
            if k < dr.len() {
                assert(dr.contains(ch));
                let m = choose|m: int| 0 <= m < rest.len() && rest[m] == ch;
                assert(s[m] == ch);
            } else {
                assert(ch == s.last());
                assert(s[s.len() - 1] == ch);
            }
        }
        assert forall|p: (u8, u8)| has_pair(d, p) <==> has_pair(s, p) by {
            if has_pair(d, p) {
                let k = choose|k: int| 0 <= k < d.len() && gate_pair(d[k]) == p;
                if k < dr.len() {
                    assert(has_pair(dr, p));
                    let m = choose|m: int| 0 <= m < rest.len() && gate_pair(rest[m]) == p;
                    assert(gate_pair(s[m]) == p);
                } else {
                    assert(gate_pair(s[s.len() - 1]) == p);
                }
            }
            if has_pair(s, p) {
                let m = choose|m: int| 0 <= m < s.len() && gate_pair(s[m]) == p;
                if m < s.len() - 1 {
                    assert(gate_pair(rest[m]) == p);
                    assert(has_pair(rest, p));
                    let k = choose|k: int| 0 <= k < dr.len() && gate_pair(dr[k]) == p;
                    assert(gate_pair(d[k]) == p);
                } else {
                    if has_pair(rest, gate_pair(s.last())) {
                        let k = choose|k: int| 0 <= k < dr.len() && gate_pair(dr[k]) == p;
                        assert(gate_pair(d[k]) == p);
                    } else {
                        assert(gate_pair(d[d.len() - 1]) == p);
                    }
                }
            }
        }
    }
}

} // verus!
