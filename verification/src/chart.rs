//! Chart assembly: from the two sets of thirteen longitudes to the full
//! chart, with the texts the repository has for each part.
//!
//! The caller supplies the longitudes (birth and design, in chart order) and
//! the repository; everything from the wheel reading to the type, authority,
//! profile and cross classification happens here.

use vstd::prelude::*;
use vstd::string::StringExecFns;
use crate::angle::norm_mas;
use crate::centers::{center_key_chars, center_order, Center};
use crate::channels::{
    channel_key_chars, dedup_by_pair, filter_active, find_active_channels, gate_pair,
    unique_channels, channel_table, contains_gate, ChannelDef,
};
use crate::classify::{
    authority_key_chars, authority_rule, defined_in, determine_authority, determine_type,
    find_defined_centers, type_key_chars, type_rule, Authority, CenterSet, HdType,
};
use crate::database::{
    assoc, assoc_str, authority_lookup, center_lookup, channel_lookup, cross_lookup, fear_lookup,
    gate_lookup, line_lookup, phs_color_lookup, phs_tone_lookup, profile_lookup, strategy_lookup,
    type_lookup, GateData, HdDatabase, MetaObject, PhsBlock,
};
use crate::gates::{
    base_of, color_of, degree_to_gate, gate_at, gate_slot_of, line_of, sign_index_of,
    sign_within_of, tone_of, zodiac_key_chars, zodiac_key_for, zodiac_symbol_chars,
    zodiac_symbol_from_key, GatePosition,
};
use crate::models::{ChannelInfo, CenterInfo, HdChart, InfoItem, PlanetPosition};
use crate::planets::{planet_name_chars, planet_order, planet_symbol_chars, HdPlanet};
use crate::strutil::{
    dec_digits, pad2, pad2_chars, pad4, pad4_chars, seq_contains_sub, u8_to_string, contains_sub,
};

verus! {

/// The three incarnation-cross angles.
#[derive(Clone, Copy, PartialEq, Eq, Structural, Debug)]
pub enum CrossAngle {
    RightAngle,
    Juxtaposition,
    LeftAngle,
}

/// The key a cross angle is tagged with inside cross names.
pub open spec fn angle_key_chars(a: CrossAngle) -> Seq<char> {
    match a {
        CrossAngle::RightAngle => "right_angle"@,
        CrossAngle::Juxtaposition => "juxtaposition"@,
        CrossAngle::LeftAngle => "left_angle"@,
    }
}

/// The angle of a profile: the fixed table over the personality and design
/// Sun lines; a pair outside the table reads as the right angle.
pub open spec fn angle_rule(p: int, d: int) -> CrossAngle {
    if (p == 1 && d == 3) || (p == 1 && d == 4) || (p == 2 && d == 4) || (p == 2 && d == 5) || (p
        == 3 && d == 5) || (p == 3 && d == 6) || (p == 4 && d == 6) {
        CrossAngle::RightAngle
    } else if p == 4 && d == 1 {
        CrossAngle::Juxtaposition
    } else if (p == 5 && d == 1) || (p == 5 && d == 2) || (p == 6 && d == 2) || (p == 6 && d
        == 3) {
        CrossAngle::LeftAngle
    } else {
        CrossAngle::RightAngle
    }
}

impl CrossAngle {
    /// The angle's key.
    pub fn key(&self) -> (r: &'static str)
        ensures
            r@ == angle_key_chars(*self),
    {
        match self {
            CrossAngle::RightAngle => "right_angle",
            CrossAngle::Juxtaposition => "juxtaposition",
            CrossAngle::LeftAngle => "left_angle",
        }
    }
}

/// Classifies a profile's cross angle.
pub fn cross_angle_of(p: u8, d: u8) -> (r: CrossAngle)
    ensures
        r == angle_rule(p as int, d as int),
{
    if (p == 1 && d == 3) || (p == 1 && d == 4) || (p == 2 && d == 4) || (p == 2 && d == 5) || (p
        == 3 && d == 5) || (p == 3 && d == 6) || (p == 4 && d == 6) {
        CrossAngle::RightAngle
    } else if p == 4 && d == 1 {
        CrossAngle::Juxtaposition
    } else if (p == 5 && d == 1) || (p == 5 && d == 2) || (p == 6 && d == 2) || (p == 6 && d
        == 3) {
        CrossAngle::LeftAngle
    } else {
        CrossAngle::RightAngle
    }
}

/// The gates a list of longitudes activates, position by position.
pub open spec fn gates_seq(lngs: Seq<i64>) -> Seq<u8> {
    Seq::new(lngs.len(), |i: int| gate_at(gate_slot_of(lngs[i] as int)))
}

/// Whether a gate occurs in either gate list.
pub open spec fn in_either(g: u8, a: Seq<u8>, b: Seq<u8>) -> bool {
    a.contains(g) || b.contains(g)
}

/// The sorted deduplicated list of active gates among ids 1 to `n`: gate ids
/// scanned in order, kept when either list holds them.
pub open spec fn active_scan(n: int, a: Seq<u8>, b: Seq<u8>) -> Seq<u8>
    decreases n,
{
    if n <= 0 {
        Seq::empty()
    } else {
        let rest = active_scan(n - 1, a, b);
        if in_either(n as u8, a, b) {
            rest.push(n as u8)
        } else {
            rest
        }
    }
}

/// Membership in the scan: a gate is there exactly when it is in range and
/// one of the lists holds it.
pub proof fn lemma_active_scan_members(n: int, a: Seq<u8>, b: Seq<u8>, g: u8)
    requires
        0 <= n <= 255,
    ensures
        active_scan(n, a, b).contains(g) <==> (1 <= g <= n && in_either(g, a, b)),
    decreases n,
{
    if n > 0 {
        lemma_active_scan_members(n - 1, a, b, g);
        let s = active_scan(n, a, b);
        let rest = active_scan(n - 1, a, b);
        if s.contains(g) {
            let k = choose|k: int| 0 <= k < s.len() && s[k] == g;
            if k < rest.len() {
                assert(rest.contains(g));
            }
        }
        if 1 <= g <= n && in_either(g, a, b) {
            if g <= n - 1 {
                let k = choose|k: int| 0 <= k < rest.len() && rest[k] == g;
                assert(s[k] == g);
            } else {
                assert(s[s.len() - 1] == g);
            }
        }
    }
}

/// The chart's active gate list: every gate activated by either time point,
/// sorted and without duplicates.
pub open spec fn chart_active_gates(pers: Seq<i64>, des: Seq<i64>) -> Seq<u8> {
    active_scan(64, gates_seq(pers), gates_seq(des))
}

/// The chart's active channels: the table filtered by the active gates, then
/// deduplicated by unordered gate pair.
pub open spec fn chart_channels(pers: Seq<i64>, des: Seq<i64>) -> Seq<ChannelDef> {
    dedup_by_pair(filter_active(channel_table(), chart_active_gates(pers, des)))
}

/// The centers defined by a channel list, as a center set.
pub open spec fn defined_set(chs: Seq<ChannelDef>) -> CenterSet {
    CenterSet {
        head: defined_in(chs, Center::Head),
        ajna: defined_in(chs, Center::Ajna),
        throat: defined_in(chs, Center::Throat),
        g: defined_in(chs, Center::G),
        heart: defined_in(chs, Center::Heart),
        sacral: defined_in(chs, Center::Sacral),
        solar_plexus: defined_in(chs, Center::SolarPlexus),
        spleen: defined_in(chs, Center::Spleen),
        root: defined_in(chs, Center::Root),
    }
}

/// Maps longitudes to their gate activations, in order.
fn map_positions(lngs: &Vec<i64>) -> (r: Vec<GatePosition>)
    ensures
        r@.len() == lngs@.len(),
        forall|i: int|
            0 <= i < lngs@.len() ==> {
                let p = #[trigger] r@[i];
                &&& p.gate == gate_at(gate_slot_of(lngs@[i] as int))
                &&& p.line as int == line_of(lngs@[i] as int)
                &&& p.color as int == color_of(lngs@[i] as int)
                &&& p.tone as int == tone_of(lngs@[i] as int)
                &&& p.base as int == base_of(lngs@[i] as int)
                &&& p.lng_mas as int == norm_mas(lngs@[i] as int)
                &&& 1 <= p.gate <= 64
                &&& 1 <= p.line <= 6
                &&& 1 <= p.color <= 6
                &&& 1 <= p.tone <= 6
                &&& 1 <= p.base <= 5
            },
{
    let mut r: Vec<GatePosition> = Vec::new();
    let mut i: usize = 0;
    while i < lngs.len()
        invariant
            i <= lngs@.len(),
            r@.len() == i,
            forall|j: int|
                0 <= j < i ==> {
                    let p = #[trigger] r@[j];
                    &&& p.gate == gate_at(gate_slot_of(lngs@[j] as int))
                    &&& p.line as int == line_of(lngs@[j] as int)
                    &&& p.color as int == color_of(lngs@[j] as int)
                    &&& p.tone as int == tone_of(lngs@[j] as int)
                    &&& p.base as int == base_of(lngs@[j] as int)
                    &&& p.lng_mas as int == norm_mas(lngs@[j] as int)
                    &&& 1 <= p.gate <= 64
                    &&& 1 <= p.line <= 6
                    &&& 1 <= p.color <= 6
                    &&& 1 <= p.tone <= 6
                    &&& 1 <= p.base <= 5
                },
        decreases lngs@.len() - i,
    {
        r.push(degree_to_gate(lngs[i]));
        i = i + 1;
    }
    r
}

/// Gate ids of a list of activations.
fn gate_ids(positions: &Vec<GatePosition>) -> (r: Vec<u8>)
    ensures
        r@.len() == positions@.len(),
        forall|i: int| 0 <= i < positions@.len() ==> r@[i] == (#[trigger] positions@[i]).gate,
{
    let mut r: Vec<u8> = Vec::new();
    let mut i: usize = 0;
    while i < positions.len()
        invariant
            i <= positions@.len(),
            r@.len() == i,
            forall|j: int| 0 <= j < i ==> r@[j] == (#[trigger] positions@[j]).gate,
        decreases positions@.len() - i,
    {
        r.push(positions[i].gate);
        i = i + 1;
    }
    r
}

/// Collects the active gates: scans gate ids 1 to 64 in order and keeps
/// those that either time point activates, so the list comes out sorted and
/// without duplicates.
fn collect_active(pers_gates: &Vec<u8>, des_gates: &Vec<u8>) -> (r: Vec<u8>)
    ensures
        r@ == active_scan(64, pers_gates@, des_gates@),
{
    let mut r: Vec<u8> = Vec::new();
    let mut g: u8 = 1;
    while g <= 64
        invariant
            1 <= g <= 65,
            r@ == active_scan(g as int - 1, pers_gates@, des_gates@),
        decreases 65 - g as int,
    {
        if contains_gate(pers_gates, g) || contains_gate(des_gates, g) {
            r.push(g);
        }
        g = g + 1;
    }
    r
}

/// The first cross key in a list that carries the angle tag as a substring.
pub open spec fn first_cross_with(keys: Seq<String>, part: Seq<char>) -> Option<String>
    decreases keys.len(),
{
    if keys.len() == 0 {
        None
    } else if seq_contains_sub(keys[0]@, part) {
        Some(keys[0])
    } else {
        first_cross_with(keys.drop_first(), part)
    }
}

/// The cross key the chart resolves for a gate and an angle: the first of
/// that gate's cross keys tagged with the angle, else its first cross
/// key, else nothing.
pub open spec fn cross_key_spec(gates: Seq<(u8, GateData)>, gate: u8, part: Seq<char>) -> Option<
    String,
> {
    match assoc(gates, gate) {
        None => None,
        Some(gd) => match first_cross_with(gd.crosses@, part) {
            Some(k) => Some(k),
            None => if gd.crosses@.len() > 0 {
                Some(gd.crosses@[0])
            } else {
                None
            },
        },
    }
}

/// When a prefix has no tagged key and position `i` does, the first tagged
/// key is that position's.
proof fn lemma_first_cross_at(keys: Seq<String>, part: Seq<char>, i: int)
    requires
        0 <= i < keys.len(),
        seq_contains_sub(keys[i]@, part),
        forall|j: int| 0 <= j < i ==> !seq_contains_sub((#[trigger] keys[j])@, part),
    ensures
        first_cross_with(keys, part) == Some(keys[i]),
    decreases i,
{
    if i > 0 {
        let t = keys.drop_first();
        assert forall|j: int| 0 <= j < i - 1 implies !seq_contains_sub(
            (#[trigger] t[j])@,
            part,
        ) by {
            assert(t[j] == keys[j + 1]);
        }
        assert(t[i - 1] == keys[i]);
        lemma_first_cross_at(t, part, i - 1);
    }
}

/// When no key is tagged, there is no first tagged key.
proof fn lemma_first_cross_none(keys: Seq<String>, part: Seq<char>)
    requires
        forall|j: int| 0 <= j < keys.len() ==> !seq_contains_sub((#[trigger] keys[j])@, part),
    ensures
        first_cross_with(keys, part) is None,
    decreases keys.len(),
{
    if keys.len() > 0 {
        let t = keys.drop_first();
        assert forall|j: int| 0 <= j < t.len() implies !seq_contains_sub(
            (#[trigger] t[j])@,
            part,
        ) by {
            assert(t[j] == keys[j + 1]);
        }
        lemma_first_cross_none(t, part);
    }
}

/// Finds the repository key of the chart's cross: the personality Sun's gate
/// leads, the angle tag picks among its crosses, the first cross is the
/// fallback.
pub fn find_cross_key_in_db(db: &HdDatabase, sun_gate: u8, angle_key: &str) -> (r: Option<String>)
    ensures
        r == cross_key_spec(db.gates@, sun_gate, angle_key@),
{
    let gd = gate_lookup(db, sun_gate);
    match gd {
        None => None,
        Some(gd) => {
            let mut i: usize = 0;
            while i < gd.crosses.len()
                invariant
                    i <= gd.crosses@.len(),
                    assoc(db.gates@, sun_gate) == Some(*gd),
                    forall|j: int|
                        0 <= j < i ==> !seq_contains_sub((#[trigger] gd.crosses@[j])@, angle_key@),
                decreases gd.crosses@.len() - i,
            {
                if contains_sub(gd.crosses[i].as_str(), angle_key) {
                    proof {
                        lemma_first_cross_at(gd.crosses@, angle_key@, i as int);
                        assert(assoc(db.gates@, sun_gate) == Some(*gd));
                        assert(first_cross_with(gd.crosses@, angle_key@) == Some(
                            gd.crosses@[i as int],
                        ));
                        assert(cross_key_spec(db.gates@, sun_gate, angle_key@) == Some(
                            gd.crosses@[i as int],
                        ));
                    }
                    let k = gd.crosses[i].clone();
                    proof {
                        assert(k == gd.crosses@[i as int]);
                    }
                    return Some(k);
                }
                i = i + 1;
            }
            proof {
                lemma_first_cross_none(gd.crosses@, angle_key@);
            }
            if gd.crosses.len() > 0 {
                Some(gd.crosses[0].clone())
            } else {
                None
            }
        },
    }
}

/// An optional string, viewed as its characters.
pub open spec fn opt_chars(o: Option<String>) -> Option<Seq<char>> {
    match o {
        Some(s) => Some(s@),
        None => None,
    }
}

/// The type's display name: the repository's, else the key.
pub open spec fn type_display(types: Seq<(HdType, MetaObject)>, t: HdType) -> Seq<char> {
    match assoc(types, t) {
        Some(m) => m.name@,
        None => type_key_chars(t),
    }
}

/// The authority's display name: the repository's, else the key.
pub open spec fn authority_display(auths: Seq<(Authority, MetaObject)>, a: Authority) -> Seq<
    char,
> {
    match assoc(auths, a) {
        Some(m) => m.name@,
        None => authority_key_chars(a),
    }
}

/// The profile key: personality line, a slash, design line.
pub open spec fn profile_key_chars(p: int, d: int) -> Seq<char> {
    dec_digits(p) + "/"@ + dec_digits(d)
}

/// The profile's display name: the repository's, else the line pair itself.
pub open spec fn profile_display(profiles: Seq<((u8, u8), MetaObject)>, p: u8, d: u8) -> Seq<
    char,
> {
    match assoc(profiles, (p, d)) {
        Some(m) => m.name@,
        None => profile_key_chars(p as int, d as int),
    }
}

/// The strategy text: the repository's for the type, else the type key.
pub open spec fn strategy_display(strategies: Seq<(HdType, String)>, t: HdType) -> Seq<char> {
    match assoc(strategies, t) {
        Some(s) => s@,
        None => type_key_chars(t),
    }
}

/// A channel's display name: the repository's, else the channel key.
pub open spec fn channel_name_display(
    chans: Seq<((u8, u8), crate::database::ChannelData)>,
    ch: ChannelDef,
) -> Seq<char> {
    match assoc(chans, gate_pair(ch)) {
        Some(cd) => match cd.name {
            Some(n) => n@,
            None => channel_key_chars(ch),
        },
        None => channel_key_chars(ch),
    }
}

/// A center's display name: the repository's, else the center key.
pub open spec fn center_name_display(
    cdb: Seq<(Center, crate::database::CenterData)>,
    c: Center,
) -> Seq<char> {
    match assoc(cdb, c) {
        Some(cd) => cd.name@,
        None => center_key_chars(c),
    }
}

/// The four defining gates of a cross, rendered after its name.
pub open spec fn cross_suffix_chars(ps: int, pe: int, ds: int, de: int) -> Seq<char> {
    " ("@ + dec_digits(ps) + "/"@ + dec_digits(pe) + " | "@ + dec_digits(ds) + "/"@ + dec_digits(
        de,
    ) + ")"@
}

/// The incarnation cross display: the resolved cross name where the
/// repository has one, else the angle key, followed by the defining gates.
pub open spec fn cross_display(
    gatesdb: Seq<(u8, GateData)>,
    crossesdb: Seq<(String, MetaObject)>,
    sun_gate: u8,
    angle: CrossAngle,
    ps: int,
    pe: int,
    ds: int,
    de: int,
) -> Seq<char> {
    (match cross_key_spec(gatesdb, sun_gate, angle_key_chars(angle)) {
        Some(k) => match assoc_str(crossesdb, k@) {
            Some(m) => m.name@,
            None => angle_key_chars(angle),
        },
        None => angle_key_chars(angle),
    }) + cross_suffix_chars(ps, pe, ds, de)
}

/// Builds the display list of active channels with their texts.
fn channel_infos(channels: &Vec<ChannelDef>, db: &HdDatabase, full: bool) -> (r: Vec<ChannelInfo>)
    ensures
        r@.len() == channels@.len(),
        forall|i: int|
            0 <= i < channels@.len() ==> {
                let info = #[trigger] r@[i];
                &&& info.key@ == channel_key_chars(channels@[i])
                &&& info.name@ == channel_name_display(db.channels@, channels@[i])
                &&& opt_chars(info.description) == (if full {
                    match assoc(db.channels@, gate_pair(channels@[i])) {
                        Some(cd) => Some(cd.description@),
                        None => None,
                    }
                } else {
                    None::<Seq<char>>
                })
            },
{
    let mut r: Vec<ChannelInfo> = Vec::new();
    let mut i: usize = 0;
    while i < channels.len()
        invariant
            i <= channels@.len(),
            r@.len() == i,
            forall|j: int|
                0 <= j < i ==> {
                    let info = #[trigger] r@[j];
                    &&& info.key@ == channel_key_chars(channels@[j])
                    &&& info.name@ == channel_name_display(db.channels@, channels@[j])
                    &&& opt_chars(info.description) == (if full {
                        match assoc(db.channels@, gate_pair(channels@[j])) {
                            Some(cd) => Some(cd.description@),
                            None => None,
                        }
                    } else {
                        None::<Seq<char>>
                    })
                },
        decreases channels@.len() - i,
    {
        let ch = channels[i];
        let key = ch.key();
        let pair = if ch.gate_a < ch.gate_b {
            (ch.gate_a, ch.gate_b)
        } else {
            (ch.gate_b, ch.gate_a)
        };
        let cd = channel_lookup(db, pair);
        let name = match cd {
            Some(c) => match &c.name {
                Some(n) => n.clone(),
                None => key.clone(),
            },
            None => key.clone(),
        };
        let description = if full {
            match cd {
                Some(c) => Some(c.description.clone()),
                None => None,
            }
        } else {
            None
        };
        r.push(ChannelInfo { key, name, description });
        i = i + 1;
    }
    r
}

/// Builds the display list of all nine centers with their defined flags.
fn center_infos(defined: &CenterSet, db: &HdDatabase, full: bool) -> (r: Vec<CenterInfo>)
    ensures
        r@.len() == 9,
        forall|i: int|
            0 <= i < 9 ==> {
                let info = #[trigger] r@[i];
                let c = center_order()[i];
                &&& info.name@ == center_name_display(db.centers@, c)
                &&& info.defined == defined.spec_contains(c)
                &&& opt_chars(info.behavior_normal) == (if full {
                    match assoc(db.centers@, c) {
                        Some(cd) => Some(cd.normal@),
                        None => None,
                    }
                } else {
                    None::<Seq<char>>
                })
                &&& opt_chars(info.behavior_distorted) == (if full {
                    match assoc(db.centers@, c) {
                        Some(cd) => Some(cd.distorted@),
                        None => None,
                    }
                } else {
                    None::<Seq<char>>
                })
            },
{
    let all = Center::all();
    let mut r: Vec<CenterInfo> = Vec::new();
    let mut i: usize = 0;
    while i < all.len()
        invariant
            all@ == center_order(),
            i <= 9,
            r@.len() == i,
            forall|j: int|
                0 <= j < i ==> {
                    let info = #[trigger] r@[j];
                    let c = center_order()[j];
                    &&& info.name@ == center_name_display(db.centers@, c)
                    &&& info.defined == defined.spec_contains(c)
                    &&& opt_chars(info.behavior_normal) == (if full {
                        match assoc(db.centers@, c) {
                            Some(cd) => Some(cd.normal@),
                            None => None,
                        }
                    } else {
                        None::<Seq<char>>
                    })
                    &&& opt_chars(info.behavior_distorted) == (if full {
                        match assoc(db.centers@, c) {
                            Some(cd) => Some(cd.distorted@),
                            None => None,
                        }
                    } else {
                        None::<Seq<char>>
                    })
                },
        decreases all@.len() - i,
    {
        let c = all[i];
        let cd = center_lookup(db, c);
        let name = match cd {
            Some(d) => d.name.clone(),
            None => String::from_str(c.key()),
        };
        let (behavior_normal, behavior_distorted) = if full {
            match cd {
                Some(d) => (Some(d.normal.clone()), Some(d.distorted.clone())),
                None => (None, None),
            }
        } else {
            (None, None)
        };
        r.push(CenterInfo { name, defined: defined.contains(c), behavior_normal,
            behavior_distorted });
        i = i + 1;
    }
    r
}

/// Builds the display list of one time point's positions: the thirteen
/// bodies in chart order, each with its zodiac reading, gate activation and
/// texts.
fn build_planet_positions(positions: &Vec<GatePosition>, db: &HdDatabase, full: bool) -> (r: Vec<
    PlanetPosition,
>)
    requires
        positions@.len() == 13,
    ensures
        r@.len() == 13,
        forall|i: int|
            0 <= i < 13 ==> {
                let p = #[trigger] r@[i];
                let src = positions@[i];
                &&& p.planet@ == planet_name_chars(planet_order()[i])
                &&& p.planet_symbol@ == planet_symbol_chars(planet_order()[i])
                &&& p.index == i
                &&& p.lng_mas == src.lng_mas
                &&& p.gate == src.gate
                &&& p.line == src.line
                &&& p.color == src.color
                &&& p.tone == src.tone
                &&& p.base == src.base
                &&& p.zodiac_sign@ == zodiac_key_chars(sign_index_of(src.lng_mas as int))
                &&& p.zodiac_symbol@ == zodiac_symbol_chars(
                    zodiac_key_chars(sign_index_of(src.lng_mas as int)),
                )
                &&& p.zodiac_mas as int == sign_within_of(src.lng_mas as int)
                &&& opt_chars(p.gate_name) == (match assoc(db.gates@, src.gate) {
                    Some(gd) => Some(gd.name@),
                    None => None::<Seq<char>>,
                })
                &&& opt_chars(p.gate_description) == (if full {
                    match assoc(db.gates@, src.gate) {
                        Some(gd) => Some(gd.description@),
                        None => None::<Seq<char>>,
                    }
                } else {
                    None::<Seq<char>>
                })
                &&& opt_chars(p.line_description) == (if full {
                    match assoc(db.gates@, src.gate) {
                        Some(gd) => match assoc(gd.lines@, src.line) {
                            Some(t) => Some(t@),
                            None => None::<Seq<char>>,
                        },
                        None => None::<Seq<char>>,
                    }
                } else {
                    None::<Seq<char>>
                })
            },
{
    let planets = HdPlanet::all();
    let mut r: Vec<PlanetPosition> = Vec::new();
    let mut i: usize = 0;
    while i < 13
        invariant
            planets@ == planet_order(),
            positions@.len() == 13,
            i <= 13,
            r@.len() == i,
            forall|j: int|
                0 <= j < i ==> {
                    let p = #[trigger] r@[j];
                    let src = positions@[j];
                    &&& p.planet@ == planet_name_chars(planet_order()[j])
                    &&& p.planet_symbol@ == planet_symbol_chars(planet_order()[j])
                    &&& p.index == j
                    &&& p.lng_mas == src.lng_mas
                    &&& p.gate == src.gate
                    &&& p.line == src.line
                    &&& p.color == src.color
                    &&& p.tone == src.tone
                    &&& p.base == src.base
                    &&& p.zodiac_sign@ == zodiac_key_chars(sign_index_of(src.lng_mas as int))
                    &&& p.zodiac_symbol@ == zodiac_symbol_chars(
                        zodiac_key_chars(sign_index_of(src.lng_mas as int)),
                    )
                    &&& p.zodiac_mas as int == sign_within_of(src.lng_mas as int)
                    &&& opt_chars(p.gate_name) == (match assoc(db.gates@, src.gate) {
                        Some(gd) => Some(gd.name@),
                        None => None::<Seq<char>>,
                    })
                    &&& opt_chars(p.gate_description) == (if full {
                        match assoc(db.gates@, src.gate) {
                            Some(gd) => Some(gd.description@),
                            None => None::<Seq<char>>,
                        }
                    } else {
                        None::<Seq<char>>
                    })
                    &&& opt_chars(p.line_description) == (if full {
                        match assoc(db.gates@, src.gate) {
                            Some(gd) => match assoc(gd.lines@, src.line) {
                                Some(t) => Some(t@),
                                None => None::<Seq<char>>,
                            },
                            None => None::<Seq<char>>,
                        }
                    } else {
                        None::<Seq<char>>
                    })
                },
        decreases 13 - i,
    {
        let gp = &positions[i];
        let planet = planets[i];
        let (sign_idx, within) = crate::gates::degree_to_zodiac(gp.lng_mas);
        let zkey = zodiac_key_for(sign_idx);
        let zodiac_symbol = zodiac_symbol_from_key(zkey);
        let gd = gate_lookup(db, gp.gate);
        let gate_name = match gd {
            Some(g) => Some(g.name.clone()),
            None => None,
        };
        let (gate_description, line_description) = if full {
            match gd {
                Some(g) => {
                    let ld = match line_lookup(g, gp.line) {
                        Some(t) => Some(t.clone()),
                        None => None,
                    };
                    (Some(g.description.clone()), ld)
                },
                None => (None, None),
            }
        } else {
            (None, None)
        };
        r.push(PlanetPosition {
            planet: String::from_str(planet.name()),
            index: i,
            lng_mas: gp.lng_mas,
            zodiac_sign: String::from_str(zkey),
            zodiac_symbol,
            planet_symbol: String::from_str(planet.symbol()),
            zodiac_mas: within,
            gate: gp.gate,
            line: gp.line,
            color: gp.color,
            tone: gp.tone,
            base: gp.base,
            gate_name,
            gate_description,
            line_description,
        });
        i = i + 1;
    }
    r
}

/// Assembles the thirteen chart longitudes from the raw ephemeris readings:
/// Sun, Moon and the mean lunar node as evaluated, the seven planets and
/// Pluto as evaluated, Earth opposite the Sun and the South Node opposite
/// the North Node, all normalized, in chart order.
pub fn assemble_longitudes(
    sun: i64,
    moon: i64,
    node: i64,
    mercury: i64,
    venus: i64,
    mars: i64,
    jupiter: i64,
    saturn: i64,
    uranus: i64,
    neptune: i64,
    pluto: i64,
) -> (r: Vec<i64>)
    ensures
        r@.len() == 13,
        r@[0] as int == norm_mas(sun as int),
        r@[1] as int == norm_mas(sun as int + crate::angle::HALF_CIRCLE_MAS as int),
        r@[2] as int == norm_mas(moon as int),
        r@[3] as int == norm_mas(node as int),
        r@[4] as int == norm_mas(node as int + crate::angle::HALF_CIRCLE_MAS as int),
        r@[5] as int == norm_mas(mercury as int),
        r@[6] as int == norm_mas(venus as int),
        r@[7] as int == norm_mas(mars as int),
        r@[8] as int == norm_mas(jupiter as int),
        r@[9] as int == norm_mas(saturn as int),
        r@[10] as int == norm_mas(uranus as int),
        r@[11] as int == norm_mas(neptune as int),
        r@[12] as int == norm_mas(pluto as int),
        forall|i: int| 0 <= i < 13 ==> 0 <= #[trigger] r@[i] < crate::angle::CIRCLE_MAS,
{
    let sun_n = crate::angle::normalize(sun);
    let earth = crate::angle::opposite(sun_n);
    let node_n = crate::angle::normalize(node);
    let south = crate::angle::opposite(node_n);
    proof {
        lemma_opposite_of_norm(sun as int);
        lemma_opposite_of_norm(node as int);
    }
    let mut r: Vec<i64> = Vec::new();
    r.push(sun_n);
    r.push(earth);
    r.push(crate::angle::normalize(moon));
    r.push(node_n);
    r.push(south);
    r.push(crate::angle::normalize(mercury));
    r.push(crate::angle::normalize(venus));
    r.push(crate::angle::normalize(mars));
    r.push(crate::angle::normalize(jupiter));
    r.push(crate::angle::normalize(saturn));
    r.push(crate::angle::normalize(uranus));
    r.push(crate::angle::normalize(neptune));
    r.push(crate::angle::normalize(pluto));
    r
}

/// Normalizing before stepping half a circle does not change the result.
proof fn lemma_opposite_of_norm(x: int)
    ensures
        norm_mas(norm_mas(x) + crate::angle::HALF_CIRCLE_MAS as int) == norm_mas(
            x + crate::angle::HALF_CIRCLE_MAS as int,
        ),
{
    let c = crate::angle::CIRCLE_MAS as int;
    let h = crate::angle::HALF_CIRCLE_MAS as int;
    vstd::arithmetic::div_mod::lemma_add_mod_noop(x, h, c);
    vstd::arithmetic::div_mod::lemma_add_mod_noop(norm_mas(x), h, c);
    vstd::arithmetic::div_mod::lemma_mod_twice(x, c);
}

/// The semantic heart of a chart: from the two longitude lists to the
/// active gates, the active channels, the defined centers, the type and the
/// authority, each pinned to its rule.
pub fn chart_core(pers_lngs: &Vec<i64>, des_lngs: &Vec<i64>) -> (r: (
    Vec<u8>,
    Vec<ChannelDef>,
    CenterSet,
    HdType,
    Authority,
))
    requires
        pers_lngs@.len() == 13,
        des_lngs@.len() == 13,
    ensures
        r.0@ == chart_active_gates(pers_lngs@, des_lngs@),
        r.1@ == chart_channels(pers_lngs@, des_lngs@),
        r.2 == defined_set(r.1@),
        r.3 == type_rule(r.1@, r.2),
        r.4 == authority_rule(r.2),
{
    let pers_pos = map_positions(pers_lngs);
    let des_pos = map_positions(des_lngs);
    let pers_gates = gate_ids(&pers_pos);
    let des_gates = gate_ids(&des_pos);
    proof {
        assert forall|i: int| 0 <= i < pers_lngs@.len() implies pers_gates@[i] == gates_seq(
            pers_lngs@,
        )[i] by {
            assert(pers_pos@[i].gate == gate_at(gate_slot_of(pers_lngs@[i] as int)));
            assert(pers_gates@[i] == pers_pos@[i].gate);
        }
        assert(pers_gates@ =~= gates_seq(pers_lngs@));
        assert forall|i: int| 0 <= i < des_lngs@.len() implies des_gates@[i] == gates_seq(
            des_lngs@,
        )[i] by {
            assert(des_pos@[i].gate == gate_at(gate_slot_of(des_lngs@[i] as int)));
            assert(des_gates@[i] == des_pos@[i].gate);
        }
        assert(des_gates@ =~= gates_seq(des_lngs@));
    }
    let active = collect_active(&pers_gates, &des_gates);
    let raw_channels = find_active_channels(&active);
    let channels = unique_channels(raw_channels);
    proof {
        assert(channels@ == chart_channels(pers_lngs@, des_lngs@));
    }
    let defined = find_defined_centers(&channels);
    proof {
        assert(defined.spec_contains(Center::Head) == defined_in(channels@, Center::Head));
        assert(defined.spec_contains(Center::Ajna) == defined_in(channels@, Center::Ajna));
        assert(defined.spec_contains(Center::Throat) == defined_in(channels@, Center::Throat));
        assert(defined.spec_contains(Center::G) == defined_in(channels@, Center::G));
        assert(defined.spec_contains(Center::Heart) == defined_in(channels@, Center::Heart));
        assert(defined.spec_contains(Center::Sacral) == defined_in(channels@, Center::Sacral));
        assert(defined.spec_contains(Center::SolarPlexus) == defined_in(
            channels@,
            Center::SolarPlexus,
        ));
        assert(defined.spec_contains(Center::Spleen) == defined_in(channels@, Center::Spleen));
        assert(defined.spec_contains(Center::Root) == defined_in(channels@, Center::Root));
        assert(defined == defined_set(channels@));
    }
    let hd_type = determine_type(&defined, &channels);
    let authority = determine_authority(&defined);
    (active, channels, defined, hd_type, authority)
}

/// Builds the cross display string and description: the resolved cross name
/// or the angle key, then the four defining gates.
fn cross_info(
    db: &HdDatabase,
    sun_gate: u8,
    angle: CrossAngle,
    pe_gate: u8,
    ds_gate: u8,
    de_gate: u8,
    full: bool,
) -> (r: (String, Option<String>))
    ensures
        r.0@ == cross_display(
            db.gates@,
            db.crosses@,
            sun_gate,
            angle,
            sun_gate as int,
            pe_gate as int,
            ds_gate as int,
            de_gate as int,
        ),
        opt_chars(r.1) == (if full {
            match cross_key_spec(db.gates@, sun_gate, angle_key_chars(angle)) {
                Some(k) => match assoc_str(db.crosses@, k@) {
                    Some(m) => Some(m.description@),
                    None => None,
                },
                None => None,
            }
        } else {
            None::<Seq<char>>
        }),
{
    let cross_key = find_cross_key_in_db(db, sun_gate, angle.key());
    let cross_meta = match &cross_key {
        Some(k) => cross_lookup(db, k.as_str()),
        None => None,
    };
    let cross_head = match cross_meta {
        Some(m) => m.name.clone(),
        None => String::from_str(angle.key()),
    };
    let cross_description = if full {
        match cross_meta {
            Some(m) => Some(m.description.clone()),
            None => None,
        }
    } else {
        None
    };
    let mut s = cross_head;
    s.append(" (");
    let ps_s = u8_to_string(sun_gate);
    s.append(ps_s.as_str());
    s.append("/");
    let pe_s = u8_to_string(pe_gate);
    s.append(pe_s.as_str());
    s.append(" | ");
    let ds_s = u8_to_string(ds_gate);
    s.append(ds_s.as_str());
    s.append("/");
    let de_s = u8_to_string(de_gate);
    s.append(de_s.as_str());
    s.append(")");
    proof {
        assert(s@ =~= cross_display(
            db.gates@,
            db.crosses@,
            sun_gate,
            angle,
            sun_gate as int,
            pe_gate as int,
            ds_gate as int,
            de_gate as int,
        ));
    }
    (s, cross_description)
}

/// Renders a date as year-month-day, zero padded.
fn date_label(year: i32, month: u8, day: u8) -> (s: String)
    requires
        1 <= year <= 9_999,
        month < 100,
        day < 100,
    ensures
        s@ == pad4_chars(year as int) + "-"@ + pad2_chars(month as int) + "-"@ + pad2_chars(
            day as int,
        ),
{
    let mut s = pad4(year as u16);
    s.append("-");
    let mon_s = pad2(month);
    s.append(mon_s.as_str());
    s.append("-");
    let day_s = pad2(day);
    s.append(day_s.as_str());
    proof {
        assert(s@ =~= pad4_chars(year as int) + "-"@ + pad2_chars(month as int) + "-"@
            + pad2_chars(day as int));
    }
    s
}

/// Renders a time of day as hour:minute, zero padded.
fn time_label(hour: u8, min: u8) -> (s: String)
    requires
        hour < 100,
        min < 100,
    ensures
        s@ == pad2_chars(hour as int) + ":"@ + pad2_chars(min as int),
{
    let mut s = pad2(hour);
    s.append(":");
    let min_s = pad2(min);
    s.append(min_s.as_str());
    proof {
        assert(s@ =~= pad2_chars(hour as int) + ":"@ + pad2_chars(min as int));
    }
    s
}

/// The label shown before a color text.
pub open spec fn color_label_chars(n: int) -> Seq<char> {
    "Color "@ + dec_digits(n) + ":"@
}

/// The label shown before a tone text.
pub open spec fn tone_label_chars(n: int) -> Seq<char> {
    "Tone "@ + dec_digits(n) + ":"@
}

/// The label shown before the motivation fear text.
pub open spec fn motivation_label_chars(n: int) -> Seq<char> {
    "Motivation "@ + dec_digits(n) + ":"@
}

/// The label naming a gate and its name.
pub open spec fn gate_label_chars(g: int, name: Seq<char>) -> Seq<char> {
    "Gate "@ + dec_digits(g) + " ("@ + name + "):"@
}

/// A label of the shape shown before a color text.
fn color_label(n: u8) -> (s: String)
    ensures
        s@ == color_label_chars(n as int),
{
    let mut s = String::from_str("Color ");
    let num = u8_to_string(n);
    s.append(num.as_str());
    s.append(":");
    proof {
        assert(s@ =~= color_label_chars(n as int));
    }
    s
}

/// A label of the shape shown before a tone text.
fn tone_label(n: u8) -> (s: String)
    ensures
        s@ == tone_label_chars(n as int),
{
    let mut s = String::from_str("Tone ");
    let num = u8_to_string(n);
    s.append(num.as_str());
    s.append(":");
    proof {
        assert(s@ =~= tone_label_chars(n as int));
    }
    s
}

/// A label of the shape shown before the motivation fear text.
fn motivation_label(n: u8) -> (s: String)
    ensures
        s@ == motivation_label_chars(n as int),
{
    let mut s = String::from_str("Motivation ");
    let num = u8_to_string(n);
    s.append(num.as_str());
    s.append(":");
    proof {
        assert(s@ =~= motivation_label_chars(n as int));
    }
    s
}

/// A label naming a gate and its name.
fn gate_label(g: u8, name: &String) -> (s: String)
    ensures
        s@ == gate_label_chars(g as int, name@),
{
    let mut s = String::from_str("Gate ");
    let num = u8_to_string(g);
    s.append(num.as_str());
    s.append(" (");
    s.append(name.as_str());
    s.append("):");
    proof {
        assert(s@ =~= gate_label_chars(g as int, name@));
    }
    s
}

/// One labelled text with no gate context.
fn plain_item(label: String, description: String) -> (r: InfoItem)
    ensures
        r.label == label,
        r.description == description,
        r.planets is None,
        r.gate_id is None,
        r.gate_name is None,
{
    InfoItem { label, description, planets: None, gate_id: None, gate_name: None }
}

/// What a color or tone item of an advanced section must hold: the given
/// label, the looked-up text (empty when the block has none), and no gate
/// context.
pub open spec fn phs_item_ok(item: InfoItem, label: Seq<char>, text: Option<String>) -> bool {
    &&& item.label@ == label
    &&& item.description@ == (match text {
        Some(t) => t@,
        None => Seq::<char>::empty(),
    })
    &&& item.planets is None
    &&& item.gate_id is None
    &&& item.gate_name is None
}

/// Builds a one-item section from an advanced block's color text.
fn phs_color_section(block: &PhsBlock, color: u8) -> (r: Vec<InfoItem>)
    ensures
        r@.len() == 1,
        phs_item_ok(r@[0], color_label_chars(color as int), assoc(block.colors@, color)),
{
    let desc = match phs_color_lookup(block, color) {
        Some(t) => t.clone(),
        None => String::new(),
    };
    let mut v: Vec<InfoItem> = Vec::new();
    v.push(plain_item(color_label(color), desc));
    v
}

/// Which of a gate's four running texts a section collects.
#[derive(Clone, Copy, PartialEq, Eq, Structural, Debug)]
pub enum GateTextKind {
    Fear,
    Sexuality,
    Love,
    Business,
}

/// The chosen text of a gate's repository entry.
pub open spec fn gate_text_of(gd: GateData, kind: GateTextKind) -> Option<String> {
    match kind {
        GateTextKind::Fear => gd.fear,
        GateTextKind::Sexuality => gd.sexuality,
        GateTextKind::Love => gd.love,
        GateTextKind::Business => gd.business,
    }
}

/// Reads the chosen text of a gate's repository entry.
fn gate_text<'a>(gd: &'a GateData, kind: GateTextKind) -> (r: Option<&'a String>)
    ensures
        match r {
            Some(v) => gate_text_of(*gd, kind) == Some(*v),
            None => gate_text_of(*gd, kind) is None,
        },
{
    match kind {
        GateTextKind::Fear => gd.fear.as_ref(),
        GateTextKind::Sexuality => gd.sexuality.as_ref(),
        GateTextKind::Love => gd.love.as_ref(),
        GateTextKind::Business => gd.business.as_ref(),
    }
}

/// The rows a section collects: each listed gate, in order, whose
/// repository entry exists and carries the chosen text.
pub open spec fn section_rows(
    gates: Seq<u8>,
    dbg: Seq<(u8, GateData)>,
    kind: GateTextKind,
) -> Seq<(u8, GateData)>
    decreases gates.len(),
{
    if gates.len() == 0 {
        Seq::empty()
    } else {
        let rest = section_rows(gates.drop_last(), dbg, kind);
        match assoc(dbg, gates.last()) {
            Some(gd) => if gate_text_of(gd, kind) is Some {
                rest.push((gates.last(), gd))
            } else {
                rest
            },
            None => rest,
        }
    }
}

/// What one collected section item must hold: that gate's label and name,
/// the chosen text, and its id.
pub open spec fn section_item_ok(item: InfoItem, g: u8, gd: GateData, kind: GateTextKind) -> bool {
    &&& item.label@ == gate_label_chars(g as int, gd.name@)
    &&& (match gate_text_of(gd, kind) {
        Some(t) => item.description@ == t@,
        None => false,
    })
    &&& item.planets is None
    &&& item.gate_id == Some(g)
    &&& opt_chars(item.gate_name) == Some(gd.name@)
}

/// Collects one advanced section from the active gates: an item per active
/// gate whose repository entry carries the chosen text, in gate order.
fn collect_section(active: &Vec<u8>, db: &HdDatabase, kind: GateTextKind) -> (r: Vec<InfoItem>)
    ensures
        r@.len() == section_rows(active@, db.gates@, kind).len(),
        forall|k: int|
            0 <= k < r@.len() ==> section_item_ok(
                #[trigger] r@[k],
                section_rows(active@, db.gates@, kind)[k].0,
                section_rows(active@, db.gates@, kind)[k].1,
                kind,
            ),
{
    let mut r: Vec<InfoItem> = Vec::new();
    let mut i: usize = 0;
    while i < active.len()
        invariant
            i <= active@.len(),
            r@.len() == section_rows(active@.take(i as int), db.gates@, kind).len(),
            forall|k: int|
                0 <= k < r@.len() ==> section_item_ok(
                    #[trigger] r@[k],
                    section_rows(active@.take(i as int), db.gates@, kind)[k].0,
                    section_rows(active@.take(i as int), db.gates@, kind)[k].1,
                    kind,
                ),
        decreases active@.len() - i,
    {
        let g = active[i];
        proof {
            assert(active@.take(i as int + 1).drop_last() =~= active@.take(i as int));
            assert(active@.take(i as int + 1).last() == g);
        }
        match gate_lookup(db, g) {
            Some(gd) => {
                match gate_text(gd, kind) {
                    Some(t) => {
                        r.push(
                            InfoItem {
                                label: gate_label(g, &gd.name),
                                description: t.clone(),
                                planets: None,
                                gate_id: Some(g),
                                gate_name: Some(gd.name.clone()),
                            },
                        );
                    },
                    None => {},
                }
            },
            None => {},
        }
        i = i + 1;
    }
    proof {
        assert(active@.take(active@.len() as int) =~= active@);
    }
    r
}

/// Builds the fear section: the motivation fear for the personality Sun's
/// color first, then the fear texts of the active gates; nothing when both
/// are absent.
fn fear_section(active: &Vec<u8>, db: &HdDatabase, sun_color: u8) -> (r: Option<Vec<InfoItem>>)
    ensures
        ({
            let head = assoc(db.fears@, sun_color);
            let rows = section_rows(active@, db.gates@, GateTextKind::Fear);
            let off: int = if head is Some {
                1int
            } else {
                0
            };
            match r {
                Some(v) => {
                    &&& v@.len() == off + rows.len()
                    &&& v@.len() > 0
                    &&& (head matches Some(t) ==> {
                        &&& v@[0].label@ == motivation_label_chars(sun_color as int)
                        &&& v@[0].description@ == t@
                        &&& v@[0].planets is None
                        &&& v@[0].gate_id is None
                        &&& v@[0].gate_name is None
                    })
                    &&& forall|k: int|
                        0 <= k < rows.len() ==> section_item_ok(
                            v@[off + k],
                            (#[trigger] rows[k]).0,
                            rows[k].1,
                            GateTextKind::Fear,
                        )
                },
                None => head is None && rows.len() == 0,
            }
        }),
{
    let mut items: Vec<InfoItem> = Vec::new();
    match fear_lookup(db, sun_color) {
        Some(f) => {
            items.push(plain_item(motivation_label(sun_color), f.clone()));
        },
        None => {},
    }
    let mut rest = collect_section(active, db, GateTextKind::Fear);
    let ghost head_items = items@;
    let ghost rest_items = rest@;
    items.append(&mut rest);
    proof {
        let rows = section_rows(active@, db.gates@, GateTextKind::Fear);
        let off: int = if assoc(db.fears@, sun_color) is Some {
            1int
        } else {
            0
        };
        assert(items@ == head_items + rest_items);
        assert forall|k: int| 0 <= k < rows.len() implies section_item_ok(
            items@[off + k],
            (#[trigger] rows[k]).0,
            rows[k].1,
            GateTextKind::Fear,
        ) by {
            assert(items@[off + k] == rest_items[k]);
        }
    }
    if items.len() == 0 {
        None
    } else {
        Some(items)
    }
}

/// Builds one of the plain per-gate sections (sexuality, love, business):
/// the chosen texts of the active gates, or nothing when there are none.
fn text_section(active: &Vec<u8>, db: &HdDatabase, kind: GateTextKind) -> (r: Option<Vec<
    InfoItem,
>>)
    ensures
        ({
            let rows = section_rows(active@, db.gates@, kind);
            match r {
                Some(v) => {
                    &&& v@.len() == rows.len()
                    &&& v@.len() > 0
                    &&& forall|k: int|
                        0 <= k < rows.len() ==> section_item_ok(
                            v@[k],
                            (#[trigger] rows[k]).0,
                            rows[k].1,
                            kind,
                        )
                },
                None => rows.len() == 0,
            }
        }),
{
    let items = collect_section(active, db, kind);
    if items.len() == 0 {
        None
    } else {
        Some(items)
    }
}

/// Builds the full chart from the two sets of thirteen longitudes (birth
/// and design, in chart order, milliarcseconds) and the text repository.
/// The headline classifications are pinned exactly: the type, authority,
/// strategy, profile and cross read off the verified rule chain over the
/// active gates, and every position carries the wheel's reading of its
/// longitude.
#[verifier::rlimit(100)]
#[verifier::spinoff_prover]
pub fn build_chart(
    year: i32,
    month: u8,
    day: u8,
    hour: u8,
    min: u8,
    utc_offset_min: i32,
    full: bool,
    db: &HdDatabase,
    pers_lngs: &Vec<i64>,
    des_lngs: &Vec<i64>,
) -> (r: HdChart)
    requires
        1 <= year <= 9_999,
        1 <= month <= 12,
        1 <= day <= 31,
        hour <= 23,
        min <= 59,
        pers_lngs@.len() == 13,
        des_lngs@.len() == 13,
    ensures
        ({
            let chans = chart_channels(pers_lngs@, des_lngs@);
            let defined = defined_set(chans);
            let t = type_rule(chans, defined);
            let pline = line_of(pers_lngs@[0] as int);
            let dline = line_of(des_lngs@[0] as int);
            let angle = angle_rule(pline, dline);
            let ps = gate_at(gate_slot_of(pers_lngs@[0] as int));
            let pe = gate_at(gate_slot_of(pers_lngs@[1] as int));
            let dsg = gate_at(gate_slot_of(des_lngs@[0] as int));
            let deg = gate_at(gate_slot_of(des_lngs@[1] as int));
            &&& r.birth_date@ == pad4_chars(year as int) + "-"@ + pad2_chars(month as int) + "-"@
                + pad2_chars(day as int)
            &&& r.birth_time@ == pad2_chars(hour as int) + ":"@ + pad2_chars(min as int)
            &&& r.utc_offset_min == utc_offset_min
            &&& r.hd_type@ == type_display(db.types@, t)
            &&& opt_chars(r.type_description) == (if full {
                match assoc(db.types@, t) {
                    Some(m) => Some(m.description@),
                    None => None,
                }
            } else {
                None::<Seq<char>>
            })
            &&& r.authority@ == authority_display(db.authorities@, authority_rule(defined))
            &&& r.strategy@ == strategy_display(db.strategies@, t)
            &&& r.profile@ == profile_display(db.profiles@, pline as u8, dline as u8)
            &&& r.incarnation_cross@ == cross_display(
                db.gates@,
                db.crosses@,
                ps,
                angle,
                ps as int,
                pe as int,
                dsg as int,
                deg as int,
            )
            &&& r.personality@.len() == 13
            &&& r.design@.len() == 13
            &&& forall|i: int|
                0 <= i < 13 ==> {
                    let p = #[trigger] r.personality@[i];
                    &&& p.gate == gate_at(gate_slot_of(pers_lngs@[i] as int))
                    &&& p.line as int == line_of(pers_lngs@[i] as int)
                    &&& p.color as int == color_of(pers_lngs@[i] as int)
                    &&& p.tone as int == tone_of(pers_lngs@[i] as int)
                    &&& p.base as int == base_of(pers_lngs@[i] as int)
                    &&& p.lng_mas as int == norm_mas(pers_lngs@[i] as int)
                    &&& p.planet@ == planet_name_chars(planet_order()[i])
                    &&& p.planet_symbol@ == planet_symbol_chars(planet_order()[i])
                    &&& p.index == i
                    &&& p.zodiac_sign@ == zodiac_key_chars(sign_index_of(p.lng_mas as int))
                    &&& p.zodiac_symbol@ == zodiac_symbol_chars(
                        zodiac_key_chars(sign_index_of(p.lng_mas as int)),
                    )
                    &&& p.zodiac_mas as int == sign_within_of(p.lng_mas as int)
                    &&& opt_chars(p.gate_name) == (match assoc(db.gates@, p.gate) {
                        Some(gd) => Some(gd.name@),
                        None => None::<Seq<char>>,
                    })
                    &&& opt_chars(p.gate_description) == (if full {
                        match assoc(db.gates@, p.gate) {
                            Some(gd) => Some(gd.description@),
                            None => None::<Seq<char>>,
                        }
                    } else {
                        None::<Seq<char>>
                    })
                    &&& opt_chars(p.line_description) == (if full {
                        match assoc(db.gates@, p.gate) {
                            Some(gd) => match assoc(gd.lines@, p.line) {
                                Some(t) => Some(t@),
                                None => None::<Seq<char>>,
                            },
                            None => None::<Seq<char>>,
                        }
                    } else {
                        None::<Seq<char>>
                    })
                }
            &&& forall|i: int|
                0 <= i < 13 ==> {
                    let p = #[trigger] r.design@[i];
                    &&& p.gate == gate_at(gate_slot_of(des_lngs@[i] as int))
                    &&& p.line as int == line_of(des_lngs@[i] as int)
                    &&& p.color as int == color_of(des_lngs@[i] as int)
                    &&& p.tone as int == tone_of(des_lngs@[i] as int)
                    &&& p.base as int == base_of(des_lngs@[i] as int)
                    &&& p.lng_mas as int == norm_mas(des_lngs@[i] as int)
                    &&& p.planet@ == planet_name_chars(planet_order()[i])
                    &&& p.planet_symbol@ == planet_symbol_chars(planet_order()[i])
                    &&& p.index == i
                    &&& p.zodiac_sign@ == zodiac_key_chars(sign_index_of(p.lng_mas as int))
                    &&& p.zodiac_symbol@ == zodiac_symbol_chars(
                        zodiac_key_chars(sign_index_of(p.lng_mas as int)),
                    )
                    &&& p.zodiac_mas as int == sign_within_of(p.lng_mas as int)
                    &&& opt_chars(p.gate_name) == (match assoc(db.gates@, p.gate) {
                        Some(gd) => Some(gd.name@),
                        None => None::<Seq<char>>,
                    })
                    &&& opt_chars(p.gate_description) == (if full {
                        match assoc(db.gates@, p.gate) {
                            Some(gd) => Some(gd.description@),
                            None => None::<Seq<char>>,
                        }
                    } else {
                        None::<Seq<char>>
                    })
                    &&& opt_chars(p.line_description) == (if full {
                        match assoc(db.gates@, p.gate) {
                            Some(gd) => match assoc(gd.lines@, p.line) {
                                Some(t) => Some(t@),
                                None => None::<Seq<char>>,
                            },
                            None => None::<Seq<char>>,
                        }
                    } else {
                        None::<Seq<char>>
                    })
                }
            &&& r.channels@.len() == chans.len()
            &&& forall|i: int|
                0 <= i < chans.len() ==> {
                    let info = #[trigger] r.channels@[i];
                    &&& info.key@ == channel_key_chars(chans[i])
                    &&& info.name@ == channel_name_display(db.channels@, chans[i])
                }
            &&& r.centers@.len() == 9
            &&& forall|i: int|
                0 <= i < 9 ==> {
                    let info = #[trigger] r.centers@[i];
                    &&& info.defined == defined.spec_contains(center_order()[i])
                    &&& info.name@ == center_name_display(db.centers@, center_order()[i])
                }
            &&& (match r.motivation {
                Some(v) => db.motivation matches Some(m) && v@.len() == 1 && phs_item_ok(
                    v@[0],
                    color_label_chars(color_of(pers_lngs@[0] as int)),
                    assoc(m.colors@, color_of(pers_lngs@[0] as int) as u8),
                ),
                None => db.motivation is None,
            })
            &&& (match r.environment {
                Some(v) => db.environment matches Some(m) && v@.len() == 1 && phs_item_ok(
                    v@[0],
                    color_label_chars(color_of(des_lngs@[3] as int)),
                    assoc(m.colors@, color_of(des_lngs@[3] as int) as u8),
                ),
                None => db.environment is None,
            })
            &&& (match r.vision {
                Some(v) => db.vision matches Some(m) && v@.len() == 1 && phs_item_ok(
                    v@[0],
                    color_label_chars(color_of(pers_lngs@[3] as int)),
                    assoc(m.colors@, color_of(pers_lngs@[3] as int) as u8),
                ),
                None => db.vision is None,
            })
            &&& (match r.diet {
                Some(v) => db.diet matches Some(m) && v@.len() == 2 && phs_item_ok(
                    v@[0],
                    color_label_chars(color_of(des_lngs@[0] as int)),
                    assoc(m.colors@, color_of(des_lngs@[0] as int) as u8),
                ) && phs_item_ok(
                    v@[1],
                    tone_label_chars(tone_of(des_lngs@[0] as int)),
                    assoc(m.tones@, tone_of(des_lngs@[0] as int) as u8),
                ),
                None => db.diet is None,
            })
            &&& ({
                let active = chart_active_gates(pers_lngs@, des_lngs@);
                let head = assoc(db.fears@, color_of(pers_lngs@[0] as int) as u8);
                let rows = section_rows(active, db.gates@, GateTextKind::Fear);
                let off: int = if head is Some {
                    1int
                } else {
                    0
                };
                match r.fear {
                    Some(v) => {
                        &&& v@.len() == off + rows.len()
                        &&& v@.len() > 0
                        &&& (head matches Some(t) ==> {
                            &&& v@[0].label@ == motivation_label_chars(
                                color_of(pers_lngs@[0] as int),
                            )
                            &&& v@[0].description@ == t@
                            &&& v@[0].gate_id is None
                        })
                        &&& forall|k: int|
                            0 <= k < rows.len() ==> section_item_ok(
                                v@[off + k],
                                (#[trigger] rows[k]).0,
                                rows[k].1,
                                GateTextKind::Fear,
                            )
                    },
                    None => head is None && rows.len() == 0,
                }
            })
            &&& ({
                let rows = section_rows(
                    chart_active_gates(pers_lngs@, des_lngs@),
                    db.gates@,
                    GateTextKind::Sexuality,
                );
                match r.sexuality {
                    Some(v) => v@.len() == rows.len() && v@.len() > 0 && forall|k: int|
                        0 <= k < rows.len() ==> section_item_ok(
                            v@[k],
                            (#[trigger] rows[k]).0,
                            rows[k].1,
                            GateTextKind::Sexuality,
                        ),
                    None => rows.len() == 0,
                }
            })
            &&& ({
                let rows = section_rows(
                    chart_active_gates(pers_lngs@, des_lngs@),
                    db.gates@,
                    GateTextKind::Love,
                );
                match r.love {
                    Some(v) => v@.len() == rows.len() && v@.len() > 0 && forall|k: int|
                        0 <= k < rows.len() ==> section_item_ok(
                            v@[k],
                            (#[trigger] rows[k]).0,
                            rows[k].1,
                            GateTextKind::Love,
                        ),
                    None => rows.len() == 0,
                }
            })
            &&& ({
                let rows = section_rows(
                    chart_active_gates(pers_lngs@, des_lngs@),
                    db.gates@,
                    GateTextKind::Business,
                );
                match r.business {
                    Some(v) => full && v@.len() == rows.len() && v@.len() > 0 && forall|k: int|
                        0 <= k < rows.len() ==> section_item_ok(
                            v@[k],
                            (#[trigger] rows[k]).0,
                            rows[k].1,
                            GateTextKind::Business,
                        ),
                    None => !full || rows.len() == 0,
                }
            })
        }),
{
    let pers_pos = map_positions(pers_lngs);
    let des_pos = map_positions(des_lngs);
    let (active, channels, defined, hd_type, authority) = chart_core(pers_lngs, des_lngs);

    let type_meta = type_lookup(db, hd_type);
    let hd_type_str = match type_meta {
        Some(m) => m.name.clone(),
        None => String::from_str(hd_type.key()),
    };
    let type_description = if full {
        match type_meta {
            Some(m) => Some(m.description.clone()),
            None => None,
        }
    } else {
        None
    };

    let authority_meta = authority_lookup(db, authority);
    let authority_str = match authority_meta {
        Some(m) => m.name.clone(),
        None => String::from_str(authority.key()),
    };
    let authority_description = if full {
        match authority_meta {
            Some(m) => Some(m.description.clone()),
            None => None,
        }
    } else {
        None
    };

    let strategy_text = strategy_lookup(db, hd_type);
    let strategy_str = match strategy_text {
        Some(s) => s.clone(),
        None => String::from_str(hd_type.key()),
    };
    let strategy_description = if full {
        match strategy_text {
            Some(s) => Some(s.clone()),
            None => None,
        }
    } else {
        None
    };

    let pline = pers_pos[0].line;
    let dline = des_pos[0].line;
    let profile_meta = profile_lookup(db, (pline, dline));
    let profile_str = match profile_meta {
        Some(m) => m.name.clone(),
        None => {
            let mut s = u8_to_string(pline);
            s.append("/");
            let d = u8_to_string(dline);
            s.append(d.as_str());
            proof {
                assert(s@ =~= profile_key_chars(pline as int, dline as int));
            }
            s
        },
    };
    let profile_description = if full {
        match profile_meta {
            Some(m) => Some(m.description.clone()),
            None => None,
        }
    } else {
        None
    };

    let angle = cross_angle_of(pline, dline);
    let ps_gate = pers_pos[0].gate;
    let pe_gate = pers_pos[1].gate;
    let ds_gate = des_pos[0].gate;
    let de_gate = des_pos[1].gate;
    let (incarnation_cross, cross_description) = cross_info(
        db,
        ps_gate,
        angle,
        pe_gate,
        ds_gate,
        de_gate,
        full,
    );

    // Advanced sections: colors and tones of the key positions.
    let pers_sun_color = pers_pos[0].color;
    let des_sun_color = des_pos[0].color;
    let des_sun_tone = des_pos[0].tone;
    let pers_node_color = pers_pos[3].color;
    let des_node_color = des_pos[3].color;

    let motivation = match &db.motivation {
        Some(m) => Some(phs_color_section(m, pers_sun_color)),
        None => None,
    };
    let environment = match &db.environment {
        Some(m) => Some(phs_color_section(m, des_node_color)),
        None => None,
    };
    let vision = match &db.vision {
        Some(m) => Some(phs_color_section(m, pers_node_color)),
        None => None,
    };
    let diet = match &db.diet {
        Some(m) => {
            let mut items = phs_color_section(m, des_sun_color);
            let tdesc = match phs_tone_lookup(m, des_sun_tone) {
                Some(t) => t.clone(),
                None => String::new(),
            };
            items.push(plain_item(tone_label(des_sun_tone), tdesc));
            Some(items)
        },
        None => None,
    };

    // Fear, sexuality and love texts from the active gates, plus the
    // motivation fear for the personality Sun's color.
    let fear = fear_section(&active, db, pers_sun_color);
    let sexuality = text_section(&active, db, GateTextKind::Sexuality);
    let love = text_section(&active, db, GateTextKind::Love);

    // Business texts of the active gates, on a full chart.
    let business = if full {
        text_section(&active, db, GateTextKind::Business)
    } else {
        None
    };

    let personality = build_planet_positions(&pers_pos, db, full);
    let design = build_planet_positions(&des_pos, db, full);
    let channel_list = channel_infos(&channels, db, full);
    let center_list = center_infos(&defined, db, full);

    let birth_date = date_label(year, month, day);
    let birth_time = time_label(hour, min);

    HdChart {
        birth_date,
        birth_time,
        utc_offset_min,
        hd_type: hd_type_str,
        type_description,
        profile: profile_str,
        profile_description,
        authority: authority_str,
        authority_description,
        strategy: strategy_str,
        strategy_description,
        incarnation_cross,
        cross_description,
        personality,
        design,
        channels: channel_list,
        centers: center_list,
        business,
        motivation,
        environment,
        diet,
        fear,
        sexuality,
        love,
        vision,
    }
}

} // verus!
