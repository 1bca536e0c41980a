//! The text repository: names and descriptions for gates, channels,
//! centers, types, profiles, authorities and crosses.
//!
//! The repository is plain data handed in by the caller (read from wherever
//! the texts live), keyed by the library's own types: gate numbers, line and
//! color numbers, center and type variants.  Every lookup is a first-match
//! search of an association list with an exact contract; a missing entry is
//! a skip, never an error.

use vstd::prelude::*;
use crate::centers::Center;
use crate::classify::{Authority, HdType};
use crate::strutil::str_eq;

verus! {

/// First-match lookup in an association list.
pub open spec fn assoc<K, V>(s: Seq<(K, V)>, k: K) -> Option<V>
    decreases s.len(),
{
    if s.len() == 0 {
        None
    } else if s[0].0 == k {
        Some(s[0].1)
    } else {
        assoc(s.drop_first(), k)
    }
}

/// When a prefix holds no match and position `i` does, the lookup returns
/// that position's value.
proof fn lemma_assoc_first<K, V>(s: Seq<(K, V)>, k: K, i: int)
    requires
        0 <= i < s.len(),
        s[i].0 == k,
        forall|j: int| 0 <= j < i ==> (#[trigger] s[j]).0 != k,
    ensures
        assoc(s, k) == Some(s[i].1),
    decreases i,
{
    if i > 0 {
        assert(s[0].0 != k);
        let t = s.drop_first();
        assert forall|j: int| 0 <= j < i - 1 implies (#[trigger] t[j]).0 != k by {
            assert(t[j] == s[j + 1]);
        }
        assert(t[i - 1] == s[i]);
        lemma_assoc_first(t, k, i - 1);
    }
}

/// When no position matches, the lookup returns nothing.
proof fn lemma_assoc_none<K, V>(s: Seq<(K, V)>, k: K)
    requires
        forall|j: int| 0 <= j < s.len() ==> (#[trigger] s[j]).0 != k,
    ensures
        assoc(s, k) is None,
    decreases s.len(),
{
    if s.len() > 0 {
        let t = s.drop_first();
        assert forall|j: int| 0 <= j < t.len() implies (#[trigger] t[j]).0 != k by {
            assert(t[j] == s[j + 1]);
        }
        lemma_assoc_none(t, k);
    }
}

/// Everything the repository stores about one gate.
pub struct GateData {
    /// This gate's name.
    pub name: String,
    /// This gate's description.
    pub description: String,
    /// Texts per line, keyed by line number 1 to 6.
    pub lines: Vec<(u8, String)>,
    /// Keys of the incarnation crosses this gate leads.
    pub crosses: Vec<String>,
    /// The center it sits on, as the repository spells it.
    pub center: Option<String>,
    /// Its opposite across the wheel.
    pub across: Option<u8>,
    /// Fear text, where the repository has one.
    pub fear: Option<String>,
    /// Sexuality text.
    pub sexuality: Option<String>,
    /// Love text.
    pub love: Option<String>,
    /// Business text.
    pub business: Option<String>,
    /// Circuit name.
    pub circuit: Option<String>,
    /// Sub-circuit name.
    pub sub_circuit: Option<String>,
}

/// Everything the repository stores about one channel.
pub struct ChannelData {
    /// The channel's name, where the repository has one.
    pub name: Option<String>,
    /// The channel's description.
    pub description: String,
    /// Circuit name.
    pub circuit: Option<String>,
    /// Sub-circuit name.
    pub sub_circuit: Option<String>,
}

/// A name with a description: types, profiles, authorities and crosses.
pub struct MetaObject {
    /// The display name.
    pub name: String,
    /// The description.
    pub description: String,
}

/// Everything the repository stores about one center.
pub struct CenterData {
    /// The display name.
    pub name: String,
    /// The description.
    pub description: String,
    /// Behavior when the center works undistorted.
    pub normal: String,
    /// Behavior when it is distorted.
    pub distorted: String,
}

/// Color and tone texts for one of the advanced sections (motivation,
/// environment, diet, vision).
pub struct PhsBlock {
    /// Texts keyed by color number 1 to 6.
    pub colors: Vec<(u8, String)>,
    /// Texts keyed by tone number 1 to 6.
    pub tones: Vec<(u8, String)>,
}

/// The whole text repository for one locale.
pub struct HdDatabase {
    /// Gate texts keyed by gate id.
    pub gates: Vec<(u8, GateData)>,
    /// Channel texts keyed by the unordered gate pair, smaller gate first.
    pub channels: Vec<((u8, u8), ChannelData)>,
    /// Center texts.
    pub centers: Vec<(Center, CenterData)>,
    /// Type texts.
    pub types: Vec<(HdType, MetaObject)>,
    /// Profile texts keyed by the personality and design Sun lines.
    pub profiles: Vec<((u8, u8), MetaObject)>,
    /// Strategy texts keyed by type.
    pub strategies: Vec<(HdType, String)>,
    /// Authority texts.
    pub authorities: Vec<(Authority, MetaObject)>,
    /// Fear texts keyed by color number.
    pub fears: Vec<(u8, String)>,
    /// Motivation texts.
    pub motivation: Option<PhsBlock>,
    /// Environment texts.
    pub environment: Option<PhsBlock>,
    /// Diet texts.
    pub diet: Option<PhsBlock>,
    /// Perspective texts.
    pub vision: Option<PhsBlock>,
    /// Cross texts keyed by the repository's cross key.
    pub crosses: Vec<(String, MetaObject)>,
}

impl HdDatabase {
    /// A repository with no texts at all: every lookup misses and every
    /// display falls back to raw keys.
    pub fn empty() -> (r: HdDatabase)
        ensures
            r.gates@.len() == 0,
            r.channels@.len() == 0,
            r.centers@.len() == 0,
            r.types@.len() == 0,
            r.profiles@.len() == 0,
            r.strategies@.len() == 0,
            r.authorities@.len() == 0,
            r.fears@.len() == 0,
            r.motivation is None,
            r.environment is None,
            r.diet is None,
            r.vision is None,
            r.crosses@.len() == 0,
    {
        HdDatabase {
            gates: Vec::new(),
            channels: Vec::new(),
            centers: Vec::new(),
            types: Vec::new(),
            profiles: Vec::new(),
            strategies: Vec::new(),
            authorities: Vec::new(),
            fears: Vec::new(),
            motivation: None,
            environment: None,
            diet: None,
            vision: None,
            crosses: Vec::new(),
        }
    }
}


/// Picks the repository for a language code: en and es select their own
/// repositories, anything else falls back to the Russian default, as the
/// language rule has always read.
pub fn pick_database<'a>(
    lang: &str,
    en: &'a HdDatabase,
    es: &'a HdDatabase,
    ru: &'a HdDatabase,
) -> (r: &'a HdDatabase)
    ensures
        lang@ == "en"@ ==> r == en,
        lang@ == "es"@ ==> r == es,
        lang@ != "en"@ && lang@ != "es"@ ==> r == ru,
{
    proof {
        reveal_strlit("en");
        reveal_strlit("es");
        assert("en"@ != "es"@) by {
            if "en"@ == "es"@ {
                assert("en"@[1] == "es"@[1]);
            }
        }
    }
    if str_eq(lang, "en") {
        en
    } else if str_eq(lang, "es") {
        es
    } else {
        ru
    }
}

/// Looks a gate's texts up by gate id.
pub fn gate_lookup<'a>(db: &'a HdDatabase, gate: u8) -> (r: Option<&'a GateData>)
    ensures
        match r {
            Some(v) => assoc(db.gates@, gate) == Some(*v),
            None => assoc(db.gates@, gate) is None,
        },
{
    let mut i: usize = 0;
    while i < db.gates.len()
        invariant
            i <= db.gates@.len(),
            forall|j: int| 0 <= j < i ==> (#[trigger] db.gates@[j]).0 != gate,
        decreases db.gates@.len() - i,
    {
        if db.gates[i].0 == gate {
            proof {
                lemma_assoc_first(db.gates@, gate, i as int);
            }
            return Some(&db.gates[i].1);
        }
        i = i + 1;
    }
    proof {
        lemma_assoc_none(db.gates@, gate);
    }
    None
}

/// Looks a line's text up inside a gate's texts.
pub fn line_lookup<'a>(gd: &'a GateData, line: u8) -> (r: Option<&'a String>)
    ensures
        match r {
            Some(v) => assoc(gd.lines@, line) == Some(*v),
            None => assoc(gd.lines@, line) is None,
        },
{
    let mut i: usize = 0;
    while i < gd.lines.len()
        invariant
            i <= gd.lines@.len(),
            forall|j: int| 0 <= j < i ==> (#[trigger] gd.lines@[j]).0 != line,
        decreases gd.lines@.len() - i,
    {
        if gd.lines[i].0 == line {
            proof {
                lemma_assoc_first(gd.lines@, line, i as int);
            }
            return Some(&gd.lines[i].1);
        }
        i = i + 1;
    }
    proof {
        lemma_assoc_none(gd.lines@, line);
    }
    None
}

/// Looks a channel's texts up by its unordered gate pair.
pub fn channel_lookup<'a>(db: &'a HdDatabase, pair: (u8, u8)) -> (r: Option<&'a ChannelData>)
    ensures
        match r {
            Some(v) => assoc(db.channels@, pair) == Some(*v),
            None => assoc(db.channels@, pair) is None,
        },
{
    let mut i: usize = 0;
    while i < db.channels.len()
        invariant
            i <= db.channels@.len(),
            forall|j: int| 0 <= j < i ==> (#[trigger] db.channels@[j]).0 != pair,
        decreases db.channels@.len() - i,
    {
        if db.channels[i].0.0 == pair.0 && db.channels[i].0.1 == pair.1 {
            proof {
                lemma_assoc_first(db.channels@, pair, i as int);
            }
            return Some(&db.channels[i].1);
        }
        i = i + 1;
    }
    proof {
        lemma_assoc_none(db.channels@, pair);
    }
    None
}

/// Looks a center's texts up.
pub fn center_lookup<'a>(db: &'a HdDatabase, center: Center) -> (r: Option<&'a CenterData>)
    ensures
        match r {
            Some(v) => assoc(db.centers@, center) == Some(*v),
            None => assoc(db.centers@, center) is None,
        },
{
    let mut i: usize = 0;
    while i < db.centers.len()
        invariant
            i <= db.centers@.len(),
            forall|j: int| 0 <= j < i ==> (#[trigger] db.centers@[j]).0 != center,
        decreases db.centers@.len() - i,
    {
        if db.centers[i].0 == center {
            proof {
                lemma_assoc_first(db.centers@, center, i as int);
            }
            return Some(&db.centers[i].1);
        }
        i = i + 1;
    }
    proof {
        lemma_assoc_none(db.centers@, center);
    }
    None
}

/// Looks a type's texts up.
pub fn type_lookup<'a>(db: &'a HdDatabase, t: HdType) -> (r: Option<&'a MetaObject>)
    ensures
        match r {
            Some(v) => assoc(db.types@, t) == Some(*v),
            None => assoc(db.types@, t) is None,
        },
{
    let mut i: usize = 0;
    while i < db.types.len()
        invariant
            i <= db.types@.len(),
            forall|j: int| 0 <= j < i ==> (#[trigger] db.types@[j]).0 != t,
        decreases db.types@.len() - i,
    {
        if db.types[i].0 == t {
            proof {
                lemma_assoc_first(db.types@, t, i as int);
            }
            return Some(&db.types[i].1);
        }
        i = i + 1;
    }
    proof {
        lemma_assoc_none(db.types@, t);
    }
    None
}

/// Looks a profile's texts up by its line pair.
pub fn profile_lookup<'a>(db: &'a HdDatabase, lines: (u8, u8)) -> (r: Option<&'a MetaObject>)
    ensures
        match r {
            Some(v) => assoc(db.profiles@, lines) == Some(*v),
            None => assoc(db.profiles@, lines) is None,
        },
{
    let mut i: usize = 0;
    while i < db.profiles.len()
        invariant
            i <= db.profiles@.len(),
            forall|j: int| 0 <= j < i ==> (#[trigger] db.profiles@[j]).0 != lines,
        decreases db.profiles@.len() - i,
    {
        if db.profiles[i].0.0 == lines.0 && db.profiles[i].0.1 == lines.1 {
            proof {
                lemma_assoc_first(db.profiles@, lines, i as int);
            }
            return Some(&db.profiles[i].1);
        }
        i = i + 1;
    }
    proof {
        lemma_assoc_none(db.profiles@, lines);
    }
    None
}

/// Looks a strategy text up by type.
pub fn strategy_lookup<'a>(db: &'a HdDatabase, t: HdType) -> (r: Option<&'a String>)
    ensures
        match r {
            Some(v) => assoc(db.strategies@, t) == Some(*v),
            None => assoc(db.strategies@, t) is None,
        },
{
    let mut i: usize = 0;
    while i < db.strategies.len()
        invariant
            i <= db.strategies@.len(),
            forall|j: int| 0 <= j < i ==> (#[trigger] db.strategies@[j]).0 != t,
        decreases db.strategies@.len() - i,
    {
        if db.strategies[i].0 == t {
            proof {
                lemma_assoc_first(db.strategies@, t, i as int);
            }
            return Some(&db.strategies[i].1);
        }
        i = i + 1;
    }
    proof {
        lemma_assoc_none(db.strategies@, t);
    }
    None
}

/// Looks an authority's texts up.
pub fn authority_lookup<'a>(db: &'a HdDatabase, a: Authority) -> (r: Option<&'a MetaObject>)
    ensures
        match r {
            Some(v) => assoc(db.authorities@, a) == Some(*v),
            None => assoc(db.authorities@, a) is None,
        },
{
    let mut i: usize = 0;
    while i < db.authorities.len()
        invariant
            i <= db.authorities@.len(),
            forall|j: int| 0 <= j < i ==> (#[trigger] db.authorities@[j]).0 != a,
        decreases db.authorities@.len() - i,
    {
        if db.authorities[i].0 == a {
            proof {
                lemma_assoc_first(db.authorities@, a, i as int);
            }
            return Some(&db.authorities[i].1);
        }
        i = i + 1;
    }
    proof {
        lemma_assoc_none(db.authorities@, a);
    }
    None
}

/// Looks a fear text up by color number.
pub fn fear_lookup<'a>(db: &'a HdDatabase, color: u8) -> (r: Option<&'a String>)
    ensures
        match r {
            Some(v) => assoc(db.fears@, color) == Some(*v),
            None => assoc(db.fears@, color) is None,
        },
{
    let mut i: usize = 0;
    while i < db.fears.len()
        invariant
            i <= db.fears@.len(),
            forall|j: int| 0 <= j < i ==> (#[trigger] db.fears@[j]).0 != color,
        decreases db.fears@.len() - i,
    {
        if db.fears[i].0 == color {
            proof {
                lemma_assoc_first(db.fears@, color, i as int);
            }
            return Some(&db.fears[i].1);
        }
        i = i + 1;
    }
    proof {
        lemma_assoc_none(db.fears@, color);
    }
    None
}

/// Spec view of a string-keyed association list, keys as character
/// sequences.
pub open spec fn assoc_str<V>(s: Seq<(String, V)>, k: Seq<char>) -> Option<V>
    decreases s.len(),
{
    if s.len() == 0 {
        None
    } else if s[0].0@ == k {
        Some(s[0].1)
    } else {
        assoc_str(s.drop_first(), k)
    }
}

/// When a prefix holds no match and position `i` does, the string-keyed
/// lookup returns that position's value.
proof fn lemma_assoc_str_first<V>(s: Seq<(String, V)>, k: Seq<char>, i: int)
    requires
        0 <= i < s.len(),
        s[i].0@ == k,
        forall|j: int| 0 <= j < i ==> (#[trigger] s[j]).0@ != k,
    ensures
        assoc_str(s, k) == Some(s[i].1),
    decreases i,
{
    if i > 0 {
        let t = s.drop_first();
        assert forall|j: int| 0 <= j < i - 1 implies (#[trigger] t[j]).0@ != k by {
            assert(t[j] == s[j + 1]);
        }
        assert(t[i - 1] == s[i]);
        lemma_assoc_str_first(t, k, i - 1);
    }
}

/// When no position matches, the string-keyed lookup returns nothing.
proof fn lemma_assoc_str_none<V>(s: Seq<(String, V)>, k: Seq<char>)
    requires
        forall|j: int| 0 <= j < s.len() ==> (#[trigger] s[j]).0@ != k,
    ensures
        assoc_str(s, k) is None,
    decreases s.len(),
{
    if s.len() > 0 {
        let t = s.drop_first();
        assert forall|j: int| 0 <= j < t.len() implies (#[trigger] t[j]).0@ != k by {
            assert(t[j] == s[j + 1]);
        }
        lemma_assoc_str_none(t, k);
    }
}

/// Looks a cross's texts up by its repository key.
pub fn cross_lookup<'a>(db: &'a HdDatabase, key: &str) -> (r: Option<&'a MetaObject>)
    ensures
        match r {
            Some(v) => assoc_str(db.crosses@, key@) == Some(*v),
            None => assoc_str(db.crosses@, key@) is None,
        },
{
    let mut i: usize = 0;
    while i < db.crosses.len()
        invariant
            i <= db.crosses@.len(),
            forall|j: int| 0 <= j < i ==> (#[trigger] db.crosses@[j]).0@ != key@,
        decreases db.crosses@.len() - i,
    {
        if str_eq(db.crosses[i].0.as_str(), key) {
            proof {
                lemma_assoc_str_first(db.crosses@, key@, i as int);
            }
            return Some(&db.crosses[i].1);
        }
        i = i + 1;
    }
    proof {
        lemma_assoc_str_none(db.crosses@, key@);
    }
    None
}

/// Looks a color's text up in an advanced-section block.
pub fn phs_color_lookup<'a>(block: &'a PhsBlock, color: u8) -> (r: Option<&'a String>)
    ensures
        match r {
            Some(v) => assoc(block.colors@, color) == Some(*v),
            None => assoc(block.colors@, color) is None,
        },
{
    let mut i: usize = 0;
    while i < block.colors.len()
        invariant
            i <= block.colors@.len(),
            forall|j: int| 0 <= j < i ==> (#[trigger] block.colors@[j]).0 != color,
        decreases block.colors@.len() - i,
    {
        if block.colors[i].0 == color {
            proof {
                lemma_assoc_first(block.colors@, color, i as int);
            }
            return Some(&block.colors[i].1);
        }
        i = i + 1;
    }
    proof {
        lemma_assoc_none(block.colors@, color);
    }
    None
}

/// Looks a tone's text up in an advanced-section block.
pub fn phs_tone_lookup<'a>(block: &'a PhsBlock, tone: u8) -> (r: Option<&'a String>)
    ensures
        match r {
            Some(v) => assoc(block.tones@, tone) == Some(*v),
            None => assoc(block.tones@, tone) is None,
        },
{
    let mut i: usize = 0;
    while i < block.tones.len()
        invariant
            i <= block.tones@.len(),
            forall|j: int| 0 <= j < i ==> (#[trigger] block.tones@[j]).0 != tone,
        decreases block.tones@.len() - i,
    {
        if block.tones[i].0 == tone {
            proof {
                lemma_assoc_first(block.tones@, tone, i as int);
            }
            return Some(&block.tones[i].1);
        }
        i = i + 1;
    }
    proof {
        lemma_assoc_none(block.tones@, tone);
    }
    None
}

} // verus!
