//! The chart's output model: what a computed chart hands to its consumers.
//!
//! Angles are integer milliarcseconds; presentation layers scale them to
//! degrees as they see fit.

use vstd::prelude::*;

verus! {

/// One body's place in the chart: its longitude, zodiac reading and gate
/// activation, with the texts that were found for them.
pub struct PlanetPosition {
    /// The body's display name.
    pub planet: String,
    /// The body's index in chart order.
    pub index: usize,
    /// Ecliptic longitude in milliarcseconds, normalized.
    pub lng_mas: i64,
    /// The zodiac sign's display name.
    pub zodiac_sign: String,
    /// The zodiac sign's symbol.
    pub zodiac_symbol: String,
    /// The body's symbol.
    pub planet_symbol: String,
    /// How far into its sign the body stands, in milliarcseconds.
    pub zodiac_mas: i64,
    /// The activated gate, 1 to 64.
    pub gate: u8,
    /// The line within that gate, 1 to 6.
    pub line: u8,
    /// The color within the line, 1 to 6.
    pub color: u8,
    /// The tone within the color, 1 to 6.
    pub tone: u8,
    /// The base within the tone, 1 to 5.
    pub base: u8,
    /// That gate's name, where the repository has it.
    pub gate_name: Option<String>,
    /// That gate's description, on a full chart.
    pub gate_description: Option<String>,
    /// The line's description, on a full chart.
    pub line_description: Option<String>,
}

/// An active channel with its resolved texts.
pub struct ChannelInfo {
    /// The channel key, smaller gate first.
    pub key: String,
    /// The channel's name, or the key where the repository has none.
    pub name: String,
    /// The channel's description, on a full chart.
    pub description: Option<String>,
}

/// One center's state in the chart.
pub struct CenterInfo {
    /// The center's display name.
    pub name: String,
    /// Whether the center is defined.
    pub defined: bool,
    /// Undistorted behavior, on a full chart.
    pub behavior_normal: Option<String>,
    /// Distorted behavior, on a full chart.
    pub behavior_distorted: Option<String>,
}

/// A body named in a short list.
pub struct PlanetShortInfo {
    /// The body's display name.
    pub name: String,
    /// The body's symbol.
    pub symbol: String,
}

/// A labelled text: one entry of an advanced section.
pub struct InfoItem {
    /// The label shown before the text.
    pub label: String,
    /// The text itself.
    pub description: String,
    /// The bodies that activate the entry, where that is tracked.
    pub planets: Option<Vec<PlanetShortInfo>>,
    /// The entry's gate, where it belongs to one.
    pub gate_id: Option<u8>,
    /// That gate's name.
    pub gate_name: Option<String>,
}

/// The complete computed chart.
pub struct HdChart {
    /// The birth date as given, rendered year-month-day.
    pub birth_date: String,
    /// The birth time as given, rendered hour:minute.
    pub birth_time: String,
    /// The UTC offset, in whole minutes.
    pub utc_offset_min: i32,
    /// The chart type's display name.
    pub hd_type: String,
    /// The type's description, on a full chart.
    pub type_description: Option<String>,
    /// The profile's display name.
    pub profile: String,
    /// The profile's description, on a full chart.
    pub profile_description: Option<String>,
    /// The authority's display name.
    pub authority: String,
    /// The authority's description, on a full chart.
    pub authority_description: Option<String>,
    /// The strategy text.
    pub strategy: String,
    /// The strategy's description, on a full chart.
    pub strategy_description: Option<String>,
    /// The incarnation cross, with its four defining gates.
    pub incarnation_cross: String,
    /// The cross's description, on a full chart.
    pub cross_description: Option<String>,
    /// The thirteen personality positions, in chart order.
    pub personality: Vec<PlanetPosition>,
    /// The thirteen design positions, in chart order.
    pub design: Vec<PlanetPosition>,
    /// The active channels.
    pub channels: Vec<ChannelInfo>,
    /// All nine centers with their defined flags.
    pub centers: Vec<CenterInfo>,
    /// Business texts of the active gates, on a full chart.
    pub business: Option<Vec<InfoItem>>,
    /// Motivation texts.
    pub motivation: Option<Vec<InfoItem>>,
    /// Environment texts.
    pub environment: Option<Vec<InfoItem>>,
    /// Diet texts.
    pub diet: Option<Vec<InfoItem>>,
    /// Fear texts.
    pub fear: Option<Vec<InfoItem>>,
    /// Sexuality texts.
    pub sexuality: Option<Vec<InfoItem>>,
    /// Love texts.
    pub love: Option<Vec<InfoItem>>,
    /// Perspective texts.
    pub vision: Option<Vec<InfoItem>>,
}

} // verus!
