//! Human Design chart computation library.
//!
//! Given a birth moment (civil date, time and UTC offset) the library maps
//! planetary ecliptic longitudes onto a fixed 64-gate zodiac wheel and derives
//! the chart's categorical attributes (type, authority, profile, defined
//! centers, active channels, incarnation cross) by deterministic rule tables.
//!
//! Angles are held as integer milliarcseconds (1 degree = 3 600 000 mas), in
//! which every boundary of the wheel's fixed-radix subdivision is exact, and
//! astronomical time as integer milliseconds of Julian Day.  The floating
//! point ephemeris itself is an external collaborator: callers evaluate it and
//! hand longitudes in, already scaled.

pub mod angle;
pub mod astro_time;
pub mod centers;
pub mod channels;
pub mod chart;
pub mod classify;
pub mod config;
pub mod database;
pub mod gates;
pub mod models;
pub mod parse;
pub mod planets;
pub mod solver;
pub mod strutil;
