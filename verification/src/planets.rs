//! The thirteen bodies a chart tracks.

use vstd::prelude::*;

verus! {

/// A body whose ecliptic longitude the chart reads: Sun, Earth, Moon, the
/// two lunar nodes, and the seven classical and outer planets.
#[derive(Clone, Copy, PartialEq, Eq, Structural, Debug)]
pub enum HdPlanet {
    Sun,
    Earth,
    Moon,
    NorthNode,
    SouthNode,
    Mercury,
    Venus,
    Mars,
    Jupiter,
    Saturn,
    Uranus,
    Neptune,
    Pluto,
}

/// The thirteen bodies in chart order: Sun first, then Earth, Moon, the
/// nodes and the planets outward.
pub open spec fn planet_order() -> Seq<HdPlanet> {
    seq![
        HdPlanet::Sun,
        HdPlanet::Earth,
        HdPlanet::Moon,
        HdPlanet::NorthNode,
        HdPlanet::SouthNode,
        HdPlanet::Mercury,
        HdPlanet::Venus,
        HdPlanet::Mars,
        HdPlanet::Jupiter,
        HdPlanet::Saturn,
        HdPlanet::Uranus,
        HdPlanet::Neptune,
        HdPlanet::Pluto,
    ]
}

/// The English display name of a body.
pub open spec fn planet_name_chars(p: HdPlanet) -> Seq<char> {
    match p {
        HdPlanet::Sun => "Sun"@,
        HdPlanet::Earth => "Earth"@,
        HdPlanet::Moon => "Moon"@,
        HdPlanet::NorthNode => "North Node"@,
        HdPlanet::SouthNode => "South Node"@,
        HdPlanet::Mercury => "Mercury"@,
        HdPlanet::Venus => "Venus"@,
        HdPlanet::Mars => "Mars"@,
        HdPlanet::Jupiter => "Jupiter"@,
        HdPlanet::Saturn => "Saturn"@,
        HdPlanet::Uranus => "Uranus"@,
        HdPlanet::Neptune => "Neptune"@,
        HdPlanet::Pluto => "Pluto"@,
    }
}

/// The Russian display name of a body.
pub open spec fn planet_name_ru_chars(p: HdPlanet) -> Seq<char> {
    match p {
        HdPlanet::Sun => "Солнце"@,
        HdPlanet::Earth => "Земля"@,
        HdPlanet::Moon => "Луна"@,
        HdPlanet::NorthNode => "Северный Узел"@,
        HdPlanet::SouthNode => "Южный Узел"@,
        HdPlanet::Mercury => "Меркурий"@,
        HdPlanet::Venus => "Венера"@,
        HdPlanet::Mars => "Марс"@,
        HdPlanet::Jupiter => "Юпитер"@,
        HdPlanet::Saturn => "Сатурн"@,
        HdPlanet::Uranus => "Уран"@,
        HdPlanet::Neptune => "Нептун"@,
        HdPlanet::Pluto => "Плутон"@,
    }
}

/// The astronomical symbol of a body.
pub open spec fn planet_symbol_chars(p: HdPlanet) -> Seq<char> {
    match p {
        HdPlanet::Sun => "\u{2609}"@,
        HdPlanet::Earth => "\u{2295}"@,
        HdPlanet::Moon => "\u{263D}"@,
        HdPlanet::NorthNode => "\u{260A}"@,
        HdPlanet::SouthNode => "\u{260B}"@,
        HdPlanet::Mercury => "\u{263F}"@,
        HdPlanet::Venus => "\u{2640}"@,
        HdPlanet::Mars => "\u{2642}"@,
        HdPlanet::Jupiter => "\u{2643}"@,
        HdPlanet::Saturn => "\u{2644}"@,
        HdPlanet::Uranus => "\u{2645}"@,
        HdPlanet::Neptune => "\u{2646}"@,
        HdPlanet::Pluto => "\u{2647}"@,
    }
}

impl HdPlanet {
    /// The English display name.
    pub fn name(&self) -> (r: &'static str)
        ensures
            r@ == planet_name_chars(*self),
    {
        match self {
            HdPlanet::Sun => "Sun",
            HdPlanet::Earth => "Earth",
            HdPlanet::Moon => "Moon",
            HdPlanet::NorthNode => "North Node",
            HdPlanet::SouthNode => "South Node",
            HdPlanet::Mercury => "Mercury",
            HdPlanet::Venus => "Venus",
            HdPlanet::Mars => "Mars",
            HdPlanet::Jupiter => "Jupiter",
            HdPlanet::Saturn => "Saturn",
            HdPlanet::Uranus => "Uranus",
            HdPlanet::Neptune => "Neptune",
            HdPlanet::Pluto => "Pluto",
        }
    }

    /// The Russian display name.
    pub fn name_ru(&self) -> (r: &'static str)
        ensures
            r@ == planet_name_ru_chars(*self),
    {
        match self {
            HdPlanet::Sun => "Солнце",
            HdPlanet::Earth => "Земля",
            HdPlanet::Moon => "Луна",
            HdPlanet::NorthNode => "Северный Узел",
            HdPlanet::SouthNode => "Южный Узел",
            HdPlanet::Mercury => "Меркурий",
            HdPlanet::Venus => "Венера",
            HdPlanet::Mars => "Марс",
            HdPlanet::Jupiter => "Юпитер",
            HdPlanet::Saturn => "Сатурн",
            HdPlanet::Uranus => "Уран",
            HdPlanet::Neptune => "Нептун",
            HdPlanet::Pluto => "Плутон",
        }
    }

    /// The astronomical symbol.
    pub fn symbol(&self) -> (r: &'static str)
        ensures
            r@ == planet_symbol_chars(*self),
    {
        match self {
            HdPlanet::Sun => "\u{2609}",
            HdPlanet::Earth => "\u{2295}",
            HdPlanet::Moon => "\u{263D}",
            HdPlanet::NorthNode => "\u{260A}",
            HdPlanet::SouthNode => "\u{260B}",
            HdPlanet::Mercury => "\u{263F}",
            HdPlanet::Venus => "\u{2640}",
            HdPlanet::Mars => "\u{2642}",
            HdPlanet::Jupiter => "\u{2643}",
            HdPlanet::Saturn => "\u{2644}",
            HdPlanet::Uranus => "\u{2645}",
            HdPlanet::Neptune => "\u{2646}",
            HdPlanet::Pluto => "\u{2647}",
        }
    }

    /// All thirteen bodies, in chart order.
    pub fn all() -> (v: Vec<HdPlanet>)
        ensures
            v@ == planet_order(),
    {
        let mut v: Vec<HdPlanet> = Vec::new();
        v.push(HdPlanet::Sun);
        v.push(HdPlanet::Earth);
        v.push(HdPlanet::Moon);
        v.push(HdPlanet::NorthNode);
        v.push(HdPlanet::SouthNode);
        v.push(HdPlanet::Mercury);
        v.push(HdPlanet::Venus);
        v.push(HdPlanet::Mars);
        v.push(HdPlanet::Jupiter);
        v.push(HdPlanet::Saturn);
        v.push(HdPlanet::Uranus);
        v.push(HdPlanet::Neptune);
        v.push(HdPlanet::Pluto);
        proof {
            assert(v@ =~= planet_order());
        }
        v
    }
}

} // verus!
