//! The nine body centers of the chart's graph.

use vstd::prelude::*;

verus! {

/// One of the nine fixed body centers: the nodes of the channel graph.
#[derive(Clone, Copy, PartialEq, Eq, Structural, Debug, Hash)]
pub enum Center {
    Head,
    Ajna,
    Throat,
    G,
    Heart,
    Sacral,
    SolarPlexus,
    Spleen,
    Root,
}

/// The nine centers in their fixed display order.
pub open spec fn center_order() -> Seq<Center> {
    seq![
        Center::Head,
        Center::Ajna,
        Center::Throat,
        Center::G,
        Center::Heart,
        Center::Sacral,
        Center::SolarPlexus,
        Center::Spleen,
        Center::Root,
    ]
}

/// Whether a center is a motor: only Sacral, Heart, SolarPlexus and Root
/// drive energy in the type rules.
pub open spec fn is_motor_center(c: Center) -> bool {
    c == Center::Sacral || c == Center::Heart || c == Center::SolarPlexus || c == Center::Root
}
/// The Russian display name of a center.
pub open spec fn center_name_ru(c: Center) -> Seq<char> {
    match c {
        Center::Head => "Теменной"@,
        Center::Ajna => "Аджна"@,
        Center::Throat => "Горловой"@,
        Center::G => "Джи"@,
        Center::Heart => "Сердечный"@,
        Center::Sacral => "Сакральный"@,
        Center::SolarPlexus => "Солнечное сплетение"@,
        Center::Spleen => "Селезёночный"@,
        Center::Root => "Корневой"@,
    }
}
/// The Russian text-repository key of a center.
pub open spec fn center_db_key(c: Center) -> Seq<char> {
    match c {
        Center::Head => "Теменной Центр"@,
        Center::Ajna => "Аджна, Центр Ума"@,
        Center::Throat => "Горловой центр"@,
        Center::G => "Центр G"@,
        Center::Heart => "Центр Эго"@,
        Center::Sacral => "Сакральный Центр"@,
        Center::SolarPlexus => "Эмоциональный центр"@,
        Center::Spleen => "Центр Селезенки"@,
        Center::Root => "Корневой Центр"@,
    }
}

/// Which gate ids belong to each center on the body graph.
pub open spec fn center_gates(c: Center) -> Seq<u8> {
    match c {
        Center::Head => seq![64u8, 61u8, 63u8],
        Center::Ajna => seq![47u8, 24u8, 4u8, 17u8, 43u8, 11u8],
        Center::Throat => seq![62u8, 23u8, 56u8, 31u8, 8u8, 33u8, 20u8, 16u8, 12u8, 35u8, 45u8],
        Center::G => seq![7u8, 1u8, 13u8, 10u8, 2u8, 25u8, 15u8, 46u8],
        Center::Heart => seq![21u8, 51u8, 26u8, 40u8],
        Center::Sacral => seq![14u8, 34u8, 5u8, 29u8, 59u8, 27u8, 42u8, 3u8, 9u8],
        Center::SolarPlexus => seq![22u8, 36u8, 6u8, 37u8, 55u8, 30u8, 49u8],
        Center::Spleen => seq![48u8, 57u8, 44u8, 50u8, 32u8, 28u8, 18u8],
        Center::Root => seq![53u8, 60u8, 52u8, 19u8, 39u8, 41u8, 58u8, 38u8, 54u8],
    }
}


/// The English snake_case key of a center.
pub open spec fn center_key_chars(c: Center) -> Seq<char> {
    match c {
        Center::Head => "head"@,
        Center::Ajna => "ajna"@,
        Center::Throat => "throat"@,
        Center::G => "g"@,
        Center::Heart => "heart"@,
        Center::Sacral => "sacral"@,
        Center::SolarPlexus => "solar_plexus"@,
        Center::Spleen => "spleen"@,
        Center::Root => "root"@,
    }
}

impl Center {

    /// The English snake_case key, used where the repository has no text.
    pub fn key(&self) -> (r: &'static str)
        ensures
            r@ == center_key_chars(*self),
    {
        match self {
            Center::Head => "head",
            Center::Ajna => "ajna",
            Center::Throat => "throat",
            Center::G => "g",
            Center::Heart => "heart",
            Center::Sacral => "sacral",
            Center::SolarPlexus => "solar_plexus",
            Center::Spleen => "spleen",
            Center::Root => "root",
        }
    }

    /// The Russian display name.
    pub fn name_ru(&self) -> (r: &'static str)
        ensures
            r@ == center_name_ru(*self),
    {
        match self {
            Center::Head => "Теменной",
            Center::Ajna => "Аджна",
            Center::Throat => "Горловой",
            Center::G => "Джи",
            Center::Heart => "Сердечный",
            Center::Sacral => "Сакральный",
            Center::SolarPlexus => "Солнечное сплетение",
            Center::Spleen => "Селезёночный",
            Center::Root => "Корневой",
        }
    }

    /// The key the text repository files this center under.
    pub fn db_key(&self) -> (r: &'static str)
        ensures
            r@ == center_db_key(*self),
    {
        match self {
            Center::Head => "Теменной Центр",
            Center::Ajna => "Аджна, Центр Ума",
            Center::Throat => "Горловой центр",
            Center::G => "Центр G",
            Center::Heart => "Центр Эго",
            Center::Sacral => "Сакральный Центр",
            Center::SolarPlexus => "Эмоциональный центр",
            Center::Spleen => "Центр Селезенки",
            Center::Root => "Корневой Центр",
        }
    }

    /// Whether the center is a motor.
    pub fn is_motor(&self) -> (r: bool)
        ensures
            r == is_motor_center(*self),
    {
        matches!(self, Center::Sacral | Center::Heart | Center::SolarPlexus | Center::Root)
    }

    /// All nine centers, in display order.
    pub fn all() -> (v: Vec<Center>)
        ensures
            v@ == center_order(),
    {
        let mut v: Vec<Center> = Vec::new();
        v.push(Center::Head);
        v.push(Center::Ajna);
        v.push(Center::Throat);
        v.push(Center::G);
        v.push(Center::Heart);
        v.push(Center::Sacral);
        v.push(Center::SolarPlexus);
        v.push(Center::Spleen);
        v.push(Center::Root);
        proof {
            assert(v@ =~= center_order());
        }
        v
    }
}

/// The gates that sit on a given center.
pub fn gates_for_center(center: &Center) -> (v: Vec<u8>)
    ensures
        v@ == center_gates(*center),
{
    let mut v: Vec<u8> = Vec::new();
    match center {
        Center::Head => {
            v.push(64);
            v.push(61);
            v.push(63);
        },
        Center::Ajna => {
            v.push(47);
            v.push(24);
            v.push(4);
            v.push(17);
            v.push(43);
            v.push(11);
        },
        Center::Throat => {
            v.push(62);
            v.push(23);
            v.push(56);
            v.push(31);
            v.push(8);
            v.push(33);
            v.push(20);
            v.push(16);
            v.push(12);
            v.push(35);
            v.push(45);
        },
        Center::G => {
            v.push(7);
            v.push(1);
            v.push(13);
            v.push(10);
            v.push(2);
            v.push(25);
            v.push(15);
            v.push(46);
        },
        Center::Heart => {
            v.push(21);
            v.push(51);
            v.push(26);
            v.push(40);
        },
        Center::Sacral => {
            v.push(14);
            v.push(34);
            v.push(5);
            v.push(29);
            v.push(59);
            v.push(27);
            v.push(42);
            v.push(3);
            v.push(9);
        },
        Center::SolarPlexus => {
            v.push(22);
            v.push(36);
            v.push(6);
            v.push(37);
            v.push(55);
            v.push(30);
            v.push(49);
        },
        Center::Spleen => {
            v.push(48);
            v.push(57);
            v.push(44);
            v.push(50);
            v.push(32);
            v.push(28);
            v.push(18);
        },
        Center::Root => {
            v.push(53);
            v.push(60);
            v.push(52);
            v.push(19);
            v.push(39);
            v.push(41);
            v.push(58);
            v.push(38);
            v.push(54);
        },
    }
    proof {
        assert(v@ =~= center_gates(*center));
    }
    v
}

} // verus!
