//! Defined centers, motor-to-throat reachability, and the type and
//! authority rule tables.

use vstd::prelude::*;
use crate::centers::{is_motor_center, Center};
use crate::channels::ChannelDef;

verus! {

/// A set of centers, one flag per center.
#[derive(Clone, Copy, PartialEq, Eq, Structural, Debug)]
pub struct CenterSet {
    pub head: bool,
    pub ajna: bool,
    pub throat: bool,
    pub g: bool,
    pub heart: bool,
    pub sacral: bool,
    pub solar_plexus: bool,
    pub spleen: bool,
    pub root: bool,
}

impl CenterSet {
    /// Whether the set holds a center.
    pub open spec fn spec_contains(self, c: Center) -> bool {
        match c {
            Center::Head => self.head,
            Center::Ajna => self.ajna,
            Center::Throat => self.throat,
            Center::G => self.g,
            Center::Heart => self.heart,
            Center::Sacral => self.sacral,
            Center::SolarPlexus => self.solar_plexus,
            Center::Spleen => self.spleen,
            Center::Root => self.root,
        }
    }

    /// Whether the set is empty.
    pub open spec fn spec_is_empty(self) -> bool {
        forall|c: Center| !self.spec_contains(c)
    }

    /// How many centers the set holds.
    pub open spec fn count(self) -> int {
        (if self.head { 1int } else { 0 }) + (if self.ajna { 1int } else { 0 }) + (if self.throat {
            1int
        } else {
            0
        }) + (if self.g { 1int } else { 0 }) + (if self.heart { 1int } else { 0 })
            + (if self.sacral { 1int } else { 0 }) + (if self.solar_plexus { 1int } else { 0 }) + (
        if self.spleen { 1int } else { 0 }) + (if self.root { 1int } else { 0 })
    }

    /// The empty set.
    pub fn empty() -> (r: CenterSet)
        ensures
            forall|c: Center| !r.spec_contains(c),
            r.count() == 0,
    {
        CenterSet {
            head: false,
            ajna: false,
            throat: false,
            g: false,
            heart: false,
            sacral: false,
            solar_plexus: false,
            spleen: false,
            root: false,
        }
    }

    /// Membership test.
    pub fn contains(&self, c: Center) -> (r: bool)
        ensures
            r == self.spec_contains(c),
    {
        match c {
            Center::Head => self.head,
            Center::Ajna => self.ajna,
            Center::Throat => self.throat,
            Center::G => self.g,
            Center::Heart => self.heart,
            Center::Sacral => self.sacral,
            Center::SolarPlexus => self.solar_plexus,
            Center::Spleen => self.spleen,
            Center::Root => self.root,
        }
    }

    /// Adds a center.
    pub fn insert(&mut self, c: Center)
        ensures
            final (self).spec_contains(c),
            forall|d: Center| d != c ==> final (self).spec_contains(d) == old(self).spec_contains(
                d,
            ),
            old(self).spec_contains(c) ==> final (self).count() == old(self).count(),
            !old(self).spec_contains(c) ==> final (self).count() == old(self).count() + 1,
    {
        match c {
            Center::Head => self.head = true,
            Center::Ajna => self.ajna = true,
            Center::Throat => self.throat = true,
            Center::G => self.g = true,
            Center::Heart => self.heart = true,
            Center::Sacral => self.sacral = true,
            Center::SolarPlexus => self.solar_plexus = true,
            Center::Spleen => self.spleen = true,
            Center::Root => self.root = true,
        }
    }

    /// Whether no center is in the set.
    pub fn is_empty(&self) -> (r: bool)
        ensures
            r == self.spec_is_empty(),
    {
        let r = !self.head && !self.ajna && !self.throat && !self.g && !self.heart && !self.sacral
            && !self.solar_plexus && !self.spleen && !self.root;
        proof {
            if r {
                assert forall|c: Center| !self.spec_contains(c) by {}
            } else {
                if self.head {
                    assert(self.spec_contains(Center::Head));
                } else if self.ajna {
                    assert(self.spec_contains(Center::Ajna));
                } else if self.throat {
                    assert(self.spec_contains(Center::Throat));
                } else if self.g {
                    assert(self.spec_contains(Center::G));
                } else if self.heart {
                    assert(self.spec_contains(Center::Heart));
                } else if self.sacral {
                    assert(self.spec_contains(Center::Sacral));
                } else if self.solar_plexus {
                    assert(self.spec_contains(Center::SolarPlexus));
                } else if self.spleen {
                    assert(self.spec_contains(Center::Spleen));
                } else {
                    assert(self.spec_contains(Center::Root));
                }
            }
        }
        r
    }
}

/// Whether a center is an endpoint of a channel.
pub open spec fn touches(ch: ChannelDef, c: Center) -> bool {
    ch.center_a == c || ch.center_b == c
}

/// The centers defined by a channel list: every endpoint of every channel.
pub open spec fn defined_in(chs: Seq<ChannelDef>, c: Center) -> bool {
    exists|j: int| 0 <= j < chs.len() && touches(#[trigger] chs[j], c)
}

/// Collects the defined centers: the union of both endpoints over the active
/// channels.
pub fn find_defined_centers(channels: &Vec<ChannelDef>) -> (r: CenterSet)
    ensures
        forall|c: Center| r.spec_contains(c) <==> defined_in(channels@, c),
{
    let mut r = CenterSet::empty();
    let mut i: usize = 0;
    while i < channels.len()
        invariant
            i <= channels@.len(),
            forall|c: Center|
                r.spec_contains(c) <==> exists|j: int|
                    0 <= j < i && touches(#[trigger] channels@[j], c),
        decreases channels@.len() - i,
    {
        let ch = channels[i];
        let ghost prev = r;
        r.insert(ch.center_a);
        r.insert(ch.center_b);
        proof {
            assert forall|c: Center|
                r.spec_contains(c) <==> exists|j: int|
                    0 <= j < i + 1 && touches(#[trigger] channels@[j], c) by {
                if r.spec_contains(c) {
                    if prev.spec_contains(c) {
                        let j = choose|j: int| 0 <= j < i && touches(#[trigger] channels@[j], c);
                        assert(touches(channels@[j], c));
                    } else {
                        assert(touches(channels@[i as int], c));
                    }
                }
                if exists|j: int| 0 <= j < i + 1 && touches(#[trigger] channels@[j], c) {
                    let j = choose|j: int| 0 <= j < i + 1 && touches(#[trigger] channels@[j], c);
                    if j < i {
                        assert(prev.spec_contains(c));
                    }
                }
            }
        }
        i = i + 1;
    }
    r
}

/// Whether the channel list has an edge between two centers.
pub open spec fn edge_between(chs: Seq<ChannelDef>, x: Center, y: Center) -> bool {
    exists|j: int|
        0 <= j < chs.len() && ((#[trigger] chs[j]).center_a == x && chs[j].center_b == y || (
        chs[j].center_b == x && chs[j].center_a == y))
}

/// A walk through the channel graph: starts at Throat, stays on defined
/// centers, and steps only along channel edges.
pub open spec fn is_throat_path(chs: Seq<ChannelDef>, d: CenterSet, p: Seq<Center>) -> bool {
    &&& p.len() >= 1
    &&& p[0] == Center::Throat
    &&& forall|i: int| 0 <= i < p.len() ==> d.spec_contains(#[trigger] p[i])
    &&& forall|i: int| 0 <= i < p.len() - 1 ==> edge_between(chs, #[trigger] p[i], p[i + 1])
}

/// Whether a center can be reached from the Throat through defined centers
/// along the given channels.
pub open spec fn reachable_from_throat(chs: Seq<ChannelDef>, d: CenterSet, c: Center) -> bool {
    exists|p: Seq<Center>| is_throat_path(chs, d, p) && p.last() == c
}

/// The motor-to-throat rule: the Throat is defined and some motor center is
/// reachable from it.
pub open spec fn motor_to_throat(chs: Seq<ChannelDef>, d: CenterSet) -> bool {
    exists|c: Center| is_motor_center(c) && reachable_from_throat(chs, d, c)
}

/// A reached set needs nothing more from one channel: each defined endpoint
/// whose other side is reached is itself reached.
pub open spec fn closed_for(r: CenterSet, d: CenterSet, ch: ChannelDef) -> bool {
    &&& (r.spec_contains(ch.center_a) && d.spec_contains(ch.center_b) ==> r.spec_contains(
        ch.center_b,
    ))
    &&& (r.spec_contains(ch.center_b) && d.spec_contains(ch.center_a) ==> r.spec_contains(
        ch.center_a,
    ))
}

/// Extending a path by one edge keeps it a path.
proof fn lemma_path_extend(chs: Seq<ChannelDef>, d: CenterSet, p: Seq<Center>, y: Center)
    requires
        is_throat_path(chs, d, p),
        edge_between(chs, p.last(), y),
        d.spec_contains(y),
    ensures
        is_throat_path(chs, d, p.push(y)),
        p.push(y).last() == y,
{
    let q = p.push(y);
    assert(q[0] == Center::Throat);
    assert forall|i: int| 0 <= i < q.len() implies d.spec_contains(#[trigger] q[i]) by {
        if i < p.len() {
            assert(q[i] == p[i]);
        }
    }
    assert forall|i: int| 0 <= i < q.len() - 1 implies edge_between(chs, #[trigger] q[i], q[i + 1])
        by {
        if i < p.len() - 1 {
            assert(q[i] == p[i] && q[i + 1] == p[i + 1]);
        } else {
            assert(q[i] == p.last() && q[i + 1] == y);
        }
    }
}

/// A set that holds the Throat and is closed under the defined edges holds
/// every reachable center.
proof fn lemma_closed_covers(
    chs: Seq<ChannelDef>,
    d: CenterSet,
    s: CenterSet,
    p: Seq<Center>,
)
    requires
        is_throat_path(chs, d, p),
        s.spec_contains(Center::Throat),
        forall|x: Center, y: Center|
            s.spec_contains(x) && d.spec_contains(y) && edge_between(chs, x, y)
                ==> s.spec_contains(y),
    ensures
        s.spec_contains(p.last()),
    decreases p.len(),
{
    if p.len() == 1 {
        assert(p.last() == Center::Throat);
    } else {
        let q = p.drop_last();
        assert(is_throat_path(chs, d, q)) by {
            assert forall|i: int| 0 <= i < q.len() implies d.spec_contains(#[trigger] q[i]) by {
                assert(q[i] == p[i]);
            }
            assert forall|i: int|
                0 <= i < q.len() - 1 implies edge_between(chs, #[trigger] q[i], q[i + 1]) by {
                assert(q[i] == p[i] && q[i + 1] == p[i + 1]);
            }
        }
        lemma_closed_covers(chs, d, s, q);
        assert(edge_between(chs, p[p.len() - 2], p[p.len() - 1]));
        assert(q.last() == p[p.len() - 2]);
        assert(d.spec_contains(p.last()));
    }
}

/// One expansion pass: walks the channel list once and pulls every defined
/// neighbor of an already reached center into the reached set.  Reports
/// whether anything new was reached; a pass that reports nothing proves the
/// set closed.
fn expand_reached(
    reached: &mut CenterSet,
    channels: &Vec<ChannelDef>,
    defined: &CenterSet,
) -> (changed: bool)
    requires
        forall|c: Center|
            old(reached).spec_contains(c) ==> reachable_from_throat(channels@, *defined, c),
    ensures
        forall|c: Center|
            final (reached).spec_contains(c) ==> reachable_from_throat(channels@, *defined, c),
        forall|c: Center|
            old(reached).spec_contains(c) ==> final (reached).spec_contains(c),
        !changed ==> *final (reached) == *old(reached),
        !changed ==> forall|x: Center, y: Center|
            final (reached).spec_contains(x) && defined.spec_contains(y) && edge_between(
                channels@,
                x,
                y,
            ) ==> final (reached).spec_contains(y),
        changed ==> final (reached).count() > old(reached).count(),
        final (reached).count() >= old(reached).count(),
{
    let mut changed = false;
    let mut i: usize = 0;
    while i < channels.len()
        invariant
            i <= channels@.len(),
            forall|c: Center|
                reached.spec_contains(c) ==> reachable_from_throat(channels@, *defined, c),
            forall|c: Center|
                old(reached).spec_contains(c) ==> reached.spec_contains(c),
            !changed ==> *reached == *old(reached),
            !changed ==> forall|j: int|
                0 <= j < i ==> closed_for(*reached, *defined, #[trigger] channels@[j]),
            changed ==> reached.count() > old(reached).count(),
            reached.count() >= old(reached).count(),
        decreases channels@.len() - i,
    {
        let ch = channels[i];
        let ra = reached.contains(ch.center_a);
        let rb = reached.contains(ch.center_b);
        if ra && !rb && defined.contains(ch.center_b) {
            proof {
                let x = ch.center_a;
                let y = ch.center_b;
                let p = choose|p: Seq<Center>|
                    is_throat_path(channels@, *defined, p) && p.last() == x;
                assert(edge_between(channels@, x, y)) by {
                    assert((channels@[i as int]).center_a == x && channels@[i as int].center_b
                        == y);
                }
                lemma_path_extend(channels@, *defined, p, y);
                assert(reachable_from_throat(channels@, *defined, y)) by {
                    assert(is_throat_path(channels@, *defined, p.push(y)) && p.push(y).last()
                        == y);
                }
            }
            reached.insert(ch.center_b);
            changed = true;
        }
        let ra2 = reached.contains(ch.center_a);
        let rb2 = reached.contains(ch.center_b);
        if rb2 && !ra2 && defined.contains(ch.center_a) {
            proof {
                let x = ch.center_b;
                let y = ch.center_a;
                let p = choose|p: Seq<Center>|
                    is_throat_path(channels@, *defined, p) && p.last() == x;
                assert(edge_between(channels@, x, y)) by {
                    assert((channels@[i as int]).center_b == x && channels@[i as int].center_a
                        == y);
                }
                lemma_path_extend(channels@, *defined, p, y);
                assert(reachable_from_throat(channels@, *defined, y)) by {
                    assert(is_throat_path(channels@, *defined, p.push(y)) && p.push(y).last()
                        == y);
                }
            }
            reached.insert(ch.center_a);
            changed = true;
        }
        i = i + 1;
    }
    proof {
        if !changed {
            assert forall|x: Center, y: Center|
                reached.spec_contains(x) && defined.spec_contains(y) && edge_between(
                    channels@,
                    x,
                    y,
                ) implies reached.spec_contains(y) by {
                let j = choose|j: int|
                    0 <= j < channels@.len() && ((#[trigger] channels@[j]).center_a == x
                        && channels@[j].center_b == y || (channels@[j].center_b == x
                        && channels@[j].center_a == y));
            }
        }
    }
    changed
}

/// Whether some motor center connects to the Throat through the defined
/// channels: true exactly when the Throat is defined and a chain of active
/// channels over defined centers joins it to a motor.
pub fn has_motor_to_throat_connection(
    defined: &CenterSet,
    channels: &Vec<ChannelDef>,
) -> (r: bool)
    ensures
        r == (defined.spec_contains(Center::Throat) && motor_to_throat(channels@, *defined)),
{
    if !defined.contains(Center::Throat) {
        proof {
            assert(!defined.spec_contains(Center::Throat));
        }
        return false;
    }
    let mut reached = CenterSet::empty();
    proof {
        let p = seq![Center::Throat];
        assert(is_throat_path(channels@, *defined, p) && p.last() == Center::Throat);
    }
    reached.insert(Center::Throat);
    let mut changed = true;
    while changed
        invariant
            forall|c: Center|
                reached.spec_contains(c) ==> reachable_from_throat(channels@, *defined, c),
            reached.spec_contains(Center::Throat),
            0 <= reached.count() <= 9,
            !changed ==> forall|x: Center, y: Center|
                reached.spec_contains(x) && defined.spec_contains(y) && edge_between(
                    channels@,
                    x,
                    y,
                ) ==> reached.spec_contains(y),
        decreases 10 * (9 - reached.count()) + (if changed { 1int } else { 0int }),
    {
        changed = expand_reached(&mut reached, channels, defined);
    }
    let found = reached.contains(Center::Sacral) || reached.contains(Center::Heart)
        || reached.contains(Center::SolarPlexus) || reached.contains(Center::Root);
    proof {
        if found {
            if reached.spec_contains(Center::Sacral) {
                assert(is_motor_center(Center::Sacral) && reachable_from_throat(
                    channels@,
                    *defined,
                    Center::Sacral,
                ));
            } else if reached.spec_contains(Center::Heart) {
                assert(is_motor_center(Center::Heart) && reachable_from_throat(
                    channels@,
                    *defined,
                    Center::Heart,
                ));
            } else if reached.spec_contains(Center::SolarPlexus) {
                assert(is_motor_center(Center::SolarPlexus) && reachable_from_throat(
                    channels@,
                    *defined,
                    Center::SolarPlexus,
                ));
            } else {
                assert(is_motor_center(Center::Root) && reachable_from_throat(
                    channels@,
                    *defined,
                    Center::Root,
                ));
            }
        } else {
            if motor_to_throat(channels@, *defined) {
                let c = choose|c: Center|
                    is_motor_center(c) && reachable_from_throat(channels@, *defined, c);
                let p = choose|p: Seq<Center>|
                    is_throat_path(channels@, *defined, p) && p.last() == c;
                lemma_closed_covers(channels@, *defined, reached, p);
            }
        }
    }
    found
}

/// The five chart types.
#[derive(Clone, Copy, PartialEq, Eq, Structural, Debug)]
pub enum HdType {
    Reflector,
    ManifestingGenerator,
    Generator,
    Manifestor,
    Projector,
}

/// The snake_case key a type is filed under in the text repository.
pub open spec fn type_key_chars(t: HdType) -> Seq<char> {
    match t {
        HdType::Reflector => "reflector"@,
        HdType::ManifestingGenerator => "manifesting_generator"@,
        HdType::Generator => "generator"@,
        HdType::Manifestor => "manifestor"@,
        HdType::Projector => "projector"@,
    }
}

impl HdType {
    /// The type's repository key.
    pub fn key(&self) -> (r: &'static str)
        ensures
            r@ == type_key_chars(*self),
    {
        match self {
            HdType::Reflector => "reflector",
            HdType::ManifestingGenerator => "manifesting_generator",
            HdType::Generator => "generator",
            HdType::Manifestor => "manifestor",
            HdType::Projector => "projector",
        }
    }
}

/// The seven authorities, in priority order.
#[derive(Clone, Copy, PartialEq, Eq, Structural, Debug)]
pub enum Authority {
    Emotional,
    Sacral,
    Splenic,
    Ego,
    SelfProjected,
    Mental,
    Lunar,
}

/// The snake_case key an authority is filed under in the text repository.
pub open spec fn authority_key_chars(a: Authority) -> Seq<char> {
    match a {
        Authority::Emotional => "emotional"@,
        Authority::Sacral => "sacral"@,
        Authority::Splenic => "splenic"@,
        Authority::Ego => "ego"@,
        Authority::SelfProjected => "self_projected"@,
        Authority::Mental => "mental"@,
        Authority::Lunar => "lunar"@,
    }
}

impl Authority {
    /// The authority's repository key.
    pub fn key(&self) -> (r: &'static str)
        ensures
            r@ == authority_key_chars(*self),
    {
        match self {
            Authority::Emotional => "emotional",
            Authority::Sacral => "sacral",
            Authority::Splenic => "splenic",
            Authority::Ego => "ego",
            Authority::SelfProjected => "self_projected",
            Authority::Mental => "mental",
            Authority::Lunar => "lunar",
        }
    }
}

/// The motor-to-throat side of the type rule: the Throat is defined and a
/// motor reaches it.
pub open spec fn throat_motor(chs: Seq<ChannelDef>, d: CenterSet) -> bool {
    d.spec_contains(Center::Throat) && motor_to_throat(chs, d)
}

/// The type rule, priority ordered: no defined center makes a Reflector; a
/// defined Sacral makes a Generator, a Manifesting Generator when a motor
/// also reaches the Throat; a motor reaching the Throat without Sacral makes
/// a Manifestor; anything else a Projector.
pub open spec fn type_rule(chs: Seq<ChannelDef>, d: CenterSet) -> HdType {
    if d.spec_is_empty() {
        HdType::Reflector
    } else if d.spec_contains(Center::Sacral) && throat_motor(chs, d) {
        HdType::ManifestingGenerator
    } else if d.spec_contains(Center::Sacral) {
        HdType::Generator
    } else if throat_motor(chs, d) {
        HdType::Manifestor
    } else {
        HdType::Projector
    }
}

/// Classifies the chart type from the defined centers and active channels.
pub fn determine_type(defined: &CenterSet, channels: &Vec<ChannelDef>) -> (r: HdType)
    ensures
        r == type_rule(channels@, *defined),
{
    let has_sacral = defined.contains(Center::Sacral);
    let m2t = has_motor_to_throat_connection(defined, channels);
    if defined.is_empty() {
        HdType::Reflector
    } else if has_sacral && m2t {
        HdType::ManifestingGenerator
    } else if has_sacral {
        HdType::Generator
    } else if m2t {
        HdType::Manifestor
    } else {
        HdType::Projector
    }
}

/// The authority rule, priority ordered over the defined centers.
pub open spec fn authority_rule(d: CenterSet) -> Authority {
    if d.spec_contains(Center::SolarPlexus) {
        Authority::Emotional
    } else if d.spec_contains(Center::Sacral) {
        Authority::Sacral
    } else if d.spec_contains(Center::Spleen) {
        Authority::Splenic
    } else if d.spec_contains(Center::Heart) {
        Authority::Ego
    } else if d.spec_contains(Center::G) {
        Authority::SelfProjected
    } else if d.spec_contains(Center::Throat) {
        Authority::Mental
    } else {
        Authority::Lunar
    }
}

/// Classifies the authority from the defined centers.
pub fn determine_authority(defined: &CenterSet) -> (r: Authority)
    ensures
        r == authority_rule(*defined),
{
    if defined.contains(Center::SolarPlexus) {
        Authority::Emotional
    } else if defined.contains(Center::Sacral) {
        Authority::Sacral
    } else if defined.contains(Center::Spleen) {
        Authority::Splenic
    } else if defined.contains(Center::Heart) {
        Authority::Ego
    } else if defined.contains(Center::G) {
        Authority::SelfProjected
    } else if defined.contains(Center::Throat) {
        Authority::Mental
    } else {
        Authority::Lunar
    }
}

/// The Solar Plexus always wins the authority: whenever it is defined the
/// authority is Emotional, whatever else is defined with it.
pub proof fn lemma_authority_priority(d: CenterSet)
    requires
        d.spec_contains(Center::SolarPlexus),
    ensures
        authority_rule(d) == Authority::Emotional,
{
}

/// The type truth table: no defined center gives a Reflector; a defined
/// Sacral gives a Generator when no motor reaches the Throat, and a
/// Manifesting Generator when one does.
pub proof fn lemma_type_table(chs: Seq<ChannelDef>, d: CenterSet)
    ensures
        d.spec_is_empty() ==> type_rule(chs, d) == HdType::Reflector,
        d.spec_contains(Center::Sacral) && !throat_motor(chs, d) ==> type_rule(chs, d)
            == HdType::Generator,
        d.spec_contains(Center::Sacral) && throat_motor(chs, d) ==> type_rule(chs, d)
            == HdType::ManifestingGenerator,
        !d.spec_contains(Center::Sacral) && !d.spec_is_empty() && throat_motor(chs, d)
            ==> type_rule(chs, d) == HdType::Manifestor,
        !d.spec_contains(Center::Sacral) && !d.spec_is_empty() && !throat_motor(chs, d)
            ==> type_rule(chs, d) == HdType::Projector,
{
    if d.spec_contains(Center::Sacral) {
        assert(!d.spec_is_empty());
    }
}

} // verus!
