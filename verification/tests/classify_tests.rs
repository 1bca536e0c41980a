//! Type and authority classification over hand-built gate sets.

use hd_cli::centers::Center;
use hd_cli::channels::{find_active_channels, unique_channels};
use hd_cli::classify::{
    determine_authority, determine_type, find_defined_centers, has_motor_to_throat_connection,
    Authority, CenterSet, HdType,
};

fn setup(gates: Vec<u8>) -> (Vec<hd_cli::channels::ChannelDef>, CenterSet) {
    let channels = unique_channels(find_active_channels(&gates));
    let defined = find_defined_centers(&channels);
    (channels, defined)
}

#[test]
fn no_defined_centers_is_a_reflector() {
    let (channels, defined) = setup(vec![]);
    assert!(defined.is_empty());
    assert_eq!(determine_type(&defined, &channels), HdType::Reflector);
    assert_eq!(determine_authority(&defined), Authority::Lunar);
}

#[test]
fn sacral_without_throat_is_a_generator() {
    // Gates 5 and 15 close the G-Sacral channel: Sacral defined, Throat not.
    let (channels, defined) = setup(vec![5, 15]);
    assert!(defined.contains(Center::Sacral));
    assert!(!defined.contains(Center::Throat));
    assert_eq!(determine_type(&defined, &channels), HdType::Generator);
    assert_eq!(determine_authority(&defined), Authority::Sacral);
}

#[test]
fn sacral_to_throat_is_a_manifesting_generator() {
    // Gates 20 and 34 close the Throat-Sacral channel: a motor reaches the
    // Throat directly.
    let (channels, defined) = setup(vec![20, 34]);
    assert!(defined.contains(Center::Sacral));
    assert!(defined.contains(Center::Throat));
    assert!(has_motor_to_throat_connection(&defined, &channels));
    assert_eq!(determine_type(&defined, &channels), HdType::ManifestingGenerator);
}

#[test]
fn motor_to_throat_through_a_middle_center() {
    // Gates 1 and 8 define G-Throat; gates 2 and 14 define G-Sacral.  The
    // Sacral motor reaches the Throat through G, two channels away.
    let (channels, defined) = setup(vec![1, 8, 2, 14]);
    assert!(defined.contains(Center::G));
    assert!(defined.contains(Center::Throat));
    assert!(defined.contains(Center::Sacral));
    assert!(has_motor_to_throat_connection(&defined, &channels));
    assert_eq!(determine_type(&defined, &channels), HdType::ManifestingGenerator);
}

#[test]
fn motor_to_throat_without_sacral_is_a_manifestor() {
    // Gates 12 and 22 close Throat-SolarPlexus: a motor at the Throat, no
    // Sacral.
    let (channels, defined) = setup(vec![12, 22]);
    assert!(!defined.contains(Center::Sacral));
    assert!(has_motor_to_throat_connection(&defined, &channels));
    assert_eq!(determine_type(&defined, &channels), HdType::Manifestor);
    assert_eq!(determine_authority(&defined), Authority::Emotional);
}

#[test]
fn defined_without_motors_or_sacral_is_a_projector() {
    // Gates 64 and 47 close Head-Ajna: defined centers, no Sacral, nothing
    // reaching the Throat.
    let (channels, defined) = setup(vec![64, 47]);
    assert!(!defined.is_empty());
    assert!(!has_motor_to_throat_connection(&defined, &channels));
    assert_eq!(determine_type(&defined, &channels), HdType::Projector);
}

#[test]
fn throat_without_motors_stays_unreachable() {
    // Gates 17 and 62 close Ajna-Throat: the Throat is defined but no motor
    // joins the component.
    let (channels, defined) = setup(vec![17, 62]);
    assert!(defined.contains(Center::Throat));
    assert!(!has_motor_to_throat_connection(&defined, &channels));
    assert_eq!(determine_type(&defined, &channels), HdType::Projector);
    assert_eq!(determine_authority(&defined), Authority::Mental);
}

#[test]
fn solar_plexus_beats_sacral_for_authority() {
    // Gates 59 and 6 close Sacral-SolarPlexus: both motors defined, and the
    // authority must be Emotional.
    let (_, defined) = setup(vec![59, 6]);
    assert!(defined.contains(Center::SolarPlexus));
    assert!(defined.contains(Center::Sacral));
    assert_eq!(determine_authority(&defined), Authority::Emotional);
}

#[test]
fn authority_priority_walks_down_the_list() {
    // Spleen over Heart: gates 26 and 44 give Heart-Spleen; splenic wins
    // over ego.
    let (_, defined) = setup(vec![26, 44]);
    assert!(defined.contains(Center::Spleen));
    assert!(defined.contains(Center::Heart));
    assert_eq!(determine_authority(&defined), Authority::Splenic);

    // Heart with G only: gates 25 and 51 give G-Heart; ego.
    let (_, d2) = setup(vec![25, 51]);
    assert_eq!(determine_authority(&d2), Authority::Ego);
}

#[test]
fn type_and_authority_keys() {
    assert_eq!(HdType::ManifestingGenerator.key(), "manifesting_generator");
    assert_eq!(HdType::Reflector.key(), "reflector");
    assert_eq!(Authority::SelfProjected.key(), "self_projected");
    assert_eq!(Authority::Emotional.key(), "emotional");
}
