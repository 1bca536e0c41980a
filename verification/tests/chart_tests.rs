//! Chart assembly against fixture repositories.

use hd_cli::angle::HALF_CIRCLE_MAS;
use hd_cli::chart::{assemble_longitudes, build_chart, chart_core, find_cross_key_in_db};
use hd_cli::classify::HdType;
use hd_cli::database::{pick_database, GateData, HdDatabase, MetaObject};
use hd_cli::gates::WHEEL_START_MAS;

fn gate_41_everywhere() -> Vec<i64> {
    vec![WHEEL_START_MAS; 13]
}

fn gate_data(name: &str, crosses: Vec<&str>) -> GateData {
    GateData {
        name: name.to_string(),
        description: "about this gate".to_string(),
        lines: vec![(1, "first line".to_string())],
        crosses: crosses.iter().map(|s| s.to_string()).collect(),
        center: None,
        across: None,
        fear: None,
        sexuality: None,
        love: None,
        business: None,
        circuit: None,
        sub_circuit: None,
    }
}

#[test]
fn empty_repository_falls_back_to_keys() {
    let db = HdDatabase::empty();
    let pers = gate_41_everywhere();
    let des = gate_41_everywhere();
    let chart = build_chart(1990, 5, 15, 14, 30, 180, true, &db, &pers, &des);
    assert_eq!(chart.birth_date, "1990-05-15");
    assert_eq!(chart.birth_time, "14:30");
    assert_eq!(chart.utc_offset_min, 180);
    // Gate 41 alone defines nothing: a Reflector with lunar authority.
    assert_eq!(chart.hd_type, "reflector");
    assert_eq!(chart.authority, "lunar");
    assert_eq!(chart.strategy, "reflector");
    assert_eq!(chart.profile, "1/1");
    assert_eq!(chart.incarnation_cross, "right_angle (41/41 | 41/41)");
    assert!(chart.channels.is_empty());
    assert_eq!(chart.centers.len(), 9);
    assert!(chart.centers.iter().all(|c| !c.defined));
    assert_eq!(chart.centers[0].name, "head");
    assert_eq!(chart.personality.len(), 13);
    assert_eq!(chart.design.len(), 13);
    assert_eq!(chart.personality[0].planet, "Sun");
    assert_eq!(chart.personality[1].planet, "Earth");
    assert_eq!(chart.personality[0].gate, 41);
    assert!(chart.motivation.is_none());
    assert!(chart.fear.is_none());
}

#[test]
fn repository_names_resolve() {
    let mut db = HdDatabase::empty();
    db.types.push((
        HdType::Reflector,
        MetaObject { name: "Рефлектор".to_string(), description: "lunar being".to_string() },
    ));
    db.strategies.push((HdType::Reflector, "wait a lunar cycle".to_string()));
    db.profiles.push((
        (1, 1),
        MetaObject { name: "1/1 Investigator".to_string(), description: "studies".to_string() },
    ));
    db.gates.push((
        41,
        gate_data(
            "Contraction",
            vec!["left_angle_cross_of_the_alpha", "right_angle_cross_of_the_unexpected"],
        ),
    ));
    db.crosses.push((
        "right_angle_cross_of_the_unexpected".to_string(),
        MetaObject { name: "Cross of the Unexpected".to_string(), description: "x".to_string() },
    ));
    let pers = gate_41_everywhere();
    let des = gate_41_everywhere();
    let chart = build_chart(1990, 5, 15, 14, 30, 180, true, &db, &pers, &des);
    assert_eq!(chart.hd_type, "Рефлектор");
    assert_eq!(chart.type_description.as_deref(), Some("lunar being"));
    assert_eq!(chart.strategy, "wait a lunar cycle");
    assert_eq!(chart.profile, "1/1 Investigator");
    assert_eq!(chart.incarnation_cross, "Cross of the Unexpected (41/41 | 41/41)");
    assert_eq!(chart.personality[0].gate_name.as_deref(), Some("Contraction"));
    assert_eq!(chart.personality[0].line_description.as_deref(), Some("first line"));
}

#[test]
fn short_chart_hides_descriptions() {
    let mut db = HdDatabase::empty();
    db.types.push((
        HdType::Reflector,
        MetaObject { name: "Reflector".to_string(), description: "lunar being".to_string() },
    ));
    let pers = gate_41_everywhere();
    let des = gate_41_everywhere();
    let chart = build_chart(1990, 5, 15, 14, 30, 180, false, &db, &pers, &des);
    assert!(chart.type_description.is_none());
    assert!(chart.business.is_none());
    assert!(chart.personality[0].gate_description.is_none());
}

#[test]
fn cross_key_prefers_the_angle_tag() {
    let mut db = HdDatabase::empty();
    db.gates.push((41, gate_data("G", vec!["left_angle_cross_of_a", "right_angle_cross_of_b"])));
    assert_eq!(
        find_cross_key_in_db(&db, 41, "right_angle").as_deref(),
        Some("right_angle_cross_of_b")
    );
    assert_eq!(
        find_cross_key_in_db(&db, 41, "left_angle").as_deref(),
        Some("left_angle_cross_of_a")
    );
    // No tag match: the first cross is the fallback.
    assert_eq!(
        find_cross_key_in_db(&db, 41, "juxtaposition").as_deref(),
        Some("left_angle_cross_of_a")
    );
    // Unknown gate, or a gate without crosses: nothing.
    assert_eq!(find_cross_key_in_db(&db, 42, "right_angle"), None);
    db.gates.push((42, gate_data("H", vec![])));
    assert_eq!(find_cross_key_in_db(&db, 42, "right_angle"), None);
}

#[test]
fn assemble_longitudes_derives_earth_and_south_node() {
    let lngs = assemble_longitudes(0, 7, 11, 1, 2, 3, 4, 5, 6, 8, 9);
    assert_eq!(lngs.len(), 13);
    assert_eq!(lngs[0], 0);
    assert_eq!(lngs[1], HALF_CIRCLE_MAS);
    assert_eq!(lngs[2], 7);
    assert_eq!(lngs[3], 11);
    assert_eq!(lngs[4], HALF_CIRCLE_MAS + 11);
    assert_eq!(lngs[5], 1);
    assert_eq!(lngs[12], 9);
}

#[test]
fn gate_sections_collect_active_gate_texts() {
    // Gate 41 is active; its fear and business texts must surface, each
    // labelled with its gate, and the motivation fear rides in front.
    let mut db = HdDatabase::empty();
    let mut gd = gate_data("Contraction", vec![]);
    gd.fear = Some("fear of dreaming".to_string());
    gd.business = Some("venture pacing".to_string());
    db.gates.push((41, gd));
    db.fears.push((1, "motivation fear".to_string()));
    let pers = gate_41_everywhere();
    let des = gate_41_everywhere();
    let chart = build_chart(1990, 5, 15, 14, 30, 180, true, &db, &pers, &des);
    let fear = chart.fear.expect("fear section");
    assert_eq!(fear.len(), 2);
    assert_eq!(fear[0].label, "Motivation 1:");
    assert_eq!(fear[0].description, "motivation fear");
    assert!(fear[0].gate_id.is_none());
    assert_eq!(fear[1].label, "Gate 41 (Contraction):");
    assert_eq!(fear[1].description, "fear of dreaming");
    assert_eq!(fear[1].gate_id, Some(41));
    assert_eq!(fear[1].gate_name.as_deref(), Some("Contraction"));
    let business = chart.business.expect("business section");
    assert_eq!(business.len(), 1);
    assert_eq!(business[0].description, "venture pacing");
    assert!(chart.sexuality.is_none());
    assert!(chart.love.is_none());

    // A short chart keeps fear but drops business.
    let short = build_chart(1990, 5, 15, 14, 30, 180, false, &db, &pers, &des);
    assert!(short.business.is_none());
    assert!(short.fear.is_some());
}

#[test]
fn phs_sections_carry_color_and_tone_texts() {
    let mut db = HdDatabase::empty();
    db.motivation = Some(hd_cli::database::PhsBlock {
        colors: vec![(1, "color one motivation".to_string())],
        tones: vec![],
    });
    db.diet = Some(hd_cli::database::PhsBlock {
        colors: vec![(1, "diet color".to_string())],
        tones: vec![(1, "diet tone".to_string())],
    });
    let pers = gate_41_everywhere();
    let des = gate_41_everywhere();
    let chart = build_chart(1990, 5, 15, 14, 30, 180, true, &db, &pers, &des);
    let motivation = chart.motivation.expect("motivation section");
    assert_eq!(motivation.len(), 1);
    assert_eq!(motivation[0].label, "Color 1:");
    assert_eq!(motivation[0].description, "color one motivation");
    let diet = chart.diet.expect("diet section");
    assert_eq!(diet.len(), 2);
    assert_eq!(diet[0].label, "Color 1:");
    assert_eq!(diet[0].description, "diet color");
    assert_eq!(diet[1].label, "Tone 1:");
    assert_eq!(diet[1].description, "diet tone");
    assert!(chart.environment.is_none());
    assert!(chart.vision.is_none());
}

#[test]
fn language_rule_defaults_to_russian() {
    let mut en = HdDatabase::empty();
    en.strategies.push((HdType::Reflector, "en text".to_string()));
    let mut es = HdDatabase::empty();
    es.strategies.push((HdType::Reflector, "es text".to_string()));
    let mut ru = HdDatabase::empty();
    ru.strategies.push((HdType::Reflector, "ru text".to_string()));
    assert_eq!(pick_database("en", &en, &es, &ru).strategies[0].1, "en text");
    assert_eq!(pick_database("es", &en, &es, &ru).strategies[0].1, "es text");
    assert_eq!(pick_database("ru", &en, &es, &ru).strategies[0].1, "ru text");
    assert_eq!(pick_database("de", &en, &es, &ru).strategies[0].1, "ru text");
    assert_eq!(pick_database("", &en, &es, &ru).strategies[0].1, "ru text");
}

#[test]
fn chart_core_classifies_a_manifesting_generator() {
    // Personality Sun on gate 20 (Throat), design Sun on gate 34 (Sacral):
    // the 20-34 channel makes a Manifesting Generator.
    // Gate 20 is wheel slot 21, gate 34 slot 53.
    let gate_20 = hd_cli::angle::normalize(
        WHEEL_START_MAS + 21 * hd_cli::gates::GATE_SPAN_MAS,
    );
    let gate_34 = hd_cli::angle::normalize(
        WHEEL_START_MAS + 53 * hd_cli::gates::GATE_SPAN_MAS,
    );
    let pers = vec![gate_20; 13];
    let des = vec![gate_34; 13];
    let (active, channels, defined, hd_type, authority) = chart_core(&pers, &des);
    assert_eq!(active, vec![20u8, 34]);
    assert_eq!(channels.len(), 1);
    assert_eq!(channels[0].key(), "20-34");
    assert!(defined.contains(hd_cli::centers::Center::Throat));
    assert!(defined.contains(hd_cli::centers::Center::Sacral));
    assert_eq!(hd_type, HdType::ManifestingGenerator);
    assert_eq!(authority, hd_cli::classify::Authority::Sacral);
}
