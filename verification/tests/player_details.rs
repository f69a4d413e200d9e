use std::collections::HashSet;
use nwahttp::server_info::counters::{Metric, MetricValue, Observation};
use nwahttp::server_info::player_details::{
    Attribute, AttributeValue, Player, PlayerClass, Skill, SkillType, SkillValue, Specialization,
    Vec3,
};
use nwahttp::server_info::samples::{
    AttributeSample, DetailSample, IdentitySample, PlayerSample, SkillSample,
};

fn ids(list: &[u16]) -> HashSet<u16> {
    list.iter().copied().collect()
}

fn sample_at(cell: &str, x: i32, y: i32, z: i32) -> PlayerSample {
    PlayerSample {
        rot_x: 100,
        rot_z: -200,
        is_outside: true,
        cell: cell.to_string(),
        pos_x: x,
        pos_y: y,
        pos_z: z,
        health_base: 50_000,
        health_current: 45_500,
        fatigue_base: 200_000,
        fatigue_current: 150_250,
        magicka_base: 80_000,
        magicka_current: 12_000,
        level: 3,
        level_progress: 7,
    }
}

fn skill_sample(name: &str, base: i32, progress: i32) -> SkillSample {
    SkillSample { name: name.to_string(), progress, base, increase: 1, modifier: 2, damage: 500 }
}

fn attribute_sample(name: &str, base: i32) -> AttributeSample {
    AttributeSample { name: name.to_string(), damage: 1500, modifier: -3, base }
}

fn identity() -> IdentitySample {
    IdentitySample {
        name: "Fargoth".to_string(),
        race: "Wood Elf".to_string(),
        head: "b_n_wood elf_m_head_01".to_string(),
        hair: "b_n_wood elf_m_hair_01".to_string(),
        major_skills: [0, 5],
        minor_skills: [9, 10, 18, 19, 20],
        class_specialization: 0,
        default_class: "Warrior".to_string(),
        class_name: String::new(),
        class_description: String::new(),
    }
}

fn details() -> DetailSample {
    DetailSample {
        attributes: vec![attribute_sample("Strength", 50), attribute_sample("Intelligence", 40)],
        skills: vec![
            skill_sample("Block", 0, 300),
            skill_sample("Armorer", 9, 5000),
        ],
    }
}

fn skill(base: i32, progress: i32) -> SkillValue {
    SkillValue::get(4, &skill_sample("Blunt", base, progress))
}

#[test]
fn distance_of_a_right_triangle() {
    let a = Vec3::new(0, 0, 0);
    let b = Vec3::new(3000, 4000, 0);
    assert_eq!(a.distance(b), 5000);
    assert_eq!(b.distance(a), 5000);
    assert_eq!(Vec3::new(1000, 2000, 2000).distance(Vec3::new(0, 0, 0)), 3000);
}

#[test]
fn distance_is_rounded_down() {
    assert_eq!(Vec3::new(0, 0, 0).distance(Vec3::new(1, 1, 0)), 1);
    assert_eq!(Vec3::new(0, 0, 0).distance(Vec3::new(1, 1, 1)), 1);
    assert_eq!(Vec3::new(0, 0, 0).distance(Vec3::new(1234567, 1234567, 1234567)), 2138332);
    assert_eq!(Vec3::new(5, 5, 5).distance(Vec3::new(5, 5, 5)), 0);
}

#[test]
fn distance_between_the_farthest_points() {
    let low = Vec3::new(i32::MIN, i32::MIN, i32::MIN);
    let high = Vec3::new(i32::MAX, i32::MAX, i32::MAX);
    assert_eq!(low.distance(high), 7439101571);
    assert_eq!(high.distance(low), 7439101571);
}

#[test]
fn vec3_from_and_into_a_triple() {
    let v = Vec3::from((1, -2, 3));
    assert_eq!(v, Vec3 { x: 1, y: -2, z: 3 });
    let t: (i32, i32, i32) = v.into();
    assert_eq!(t, (1, -2, 3));
    assert_eq!(Vec3::default(), Vec3::new(0, 0, 0));
}

#[test]
fn position_and_rotation_of_a_sample() {
    let s = sample_at("Balmora", 10, 20, 30);
    assert_eq!(Vec3::get_position(&s), Vec3::new(10, 20, 30));
    assert_eq!(Vec3::get_rotation(&s), Vec3::new(100, 0, -200));
}

#[test]
fn attribute_and_skill_ids() {
    assert_eq!(Attribute::Strength.id(), 0);
    assert_eq!(Attribute::Luck.id(), 7);
    assert_eq!(Skill::Block.id(), 0);
    assert_eq!(Skill::Athletics.id(), 8);
    assert_eq!(Skill::Enchant.id(), 9);
    assert_eq!(Skill::Unarmored.id(), 17);
    assert_eq!(Skill::Security.id(), 18);
    assert_eq!(Skill::HandToHand.id(), 26);
}

#[test]
fn skill_category_goes_by_id_range() {
    assert_eq!(Specialization::get_for_skill(0), Specialization::Combat);
    assert_eq!(Specialization::get_for_skill(8), Specialization::Combat);
    assert_eq!(Specialization::get_for_skill(9), Specialization::Magic);
    assert_eq!(Specialization::get_for_skill(17), Specialization::Magic);
    assert_eq!(Specialization::get_for_skill(18), Specialization::Stealth);
    assert_eq!(Specialization::get_for_skill(26), Specialization::Stealth);
    assert_eq!(Specialization::get_for_skill(27), Specialization::Unspecified);
    assert_eq!(Specialization::get_for_skill(u16::MAX), Specialization::Unspecified);
}

#[test]
fn every_skill_has_the_category_of_its_range() {
    assert_eq!(Specialization::get_for_skill(Skill::Longblade.id()), Specialization::Combat);
    assert_eq!(Specialization::get_for_skill(Skill::Alchemy.id()), Specialization::Magic);
    assert_eq!(Specialization::get_for_skill(Skill::Marksman.id()), Specialization::Stealth);
}

#[test]
fn specialization_of_a_class() {
    assert_eq!(Specialization::get(0), Specialization::Combat);
    assert_eq!(Specialization::get(1), Specialization::Magic);
    assert_eq!(Specialization::get(2), Specialization::Stealth);
    assert_eq!(Specialization::get(3), Specialization::Unspecified);
    assert_eq!(Specialization::get(-1), Specialization::Unspecified);
    assert_eq!(Specialization::get(i32::MAX), Specialization::Unspecified);
}

#[test]
fn defaults() {
    assert_eq!(SkillType::default(), SkillType::Misc);
    assert_eq!(Specialization::default(), Specialization::Unspecified);
    assert!(matches!(PlayerClass::default(), PlayerClass::Unset));
    let p = Player::default();
    assert_eq!(p.id, 0);
    assert_eq!(p.name, "");
    assert!(!p.logged_in);
    assert_eq!(p.distance_travelled, 0);
    assert_eq!(p.cell, "");
    assert_eq!(p.position, Vec3::new(0, 0, 0));
    assert!(p.attributes.is_empty());
    assert!(p.skills.is_empty());
    assert!(p.major_skills.is_empty());
    assert!(p.minor_skills.is_empty());
    assert_eq!(p.specialisation, Specialization::Unspecified);
    assert!(matches!(p.class, PlayerClass::Unset));
}

#[test]
fn attribute_value_of_a_sample() {
    let a = AttributeValue::get(3, &attribute_sample("Agility", 55));
    assert_eq!(a.id, 3);
    assert_eq!(a.name, "Agility");
    assert_eq!(a.damage, 1500);
    assert_eq!(a.modifier, -3);
    assert_eq!(a.base, 55);
    let b = a.clone();
    assert_eq!(b.id, 3);
    assert_eq!(b.name, "Agility");
    assert_eq!(b.base, 55);
}

#[test]
fn skill_value_of_a_sample() {
    let s = SkillValue::get(4, &skill_sample("Blunt", 12, 3450));
    assert_eq!(s.id, 4);
    assert_eq!(s.name, "Blunt");
    assert_eq!(s.progress, 3450);
    assert_eq!(s.base, 12);
    assert_eq!(s.increase, 1);
    assert_eq!(s.modifier, 2);
    assert_eq!(s.damage, 500);
    assert_eq!(s.progress_requirement, 0);
    assert_eq!(s.progress_percent, Some(0));
    assert_eq!(s.skill_type, SkillType::Minor);
}

#[test]
fn progress_of_a_minor_skill_of_level_zero() {
    let mut s = skill(0, 300);
    s.calculate_progress(false, SkillType::Minor);
    assert_eq!(s.progress_requirement, 1000);
    assert_eq!(s.progress_percent, Some(300));
    assert_eq!(s.skill_type, SkillType::Minor);
    assert_eq!(s.progress, 300);
    assert_eq!(s.base, 0);
    assert_eq!(s.name, "Blunt");
}

#[test]
fn progress_of_a_major_skill_of_the_specialization() {
    let mut s = skill(0, 300);
    s.calculate_progress(true, SkillType::Major);
    assert_eq!(s.progress_requirement, 600);
    assert_eq!(s.progress_percent, Some(500));
    assert_eq!(s.skill_type, SkillType::Major);
}

#[test]
fn progress_by_skill_type() {
    let mut s = skill(9, 5000);
    s.calculate_progress(false, SkillType::Major);
    assert_eq!(s.progress_requirement, 7500);
    assert_eq!(s.progress_percent, Some(666));
    let mut s = skill(9, 5000);
    s.calculate_progress(false, SkillType::Minor);
    assert_eq!(s.progress_requirement, 10000);
    assert_eq!(s.progress_percent, Some(500));
    let mut s = skill(9, 5000);
    s.calculate_progress(false, SkillType::Misc);
    assert_eq!(s.progress_requirement, 12500);
    assert_eq!(s.progress_percent, Some(400));
    let mut s = skill(9, 2500);
    s.calculate_progress(true, SkillType::Misc);
    assert_eq!(s.progress_requirement, 10000);
    assert_eq!(s.progress_percent, Some(250));
    assert_eq!(s.skill_type, SkillType::Misc);
}

#[test]
fn progress_is_rounded_toward_zero() {
    let mut s = skill(2, 1000);
    s.calculate_progress(false, SkillType::Minor);
    assert_eq!(s.progress_requirement, 3000);
    assert_eq!(s.progress_percent, Some(333));
    let mut s = skill(2, -1000);
    s.calculate_progress(false, SkillType::Minor);
    assert_eq!(s.progress_percent, Some(-333));
    let mut s = skill(2, 2000);
    s.calculate_progress(false, SkillType::Minor);
    assert_eq!(s.progress_percent, Some(666));
}

#[test]
fn progress_without_a_requirement() {
    let mut s = skill(-1, 300);
    s.calculate_progress(false, SkillType::Minor);
    assert_eq!(s.progress_requirement, 0);
    assert_eq!(s.progress_percent, None);
    let mut s = skill(-1, 0);
    s.calculate_progress(true, SkillType::Major);
    assert_eq!(s.progress_requirement, 0);
    assert_eq!(s.progress_percent, None);
}

#[test]
fn progress_of_a_negative_level() {
    let mut s = skill(-2, 500);
    s.calculate_progress(false, SkillType::Minor);
    assert_eq!(s.progress_requirement, -1000);
    assert_eq!(s.progress_percent, Some(-500));
}

#[test]
fn progress_at_the_limits_of_the_level() {
    let mut s = skill(i32::MAX, i32::MAX);
    s.calculate_progress(false, SkillType::Misc);
    assert_eq!(s.progress_requirement, 2684354560000);
    assert_eq!(s.progress_percent, Some(0));
    let mut s = skill(i32::MIN, i32::MIN);
    s.calculate_progress(true, SkillType::Major);
    assert_eq!(s.progress_requirement, -1288490188200);
    assert_eq!(s.progress_percent, Some(1));
}

#[test]
fn skill_type_of_a_player() {
    let mut p = Player::default();
    assert_eq!(p.get_skill_type(0), SkillType::Misc);
    p.major_skills = ids(&[0, 5]);
    p.minor_skills = ids(&[9, 10, 18, 19, 20]);
    assert_eq!(p.get_skill_type(0), SkillType::Major);
    assert_eq!(p.get_skill_type(5), SkillType::Major);
    assert_eq!(p.get_skill_type(9), SkillType::Minor);
    assert_eq!(p.get_skill_type(20), SkillType::Minor);
    assert_eq!(p.get_skill_type(1), SkillType::Misc);
    assert_eq!(p.get_skill_type(26), SkillType::Misc);
    p.minor_skills = ids(&[0]);
    assert_eq!(p.get_skill_type(0), SkillType::Major);
}

#[test]
fn update_takes_over_the_sample() {
    let mut p = Player::default();
    p.id = 7;
    p.name = "Fargoth".to_string();
    p.logged_in = true;
    p.update(&sample_at("Balmora", 3000, 4000, 0));
    assert_eq!(p.id, 7);
    assert_eq!(p.name, "Fargoth");
    assert!(p.logged_in);
    assert_eq!(p.rotation, Vec3::new(100, 0, -200));
    assert!(p.is_outside);
    assert_eq!(p.cell, "Balmora");
    assert_eq!(p.position, Vec3::new(3000, 4000, 0));
    assert_eq!(p.health_base, 50_000);
    assert_eq!(p.health, 45_500);
    assert_eq!(p.fatigue_base, 200_000);
    assert_eq!(p.fatigue, 150_250);
    assert_eq!(p.magicka_base, 80_000);
    assert_eq!(p.magicka, 12_000);
    assert_eq!(p.level, 3);
    assert_eq!(p.level_progress, 7);
}

#[test]
fn distance_accumulates_within_a_cell() {
    let mut p = Player::default();
    p.update(&sample_at("Balmora", 3000, 4000, 0));
    assert_eq!(p.distance_travelled, 0);
    p.update(&sample_at("Balmora", 6000, 8000, 0));
    assert_eq!(p.distance_travelled, 5000);
    p.update(&sample_at("Balmora", 6000, 8000, 1500));
    assert_eq!(p.distance_travelled, 6500);
    p.update(&sample_at("Balmora", 6000, 8000, 1500));
    assert_eq!(p.distance_travelled, 6500);
}

#[test]
fn a_cell_change_adds_no_distance() {
    let mut p = Player::default();
    p.update(&sample_at("Balmora", 0, 0, 0));
    p.update(&sample_at("Balmora", 3000, 4000, 0));
    assert_eq!(p.distance_travelled, 5000);
    p.update(&sample_at("Vivec", 900_000, 900_000, 0));
    assert_eq!(p.distance_travelled, 5000);
    assert_eq!(p.cell, "Vivec");
    assert_eq!(p.position, Vec3::new(900_000, 900_000, 0));
    p.update(&sample_at("Vivec", 900_000, 900_000, 2000));
    assert_eq!(p.distance_travelled, 7000);
}

#[test]
fn the_first_step_counts_in_the_cell_without_a_name() {
    let mut p = Player::default();
    p.update(&sample_at("", 1000, 0, 0));
    assert_eq!(p.distance_travelled, 1000);
}

#[test]
fn distance_stops_at_the_largest_value() {
    let mut p = Player::default();
    p.cell = "Balmora".to_string();
    p.distance_travelled = u64::MAX - 10;
    p.update(&sample_at("Balmora", 3000, 4000, 0));
    assert_eq!(p.distance_travelled, u64::MAX);
    p.distance_travelled = u64::MAX - 5000;
    p.update(&sample_at("Balmora", 0, 0, 0));
    assert_eq!(p.distance_travelled, u64::MAX);
    p.distance_travelled = u64::MAX - 5001;
    p.update(&sample_at("Balmora", 3000, 4000, 0));
    assert_eq!(p.distance_travelled, u64::MAX - 1);
}

#[test]
fn update_once_takes_over_the_character() {
    let mut p = Player::default();
    p.id = 7;
    p.update_once(&identity());
    assert_eq!(p.id, 7);
    assert_eq!(p.name, "Fargoth");
    assert_eq!(p.race, "Wood Elf");
    assert_eq!(p.head, "b_n_wood elf_m_head_01");
    assert_eq!(p.hair, "b_n_wood elf_m_hair_01");
    assert_eq!(p.major_skills, ids(&[0, 5]));
    assert_eq!(p.minor_skills, ids(&[9, 10, 18, 19, 20]));
    assert_eq!(p.specialisation, Specialization::Combat);
    assert!(!p.logged_in);
    match &p.class {
        PlayerClass::Default { name } => assert_eq!(name, "Warrior"),
        _ => panic!("a predefined class was expected"),
    }
}

#[test]
fn update_once_keeps_each_skill_id_once() {
    let mut sample = identity();
    sample.major_skills = [4, 4];
    sample.minor_skills = [1, 2, 1, 2, 3];
    let mut p = Player::default();
    p.update_once(&sample);
    assert_eq!(p.major_skills, ids(&[4]));
    assert_eq!(p.minor_skills, ids(&[1, 2, 3]));
}

#[test]
fn update_once_with_a_custom_class() {
    let mut sample = identity();
    sample.default_class = String::new();
    sample.class_name = "Nightblade of Seyda Neen".to_string();
    sample.class_description = "Steals and stabs.".to_string();
    sample.class_specialization = 2;
    let mut p = Player::default();
    p.update_once(&sample);
    assert_eq!(p.specialisation, Specialization::Stealth);
    match &p.class {
        PlayerClass::Custom { name, description } => {
            assert_eq!(name, "Nightblade of Seyda Neen");
            assert_eq!(description, "Steals and stabs.");
        },
        _ => panic!("a custom class was expected"),
    }
}

#[test]
fn update_once_replaces_the_skill_sets() {
    let mut p = Player::default();
    p.update_once(&identity());
    let mut second = identity();
    second.major_skills = [1, 2];
    second.minor_skills = [3, 4, 5, 6, 7];
    p.update_once(&second);
    assert_eq!(p.major_skills, ids(&[1, 2]));
    assert_eq!(p.minor_skills, ids(&[3, 4, 5, 6, 7]));
}

#[test]
fn low_frequency_update_reads_the_lists() {
    let mut p = Player::default();
    p.update_once(&identity());
    let observations = p.low_frequency_update(&details());
    assert!(observations.is_empty());

    assert_eq!(p.attributes.len(), 2);
    assert_eq!(p.attributes[0].id, 0);
    assert_eq!(p.attributes[0].name, "Strength");
    assert_eq!(p.attributes[0].base, 50);
    assert_eq!(p.attributes[1].id, 1);
    assert_eq!(p.attributes[1].name, "Intelligence");
    assert_eq!(p.attributes[1].base, 40);

    assert_eq!(p.skills.len(), 2);
    // Block: major, and combat is the class's specialization.
    assert_eq!(p.skills[0].id, 0);
    assert_eq!(p.skills[0].name, "Block");
    assert_eq!(p.skills[0].skill_type, SkillType::Major);
    assert_eq!(p.skills[0].progress_requirement, 600);
    assert_eq!(p.skills[0].progress_percent, Some(500));
    // Armorer: neither major nor minor, combat again.
    assert_eq!(p.skills[1].id, 1);
    assert_eq!(p.skills[1].skill_type, SkillType::Misc);
    assert_eq!(p.skills[1].progress_requirement, 10000);
    assert_eq!(p.skills[1].progress_percent, Some(500));
}

#[test]
fn low_frequency_update_without_a_class() {
    let mut p = Player::default();
    let _ = p.low_frequency_update(&details());
    // No specialization and no major or minor skills are known: every
    // skill is treated as the rest are, and none is favoured.
    assert_eq!(p.skills[0].skill_type, SkillType::Misc);
    assert_eq!(p.skills[0].progress_requirement, 1250);
    assert_eq!(p.skills[0].progress_percent, Some(240));
    assert_eq!(p.skills[1].progress_requirement, 12500);
    assert_eq!(p.skills[1].progress_percent, Some(400));
}

#[test]
fn low_frequency_update_replaces_the_lists() {
    let mut p = Player::default();
    let _ = p.low_frequency_update(&details());
    let shorter = DetailSample {
        attributes: vec![attribute_sample("Luck", 1)],
        skills: vec![],
    };
    let _ = p.low_frequency_update(&shorter);
    assert_eq!(p.attributes.len(), 1);
    assert_eq!(p.attributes[0].name, "Luck");
    assert_eq!(p.attributes[0].id, 0);
    assert!(p.skills.is_empty());
}

#[test]
fn lists_hold_no_more_entries_than_there_are_ids() {
    let mut attributes = Vec::new();
    let mut i = 0;
    while i < 65_540 {
        attributes.push(attribute_sample("x", i));
        i += 1;
    }
    let long = DetailSample { attributes, skills: vec![skill_sample("Block", 0, 0)] };
    let mut p = Player::default();
    let _ = p.low_frequency_update(&long);
    assert_eq!(p.attributes.len(), 65_535);
    assert_eq!(p.attributes[65_534].id, 65_534);
    assert_eq!(p.attributes[65_534].base, 65_534);
    assert_eq!(p.skills.len(), 1);
}

fn check(o: &Observation, metric: Metric, item: Option<(&str, u16)>, value: MetricValue) {
    assert_eq!(o.metric, metric);
    assert_eq!(o.player, "Fargoth");
    match (&o.item, item) {
        (Some(label), Some((name, id))) => {
            assert_eq!(label.name, name);
            assert_eq!(label.id, id);
        },
        (None, None) => {},
        _ => panic!("the observation is about the wrong item"),
    }
    assert_eq!(o.value, value);
}

#[test]
fn report_stats_lists_every_statistic_in_order() {
    let mut p = Player::default();
    p.update_once(&identity());
    p.cell = "Balmora".to_string();
    p.update(&sample_at("Balmora", 3000, 4000, 0));
    let _ = p.low_frequency_update(&details());
    let o = p.report_stats();
    assert_eq!(o.len(), 15);
    check(&o[0], Metric::SkillLevel, Some(("Block", 0)), MetricValue::Int(0));
    check(&o[1], Metric::SkillProgress, Some(("Block", 0)), MetricValue::Real(500));
    check(&o[2], Metric::SkillLevel, Some(("Armorer", 1)), MetricValue::Int(9));
    check(&o[3], Metric::SkillProgress, Some(("Armorer", 1)), MetricValue::Real(500));
    check(&o[4], Metric::AttributeLevel, Some(("Strength", 0)), MetricValue::Int(50));
    check(&o[5], Metric::AttributeLevel, Some(("Intelligence", 1)), MetricValue::Int(40));
    check(&o[6], Metric::Level, None, MetricValue::Int(3));
    check(&o[7], Metric::LevelProgress, None, MetricValue::Int(7));
    check(&o[8], Metric::MagickaBase, None, MetricValue::Real(80_000));
    check(&o[9], Metric::Magicka, None, MetricValue::Real(12_000));
    check(&o[10], Metric::HealthBase, None, MetricValue::Real(50_000));
    check(&o[11], Metric::Health, None, MetricValue::Real(45_500));
    check(&o[12], Metric::FatigueBase, None, MetricValue::Real(200_000));
    check(&o[13], Metric::Fatigue, None, MetricValue::Real(150_250));
    check(&o[14], Metric::DistanceTraveled, None, MetricValue::Real(5000));
    assert_eq!(p.distance_travelled, 0);
    assert_eq!(p.cell, "Balmora");
    assert_eq!(p.skills.len(), 2);
}

#[test]
fn report_stats_of_a_skill_without_a_requirement() {
    let mut p = Player::default();
    p.name = "Fargoth".to_string();
    let d = DetailSample { attributes: vec![], skills: vec![skill_sample("Block", -1, 300)] };
    let _ = p.low_frequency_update(&d);
    let o = p.report_stats();
    assert_eq!(o.len(), 11);
    check(&o[0], Metric::SkillLevel, Some(("Block", 0)), MetricValue::Int(-1));
    check(&o[1], Metric::SkillProgress, Some(("Block", 0)), MetricValue::Undefined);
}

#[test]
fn report_stats_of_the_largest_distance() {
    let mut p = Player::default();
    p.name = "Fargoth".to_string();
    p.distance_travelled = u64::MAX;
    let o = p.report_stats();
    assert_eq!(o.len(), 9);
    check(&o[8], Metric::DistanceTraveled, None, MetricValue::Real(u64::MAX as i128));
    assert_eq!(p.distance_travelled, 0);
}

#[test]
fn the_distance_is_reset_by_the_low_frequency_update_after_login() {
    let mut p = Player::default();
    p.name = "Fargoth".to_string();
    p.cell = "Balmora".to_string();
    p.logged_in = true;
    p.update(&sample_at("Balmora", 3000, 4000, 0));
    assert_eq!(p.distance_travelled, 5000);
    let o = p.low_frequency_update(&details());
    assert_eq!(o.len(), 15);
    check(&o[14], Metric::DistanceTraveled, None, MetricValue::Real(5000));
    assert_eq!(p.distance_travelled, 0);
    p.update(&sample_at("Balmora", 3000, 4000, 700));
    assert_eq!(p.distance_travelled, 700);
}

#[test]
fn the_distance_is_kept_by_the_low_frequency_update_before_login() {
    let mut p = Player::default();
    p.cell = "Balmora".to_string();
    p.update(&sample_at("Balmora", 3000, 4000, 0));
    let o = p.low_frequency_update(&details());
    assert!(o.is_empty());
    assert_eq!(p.distance_travelled, 5000);
}

#[test]
fn on_login_reads_the_character_and_the_lists() {
    let mut p = Player::default();
    p.id = 7;
    p.logged_in = true;
    let o = p.on_login(&identity(), &details());
    assert_eq!(p.name, "Fargoth");
    assert_eq!(p.major_skills, ids(&[0, 5]));
    assert_eq!(p.skills.len(), 2);
    assert_eq!(p.skills[0].skill_type, SkillType::Major);
    assert_eq!(o.len(), 15);
    check(&o[0], Metric::SkillLevel, Some(("Block", 0)), MetricValue::Int(0));
    check(&o[6], Metric::Level, None, MetricValue::Int(0));
}

#[test]
fn on_login_reports_nothing_for_a_record_that_is_not_marked() {
    let mut p = Player::default();
    let o = p.on_login(&identity(), &details());
    assert!(o.is_empty());
    assert_eq!(p.name, "Fargoth");
    assert_eq!(p.skills.len(), 2);
}

#[test]
fn a_new_player_is_refreshed_at_once() {
    let p = Player::new(7, &sample_at("Balmora", 3000, 4000, 0), &identity(), &details());
    assert_eq!(p.id, 7);
    assert!(!p.logged_in);
    assert_eq!(p.cell, "Balmora");
    assert_eq!(p.position, Vec3::new(3000, 4000, 0));
    assert_eq!(p.rotation, Vec3::new(100, 0, -200));
    assert_eq!(p.distance_travelled, 0);
    assert_eq!(p.health, 45_500);
    assert_eq!(p.level, 3);
    // The character is read at once.
    assert_eq!(p.name, "Fargoth");
    assert_eq!(p.race, "Wood Elf");
    assert_eq!(p.head, "b_n_wood elf_m_head_01");
    assert_eq!(p.hair, "b_n_wood elf_m_hair_01");
    assert_eq!(p.major_skills, ids(&[0, 5]));
    assert_eq!(p.minor_skills, ids(&[9, 10, 18, 19, 20]));
    assert_eq!(p.specialisation, Specialization::Combat);
    match &p.class {
        PlayerClass::Default { name } => assert_eq!(name, "Warrior"),
        _ => panic!("a predefined class was expected"),
    }
    // And the lists are computed for that character.
    assert_eq!(p.attributes.len(), 2);
    assert_eq!(p.attributes[0].name, "Strength");
    assert_eq!(p.skills.len(), 2);
    assert_eq!(p.skills[0].skill_type, SkillType::Major);
    assert_eq!(p.skills[0].progress_requirement, 600);
    assert_eq!(p.skills[0].progress_percent, Some(500));
    assert_eq!(p.skills[1].skill_type, SkillType::Misc);
    assert_eq!(p.skills[1].progress_requirement, 10000);
}

#[test]
fn a_new_player_with_a_custom_class() {
    let mut sample = identity();
    sample.default_class = String::new();
    sample.class_name = "Pilgrim of the Ashlands".to_string();
    sample.class_description = "Walks.".to_string();
    sample.class_specialization = 1;
    let p = Player::new(9, &sample_at("", 1000, 0, 0), &sample, &details());
    assert_eq!(p.id, 9);
    assert_eq!(p.specialisation, Specialization::Magic);
    assert_eq!(p.distance_travelled, 1000);
    match &p.class {
        PlayerClass::Custom { name, description } => {
            assert_eq!(name, "Pilgrim of the Ashlands");
            assert_eq!(description, "Walks.");
        },
        _ => panic!("a custom class was expected"),
    }
    // Block is major, but magic is the specialization.
    assert_eq!(p.skills[0].skill_type, SkillType::Major);
    assert_eq!(p.skills[0].progress_requirement, 750);
    assert_eq!(p.skills[0].progress_percent, Some(400));
}

#[test]
fn defaults_of_the_list_entries() {
    let a = AttributeValue::default();
    assert_eq!(a.id, 0);
    assert_eq!(a.name, "");
    assert_eq!(a.damage, 0);
    assert_eq!(a.modifier, 0);
    assert_eq!(a.base, 0);
    let s = SkillValue::default();
    assert_eq!(s.id, 0);
    assert_eq!(s.name, "");
    assert_eq!(s.progress, 0);
    assert_eq!(s.base, 0);
    assert_eq!(s.increase, 0);
    assert_eq!(s.modifier, 0);
    assert_eq!(s.damage, 0);
    assert_eq!(s.progress_requirement, 0);
    assert_eq!(s.progress_percent, Some(0));
    assert_eq!(s.skill_type, SkillType::Misc);
}

#[test]
fn the_order_of_skill_types_and_specializations() {
    assert!(SkillType::Major < SkillType::Minor);
    assert!(SkillType::Minor < SkillType::Misc);
    assert!(Specialization::Combat < Specialization::Magic);
    assert!(Specialization::Magic < Specialization::Stealth);
    assert!(Specialization::Stealth < Specialization::Unspecified);
    assert_eq!(SkillType::Major.max(SkillType::Misc), SkillType::Misc);
    assert!(Vec3::new(0, 5, 5) < Vec3::new(1, 0, 0));
    assert!(Vec3::new(1, 0, 1) > Vec3::new(1, 0, 0));
}

#[test]
fn player_position_of_a_record() {
    let mut p = Player::new(7, &sample_at("Balmora", 3000, 4000, 50), &identity(), &details());
    p.name = "Fargoth".to_string();
    let pos = p.get_player_position();
    assert_eq!(pos.name, "Fargoth");
    assert_eq!(pos.position, (3000, 4000));
    assert_eq!(pos.rotation, -200);
    assert_eq!(pos.cell, "Balmora");
    assert!(pos.is_outside);
}

#[test]
fn a_clone_holds_what_the_record_holds() {
    let mut p = Player::new(7, &sample_at("Balmora", 3000, 4000, 50), &identity(), &details());
    p.logged_in = true;
    p.update_once(&identity());
    p.distance_travelled = 42;
    let c = p.clone();
    assert_eq!(c.id, 7);
    assert_eq!(c.name, "Fargoth");
    assert_eq!(c.head, p.head);
    assert_eq!(c.hair, p.hair);
    assert_eq!(c.race, "Wood Elf");
    assert!(c.logged_in);
    assert_eq!(c.distance_travelled, 42);
    assert_eq!(c.cell, "Balmora");
    assert_eq!(c.position, p.position);
    assert_eq!(c.rotation, p.rotation);
    assert_eq!(c.health, p.health);
    assert_eq!(c.level_progress, p.level_progress);
    assert_eq!(c.attributes.len(), 2);
    assert_eq!(c.attributes[1].name, "Intelligence");
    assert_eq!(c.skills.len(), 2);
    assert_eq!(c.skills[1].name, "Armorer");
    assert_eq!(c.skills[1].progress_percent, p.skills[1].progress_percent);
    assert_eq!(c.major_skills, ids(&[0, 5]));
    assert_eq!(c.minor_skills, ids(&[9, 10, 18, 19, 20]));
    assert_eq!(c.specialisation, Specialization::Combat);
    assert!(matches!(c.class, PlayerClass::Default { .. }));
}
