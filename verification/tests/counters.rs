use nwahttp::server_info::counters::{
    decimal_string, ItemLabel, Metric, MetricKind, MetricLabels, MetricValue, Observation,
};

fn all_metrics() -> Vec<Metric> {
    vec![
        Metric::SkillLevel,
        Metric::SkillProgress,
        Metric::AttributeLevel,
        Metric::Level,
        Metric::LevelProgress,
        Metric::MagickaBase,
        Metric::Magicka,
        Metric::HealthBase,
        Metric::Health,
        Metric::FatigueBase,
        Metric::Fatigue,
        Metric::DistanceTraveled,
    ]
}

#[test]
fn the_list_of_all_metrics() {
    assert_eq!(Metric::all(), all_metrics());
}

#[test]
fn metric_names() {
    let names: Vec<&str> = all_metrics().iter().map(|m| m.name()).collect();
    assert_eq!(
        names,
        vec![
            "openmw_player_skill_level",
            "openmw_player_skill_progress",
            "openmw_player_attr_level",
            "openmw_player_level",
            "openmw_player_level_progress",
            "openmw_player_magicka_base",
            "openmw_player_magicka",
            "openmw_player_health_base",
            "openmw_player_health",
            "openmw_player_fatigue_base",
            "openmw_player_fatigue",
            "openmw_player_distance_traveled",
        ]
    );
}

#[test]
fn metric_descriptions() {
    let help: Vec<&str> = all_metrics().iter().map(|m| m.help()).collect();
    assert_eq!(
        help,
        vec![
            "The skill levels of players",
            "The skill progress of players",
            "The attribute levels of players",
            "The level of players",
            "The level progress of players",
            "The base magicka of players",
            "The current magicka of players",
            "The base health of players",
            "The current health of players",
            "The base fatigue of players",
            "The current fatigue of players",
            "The amount of distance a player has travelled",
        ]
    );
}

#[test]
fn metric_kinds() {
    let kinds: Vec<MetricKind> = all_metrics().iter().map(|m| m.kind()).collect();
    assert_eq!(
        kinds,
        vec![
            MetricKind::IntGauge,
            MetricKind::Gauge,
            MetricKind::IntGauge,
            MetricKind::IntGauge,
            MetricKind::IntGauge,
            MetricKind::Gauge,
            MetricKind::Gauge,
            MetricKind::Gauge,
            MetricKind::Gauge,
            MetricKind::Gauge,
            MetricKind::Gauge,
            MetricKind::Histogram,
        ]
    );
}

#[test]
fn metric_labels() {
    assert_eq!(Metric::SkillLevel.labels(), MetricLabels::Skill);
    assert_eq!(Metric::SkillProgress.labels(), MetricLabels::Skill);
    assert_eq!(Metric::AttributeLevel.labels(), MetricLabels::Attribute);
    assert_eq!(Metric::Level.labels(), MetricLabels::Player);
    assert_eq!(Metric::Health.labels(), MetricLabels::Player);
    assert_eq!(Metric::DistanceTraveled.labels(), MetricLabels::Player);
    assert_eq!(MetricLabels::Skill.names(), vec!["player", "skill", "skill_id"]);
    assert_eq!(MetricLabels::Attribute.names(), vec!["player", "attribute", "attribute_id"]);
    assert_eq!(MetricLabels::Player.names(), vec!["player"]);
}

#[test]
fn decimal_numerals() {
    assert_eq!(decimal_string(0), "0");
    assert_eq!(decimal_string(7), "7");
    assert_eq!(decimal_string(9), "9");
    assert_eq!(decimal_string(10), "10");
    assert_eq!(decimal_string(26), "26");
    assert_eq!(decimal_string(100), "100");
    assert_eq!(decimal_string(1090), "1090");
    assert_eq!(decimal_string(65535), "65535");
}

#[test]
fn decimal_numerals_are_those_of_the_standard_library() {
    let mut n: u16 = 0;
    loop {
        assert_eq!(decimal_string(n), n.to_string());
        if n == u16::MAX {
            break;
        }
        n += 1;
    }
}

#[test]
fn label_values_of_an_observation() {
    let of_skill = Observation {
        metric: Metric::SkillLevel,
        player: "Fargoth".to_string(),
        item: Some(ItemLabel { name: "Block".to_string(), id: 12 }),
        value: MetricValue::Int(5),
    };
    assert_eq!(of_skill.label_values(), vec!["Fargoth", "Block", "12"]);
    assert_eq!(of_skill.label_values().len(), of_skill.metric.labels().names().len());
    let of_player = Observation {
        metric: Metric::Level,
        player: "Fargoth".to_string(),
        item: None,
        value: MetricValue::Int(5),
    };
    assert_eq!(of_player.label_values(), vec!["Fargoth"]);
    assert_eq!(of_player.label_values().len(), of_player.metric.labels().names().len());
}
