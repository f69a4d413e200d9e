//! The metrics that are reported about a player.

use vstd::prelude::*;
use vstd::string::StringExecFns;

verus! {

/// The metric families of the player model.
#[derive(Clone, Copy, Debug, PartialEq, Eq, Structural)]
pub enum Metric {
    SkillLevel,
    SkillProgress,
    AttributeLevel,
    Level,
    LevelProgress,
    MagickaBase,
    Magicka,
    HealthBase,
    Health,
    FatigueBase,
    Fatigue,
    DistanceTraveled,
}

/// How the values of a metric family are recorded.
#[derive(Clone, Copy, Debug, PartialEq, Eq, Structural)]
pub enum MetricKind {
    /// The last whole number that was set.
    IntGauge,
    /// The last real number that was set.
    Gauge,
    /// The distribution of the real numbers that were observed.
    Histogram,
}

/// The labels that select a series of a metric family.
#[derive(Clone, Copy, Debug, PartialEq, Eq, Structural)]
pub enum MetricLabels {
    /// Player, skill and skill id.
    Skill,
    /// Player, attribute and attribute id.
    Attribute,
    /// The player alone.
    Player,
}

impl Metric {
    /// Every metric family, each once.
    pub fn all() -> (all: Vec<Metric>)
        ensures
            all@.no_duplicates(),
            forall|metric: Metric| all@.contains(metric),
    {
        let all = vec![
            Metric::SkillLevel,
            Metric::SkillProgress,
            Metric::AttributeLevel,
            Metric::Level,
            Metric::LevelProgress,
            Metric::MagickaBase,
            Metric::Magicka,
            Metric::HealthBase,
            Metric::Health,
            Metric::FatigueBase,
            Metric::Fatigue,
            Metric::DistanceTraveled,
        ];
        all
    }

    pub open spec fn spec_name(self) -> Seq<char> {
        match self {
            Metric::SkillLevel => "openmw_player_skill_level"@,
            Metric::SkillProgress => "openmw_player_skill_progress"@,
            Metric::AttributeLevel => "openmw_player_attr_level"@,
            Metric::Level => "openmw_player_level"@,
            Metric::LevelProgress => "openmw_player_level_progress"@,
            Metric::MagickaBase => "openmw_player_magicka_base"@,
            Metric::Magicka => "openmw_player_magicka"@,
            Metric::HealthBase => "openmw_player_health_base"@,
            Metric::Health => "openmw_player_health"@,
            Metric::FatigueBase => "openmw_player_fatigue_base"@,
            Metric::Fatigue => "openmw_player_fatigue"@,
            Metric::DistanceTraveled => "openmw_player_distance_traveled"@,
        }
    }

    /// The name under which the family is exported.
    pub fn name(&self) -> (name: &'static str)
        ensures
            name@ == self.spec_name(),
    {
        match self {
            Metric::SkillLevel => "openmw_player_skill_level",
            Metric::SkillProgress => "openmw_player_skill_progress",
            Metric::AttributeLevel => "openmw_player_attr_level",
            Metric::Level => "openmw_player_level",
            Metric::LevelProgress => "openmw_player_level_progress",
            Metric::MagickaBase => "openmw_player_magicka_base",
            Metric::Magicka => "openmw_player_magicka",
            Metric::HealthBase => "openmw_player_health_base",
            Metric::Health => "openmw_player_health",
            Metric::FatigueBase => "openmw_player_fatigue_base",
            Metric::Fatigue => "openmw_player_fatigue",
            Metric::DistanceTraveled => "openmw_player_distance_traveled",
        }
    }

    pub open spec fn spec_help(self) -> Seq<char> {
        match self {
            Metric::SkillLevel => "The skill levels of players"@,
            Metric::SkillProgress => "The skill progress of players"@,
            Metric::AttributeLevel => "The attribute levels of players"@,
            Metric::Level => "The level of players"@,
            Metric::LevelProgress => "The level progress of players"@,
            Metric::MagickaBase => "The base magicka of players"@,
            Metric::Magicka => "The current magicka of players"@,
            Metric::HealthBase => "The base health of players"@,
            Metric::Health => "The current health of players"@,
            Metric::FatigueBase => "The base fatigue of players"@,
            Metric::Fatigue => "The current fatigue of players"@,
            Metric::DistanceTraveled => "The amount of distance a player has travelled"@,
        }
    }

    /// The description with which the family is exported.
    pub fn help(&self) -> (help: &'static str)
        ensures
            help@ == self.spec_help(),
    {
        match self {
            Metric::SkillLevel => "The skill levels of players",
            Metric::SkillProgress => "The skill progress of players",
            Metric::AttributeLevel => "The attribute levels of players",
            Metric::Level => "The level of players",
            Metric::LevelProgress => "The level progress of players",
            Metric::MagickaBase => "The base magicka of players",
            Metric::Magicka => "The current magicka of players",
            Metric::HealthBase => "The base health of players",
            Metric::Health => "The current health of players",
            Metric::FatigueBase => "The base fatigue of players",
            Metric::Fatigue => "The current fatigue of players",
            Metric::DistanceTraveled => "The amount of distance a player has travelled",
        }
    }

    pub open spec fn spec_kind(self) -> MetricKind {
        match self {
            Metric::SkillLevel | Metric::AttributeLevel | Metric::Level | Metric::LevelProgress => MetricKind::IntGauge,
            Metric::DistanceTraveled => MetricKind::Histogram,
            _ => MetricKind::Gauge,
        }
    }

    /// How the values of the family are recorded: levels are whole
    /// numbers, the distance is a distribution, the rest are real numbers.
    pub fn kind(&self) -> (kind: MetricKind)
        ensures
            kind == self.spec_kind(),
    {
        match self {
            Metric::SkillLevel | Metric::AttributeLevel | Metric::Level | Metric::LevelProgress => MetricKind::IntGauge,
            Metric::DistanceTraveled => MetricKind::Histogram,
            _ => MetricKind::Gauge,
        }
    }

    pub open spec fn spec_labels(self) -> MetricLabels {
        match self {
            Metric::SkillLevel | Metric::SkillProgress => MetricLabels::Skill,
            Metric::AttributeLevel => MetricLabels::Attribute,
            _ => MetricLabels::Player,
        }
    }

    /// The labels that select a series of the family.
    pub fn labels(&self) -> (labels: MetricLabels)
        ensures
            labels == self.spec_labels(),
    {
        match self {
            Metric::SkillLevel | Metric::SkillProgress => MetricLabels::Skill,
            Metric::AttributeLevel => MetricLabels::Attribute,
            _ => MetricLabels::Player,
        }
    }
}

/// The views of a list of strings, in order.
pub open spec fn name_views(names: Seq<&'static str>) -> Seq<Seq<char>> {
    names.map_values(|name: &'static str| name@)
}

/// The views of a list of strings, in order.
pub open spec fn string_views(strings: Seq<String>) -> Seq<Seq<char>> {
    strings.map_values(|s: String| s@)
}

impl MetricLabels {
    pub open spec fn spec_names(self) -> Seq<Seq<char>> {
        match self {
            MetricLabels::Skill => seq!["player"@, "skill"@, "skill_id"@],
            MetricLabels::Attribute => seq!["player"@, "attribute"@, "attribute_id"@],
            MetricLabels::Player => seq!["player"@],
        }
    }

    /// The names of the labels, in the order in which their values are
    /// given.
    pub fn names(&self) -> (names: Vec<&'static str>)
        ensures
            name_views(names@) == self.spec_names(),
    {
        let mut names: Vec<&'static str> = Vec::new();
        names.push("player");
        match self {
            MetricLabels::Skill => {
                names.push("skill");
                names.push("skill_id");
            },
            MetricLabels::Attribute => {
                names.push("attribute");
                names.push("attribute_id");
            },
            MetricLabels::Player => {},
        }
        names
    }
}

/// The decimal digit for `d`.
pub open spec fn digit(d: nat) -> char {
    if d == 0 {
        '0'
    } else if d == 1 {
        '1'
    } else if d == 2 {
        '2'
    } else if d == 3 {
        '3'
    } else if d == 4 {
        '4'
    } else if d == 5 {
        '5'
    } else if d == 6 {
        '6'
    } else if d == 7 {
        '7'
    } else if d == 8 {
        '8'
    } else {
        '9'
    }
}

/// The decimal numeral for `n`, without leading zeros.
pub open spec fn decimal(n: nat) -> Seq<char>
    decreases n,
{
    if n < 10 {
        seq![digit(n)]
    } else {
        decimal(n / 10).push(digit(n % 10))
    }
}

fn digit_str(d: u16) -> (s: &'static str)
    requires
        d < 10,
    ensures
        s@ == seq![digit(d as nat)],
{
    proof {
        reveal_strlit("0");
        reveal_strlit("1");
        reveal_strlit("2");
        reveal_strlit("3");
        reveal_strlit("4");
        reveal_strlit("5");
        reveal_strlit("6");
        reveal_strlit("7");
        reveal_strlit("8");
        reveal_strlit("9");
    }
    let s = match d {
        0 => "0",
        1 => "1",
        2 => "2",
        3 => "3",
        4 => "4",
        5 => "5",
        6 => "6",
        7 => "7",
        8 => "8",
        _ => "9",
    };
    s
}

/// The decimal numeral for an id, as it stands in a label.
pub fn decimal_string(n: u16) -> (s: String)
    ensures
        s@ == decimal(n as nat),
    decreases n,
{
    if n < 10 {
        String::from_str(digit_str(n))
    } else {
        let mut s = decimal_string(n / 10);
        s.append(digit_str(n % 10));
        s
    }
}

/// The value of one observation.
#[derive(Clone, Copy, Debug, PartialEq, Eq, Structural)]
pub enum MetricValue {
    /// A whole number.
    Int(i64),
    /// A real number, in thousandths.
    Real(i128),
    /// A quotient whose divisor was zero.
    Undefined,
}

/// The skill or attribute that an observation is about.
#[derive(Debug)]
pub struct ItemLabel {
    pub name: String,
    pub id: u16,
}

pub struct ItemLabelView {
    pub name: Seq<char>,
    pub id: u16,
}

impl View for ItemLabel {
    type V = ItemLabelView;

    open spec fn view(&self) -> ItemLabelView {
        ItemLabelView { name: self.name@, id: self.id }
    }
}

/// One value to record: the metric family, the labels that select the
/// series, and the value.
#[derive(Debug)]
pub struct Observation {
    pub metric: Metric,
    pub player: String,
    pub item: Option<ItemLabel>,
    pub value: MetricValue,
}

pub struct ObservationView {
    pub metric: Metric,
    pub player: Seq<char>,
    pub item: Option<ItemLabelView>,
    pub value: MetricValue,
}

impl View for Observation {
    type V = ObservationView;

    open spec fn view(&self) -> ObservationView {
        ObservationView {
            metric: self.metric,
            player: self.player@,
            item: match self.item {
                Some(item) => Some(item@),
                None => None,
            },
            value: self.value,
        }
    }
}

/// The views of a list of observations, in order.
pub open spec fn observation_views(s: Seq<Observation>) -> Seq<ObservationView> {
    s.map_values(|o: Observation| o@)
}

impl ObservationView {
    /// The values of the labels, in the order of the names of the labels:
    /// the player's name, then name and id of the skill or attribute
    /// where the observation is about one.
    pub open spec fn label_values(self) -> Seq<Seq<char>> {
        match self.item {
            Some(item) => seq![self.player, item.name, decimal(item.id as nat)],
            None => seq![self.player],
        }
    }
}

impl Observation {
    /// The values of the labels, in the order of the names of the labels.
    pub fn label_values(&self) -> (values: Vec<String>)
        ensures
            string_views(values@) == self@.label_values(),
    {
        let mut values: Vec<String> = Vec::new();
        values.push(self.player.clone());
        match &self.item {
            Some(item) => {
                values.push(item.name.clone());
                values.push(decimal_string(item.id));
            },
            None => {},
        }
        values
    }
}

} // verus!
