//! The record kept for each connected player and the values derived from it.

use crate::server_info::counters::{ItemLabel, Metric, MetricValue, Observation, ObservationView, ItemLabelView, observation_views};
use crate::server_info::events::PlayerPosition;
use crate::server_info::fixed::{div_toward_zero, floor_sqrt, floor_sqrt_of, quotient_toward_zero};
use crate::server_info::samples::{AttributeSample, DetailSample, IdentitySample, PlayerSample, SkillSample};
use std::collections::HashSet;
use vstd::prelude::*;

verus! {

/// A point or a triple of angles, each component in thousandths.
#[derive(Copy, Clone, Debug, PartialEq, Eq, PartialOrd, Ord, Structural)]
pub struct Vec3 {
    pub x: i32,
    pub y: i32,
    pub z: i32,
}

impl Vec3 {
    /// Sum of the squared differences of the components.
    pub open spec fn squared_distance(self, rhs: Vec3) -> nat {
        ((self.x - rhs.x) * (self.x - rhs.x) + (self.y - rhs.y) * (self.y - rhs.y) + (self.z
            - rhs.z) * (self.z - rhs.z)) as nat
    }

    /// Straight-line distance to `rhs`, rounded down to a whole thousandth.
    pub open spec fn spec_distance(self, rhs: Vec3) -> nat {
        floor_sqrt_of(self.squared_distance(rhs))
    }

    /// Straight-line distance to `rhs`, rounded down to a whole thousandth.
    pub fn distance(&self, rhs: Vec3) -> (d: u64)
        ensures
            d == self.spec_distance(rhs),
    {
        let x: i128 = self.x as i128 - rhs.x as i128;
        let y: i128 = self.y as i128 - rhs.y as i128;
        let z: i128 = self.z as i128 - rhs.z as i128;
        assert(0 <= x * x <= 0x1_0000_0000 * 0x1_0000_0000) by (nonlinear_arith)
            requires
                -0x1_0000_0000 <= x <= 0x1_0000_0000,
        ;
        assert(0 <= y * y <= 0x1_0000_0000 * 0x1_0000_0000) by (nonlinear_arith)
            requires
                -0x1_0000_0000 <= y <= 0x1_0000_0000,
        ;
        assert(0 <= z * z <= 0x1_0000_0000 * 0x1_0000_0000) by (nonlinear_arith)
            requires
                -0x1_0000_0000 <= z <= 0x1_0000_0000,
        ;
        let sum: i128 = (x * x) + (y * y) + (z * z);
        floor_sqrt(sum as u128)
    }

    pub fn new(x: i32, y: i32, z: i32) -> (v: Vec3)
        ensures
            v == (Vec3 { x, y, z }),
    {
        Self { x, y, z }
    }

    /// The position that a sample reports.
    pub fn get_position(sample: &PlayerSample) -> (v: Vec3)
        ensures
            v == Vec3::position_of(*sample),
    {
        Self::new(sample.pos_x, sample.pos_y, sample.pos_z)
    }

    /// The rotation that a sample reports. Only the rotation about the x
    /// and the z axis is known; the middle component is zero.
    pub fn get_rotation(sample: &PlayerSample) -> (v: Vec3)
        ensures
            v == Vec3::rotation_of(*sample),
    {
        Self::new(sample.rot_x, 0, sample.rot_z)
    }

    pub open spec fn position_of(sample: PlayerSample) -> Vec3 {
        Vec3 { x: sample.pos_x, y: sample.pos_y, z: sample.pos_z }
    }

    pub open spec fn rotation_of(sample: PlayerSample) -> Vec3 {
        Vec3 { x: sample.rot_x, y: 0, z: sample.rot_z }
    }
}

impl Default for Vec3 {
    fn default() -> (v: Vec3)
        ensures
            v == (Vec3 { x: 0, y: 0, z: 0 }),
    {
        Vec3 { x: 0, y: 0, z: 0 }
    }
}

impl From<(i32, i32, i32)> for Vec3 {
    fn from(x: (i32, i32, i32)) -> (v: Vec3) {
        Vec3::new(x.0, x.1, x.2)
    }
}

impl vstd::std_specs::convert::FromSpecImpl<(i32, i32, i32)> for Vec3 {
    open spec fn obeys_from_spec() -> bool {
        true
    }

    open spec fn from_spec(x: (i32, i32, i32)) -> Vec3 {
        Vec3 { x: x.0, y: x.1, z: x.2 }
    }
}

impl From<Vec3> for (i32, i32, i32) {
    fn from(v: Vec3) -> (x: (i32, i32, i32)) {
        (v.x, v.y, v.z)
    }
}

impl vstd::std_specs::convert::FromSpecImpl<Vec3> for (i32, i32, i32) {
    open spec fn obeys_from_spec() -> bool {
        true
    }

    open spec fn from_spec(v: Vec3) -> (i32, i32, i32) {
        (v.x, v.y, v.z)
    }
}

/// The eight attributes, in the order of their ids.
#[derive(Copy, Clone, Debug, PartialEq, Eq, Structural)]
pub enum Attribute {
    Strength,
    Intelligence,
    Willpower,
    Agility,
    Speed,
    Endurance,
    Personality,
    Luck,
}

impl Attribute {
    pub open spec fn spec_id(self) -> u16 {
        match self {
            Attribute::Strength => 0,
            Attribute::Intelligence => 1,
            Attribute::Willpower => 2,
            Attribute::Agility => 3,
            Attribute::Speed => 4,
            Attribute::Endurance => 5,
            Attribute::Personality => 6,
            Attribute::Luck => 7,
        }
    }

    /// The id under which the attribute source knows the attribute.
    pub fn id(self) -> (id: u16)
        ensures
            id == self.spec_id(),
    {
        match self {
            Attribute::Strength => 0,
            Attribute::Intelligence => 1,
            Attribute::Willpower => 2,
            Attribute::Agility => 3,
            Attribute::Speed => 4,
            Attribute::Endurance => 5,
            Attribute::Personality => 6,
            Attribute::Luck => 7,
        }
    }
}

/// The twenty-seven skills, in the order of their ids.
#[derive(Copy, Clone, Debug, PartialEq, Eq, Structural)]
pub enum Skill {
    Block,
    Armorer,
    MediumArmor,
    HeavyArmor,
    Blunt,
    Longblade,
    Axe,
    Spear,
    Athletics,
    Enchant,
    Destruction,
    Alteration,
    Illusion,
    Conjuration,
    Mysticism,
    Restoration,
    Alchemy,
    Unarmored,
    Security,
    Sneak,
    Acrobatics,
    LightArmor,
    Shortblade,
    Marksman,
    Mercantile,
    Speechcraft,
    HandToHand,
}

impl Skill {
    pub open spec fn spec_id(self) -> u16 {
        match self {
            Skill::Block => 0,
            Skill::Armorer => 1,
            Skill::MediumArmor => 2,
            Skill::HeavyArmor => 3,
            Skill::Blunt => 4,
            Skill::Longblade => 5,
            Skill::Axe => 6,
            Skill::Spear => 7,
            Skill::Athletics => 8,
            Skill::Enchant => 9,
            Skill::Destruction => 10,
            Skill::Alteration => 11,
            Skill::Illusion => 12,
            Skill::Conjuration => 13,
            Skill::Mysticism => 14,
            Skill::Restoration => 15,
            Skill::Alchemy => 16,
            Skill::Unarmored => 17,
            Skill::Security => 18,
            Skill::Sneak => 19,
            Skill::Acrobatics => 20,
            Skill::LightArmor => 21,
            Skill::Shortblade => 22,
            Skill::Marksman => 23,
            Skill::Mercantile => 24,
            Skill::Speechcraft => 25,
            Skill::HandToHand => 26,
        }
    }

    /// The id under which the attribute source knows the skill.
    pub fn id(self) -> (id: u16)
        ensures
            id == self.spec_id(),
    {
        match self {
            Skill::Block => 0,
            Skill::Armorer => 1,
            Skill::MediumArmor => 2,
            Skill::HeavyArmor => 3,
            Skill::Blunt => 4,
            Skill::Longblade => 5,
            Skill::Axe => 6,
            Skill::Spear => 7,
            Skill::Athletics => 8,
            Skill::Enchant => 9,
            Skill::Destruction => 10,
            Skill::Alteration => 11,
            Skill::Illusion => 12,
            Skill::Conjuration => 13,
            Skill::Mysticism => 14,
            Skill::Restoration => 15,
            Skill::Alchemy => 16,
            Skill::Unarmored => 17,
            Skill::Security => 18,
            Skill::Sneak => 19,
            Skill::Acrobatics => 20,
            Skill::LightArmor => 21,
            Skill::Shortblade => 22,
            Skill::Marksman => 23,
            Skill::Mercantile => 24,
            Skill::Speechcraft => 25,
            Skill::HandToHand => 26,
        }
    }
}

/// How a class treats a skill.
#[derive(Debug, Clone, Copy, PartialEq, Eq, PartialOrd, Ord, Structural)]
pub enum SkillType {
    Major,
    Minor,
    Misc,
}

impl Default for SkillType {
    fn default() -> (t: SkillType)
        ensures
            t == SkillType::Misc,
    {
        SkillType::Misc
    }
}

/// The category of a skill, and the category that a class favours.
#[derive(Clone, Copy, Debug, PartialEq, Eq, PartialOrd, Ord, Structural)]
pub enum Specialization {
    Combat,
    Magic,
    Stealth,
    Unspecified,
}

impl Specialization {
    /// The category of a skill: the skills are numbered category by
    /// category, nine to each.
    pub open spec fn spec_get_for_skill(skill_id: u16) -> Specialization {
        if skill_id < 9 {
            Specialization::Combat
        } else if skill_id < 18 {
            Specialization::Magic
        } else if skill_id < 27 {
            Specialization::Stealth
        } else {
            Specialization::Unspecified
        }
    }

    pub fn get_for_skill(skill_id: u16) -> (s: Specialization)
        ensures
            s == Specialization::spec_get_for_skill(skill_id),
    {
        if skill_id < 9 {
            Specialization::Combat
        } else if skill_id < 18 {
            Specialization::Magic
        } else if skill_id < 27 {
            Specialization::Stealth
        } else {
            Specialization::Unspecified
        }
    }

    /// The category that the attribute source denotes by `id`.
    pub open spec fn spec_get(id: i32) -> Specialization {
        if id == 0 {
            Specialization::Combat
        } else if id == 1 {
            Specialization::Magic
        } else if id == 2 {
            Specialization::Stealth
        } else {
            Specialization::Unspecified
        }
    }

    pub fn get(id: i32) -> (s: Specialization)
        ensures
            s == Specialization::spec_get(id),
    {
        match id {
            0 => Specialization::Combat,
            1 => Specialization::Magic,
            2 => Specialization::Stealth,
            _ => Specialization::Unspecified,
        }
    }
}

impl Default for Specialization {
    fn default() -> (s: Specialization)
        ensures
            s == Specialization::Unspecified,
    {
        Specialization::Unspecified
    }
}

/// The state of one attribute of a player.
#[derive(Debug)]
pub struct AttributeValue {
    pub id: u16,
    pub name: String,
    pub damage: i32,
    pub modifier: i32,
    pub base: i32,
}

pub struct AttributeValueView {
    pub id: u16,
    pub name: Seq<char>,
    pub damage: i32,
    pub modifier: i32,
    pub base: i32,
}

impl View for AttributeValue {
    type V = AttributeValueView;

    open spec fn view(&self) -> AttributeValueView {
        AttributeValueView {
            id: self.id,
            name: self.name@,
            damage: self.damage,
            modifier: self.modifier,
            base: self.base,
        }
    }
}

impl Clone for AttributeValue {
    fn clone(&self) -> (c: AttributeValue)
        ensures
            c@ == self@,
    {
        AttributeValue {
            id: self.id,
            name: self.name.clone(),
            damage: self.damage,
            modifier: self.modifier,
            base: self.base,
        }
    }
}

impl Default for AttributeValue {
    fn default() -> (a: AttributeValue)
        ensures
            a@ == (AttributeValueView {
                id: 0,
                name: Seq::empty(),
                damage: 0,
                modifier: 0,
                base: 0,
            }),
    {
        AttributeValue { id: 0, name: String::new(), damage: 0, modifier: 0, base: 0 }
    }
}

impl AttributeValue {
    /// The attribute with id `attribute_id`, as a sample reports it.
    pub open spec fn spec_get(attribute_id: u16, sample: AttributeSample) -> AttributeValueView {
        AttributeValueView {
            id: attribute_id,
            name: sample.name@,
            damage: sample.damage,
            modifier: sample.modifier,
            base: sample.base,
        }
    }

    pub fn get(attribute_id: u16, sample: &AttributeSample) -> (a: AttributeValue)
        ensures
            a@ == AttributeValue::spec_get(attribute_id, *sample),
    {
        AttributeValue {
            id: attribute_id,
            name: sample.name.clone(),
            damage: sample.damage,
            modifier: sample.modifier,
            base: sample.base,
        }
    }
}

/// The state of one skill of a player, with the progress toward its next
/// level.
#[derive(Debug)]
pub struct SkillValue {
    pub id: u16,
    pub name: String,
    pub progress: i32,
    pub base: i32,
    pub increase: i32,
    pub modifier: i32,
    pub damage: i32,
    /// Progress at which the skill rises, in thousandths.
    pub progress_requirement: i64,
    /// `progress` as a fraction of `progress_requirement`, in thousandths;
    /// `None` where the requirement is zero.
    pub progress_percent: Option<i64>,
    pub skill_type: SkillType,
}

pub struct SkillValueView {
    pub id: u16,
    pub name: Seq<char>,
    pub progress: i32,
    pub base: i32,
    pub increase: i32,
    pub modifier: i32,
    pub damage: i32,
    pub progress_requirement: int,
    pub progress_percent: Option<int>,
    pub skill_type: SkillType,
}

impl View for SkillValue {
    type V = SkillValueView;

    open spec fn view(&self) -> SkillValueView {
        SkillValueView {
            id: self.id,
            name: self.name@,
            progress: self.progress,
            base: self.base,
            increase: self.increase,
            modifier: self.modifier,
            damage: self.damage,
            progress_requirement: self.progress_requirement as int,
            progress_percent: match self.progress_percent {
                Some(p) => Some(p as int),
                None => None,
            },
            skill_type: self.skill_type,
        }
    }
}

impl Clone for SkillValue {
    fn clone(&self) -> (c: SkillValue)
        ensures
            c@ == self@,
    {
        SkillValue {
            id: self.id,
            name: self.name.clone(),
            progress: self.progress,
            base: self.base,
            increase: self.increase,
            modifier: self.modifier,
            damage: self.damage,
            progress_requirement: self.progress_requirement,
            progress_percent: self.progress_percent,
            skill_type: self.skill_type,
        }
    }
}

impl Default for SkillValue {
    fn default() -> (s: SkillValue)
        ensures
            s@ == (SkillValueView {
                id: 0,
                name: Seq::empty(),
                progress: 0,
                base: 0,
                increase: 0,
                modifier: 0,
                damage: 0,
                progress_requirement: 0,
                progress_percent: Some(0int),
                skill_type: SkillType::Misc,
            }),
    {
        SkillValue {
            id: 0,
            name: String::new(),
            progress: 0,
            base: 0,
            increase: 0,
            modifier: 0,
            damage: 0,
            progress_requirement: 0,
            progress_percent: Some(0),
            skill_type: SkillType::Misc,
        }
    }
}

/// The factor that the skill's type contributes to the requirement, in
/// twentieths: 0.75 for a major skill, 1 for a minor one, 1.25 for the
/// rest.
pub open spec fn type_factor(skill_type: SkillType) -> int {
    match skill_type {
        SkillType::Major => 15,
        SkillType::Minor => 20,
        SkillType::Misc => 25,
    }
}

/// The factor that the class's specialization contributes to the
/// requirement, in fifths: 0.8 where it matches the skill's category,
/// else 1.
pub open spec fn specialization_factor(is_specialization: bool) -> int {
    if is_specialization {
        4
    } else {
        5
    }
}

/// The progress at which a skill of level `base` rises, in hundredths:
/// `(1 + base)` times the two factors.
pub open spec fn requirement_hundredths(
    base: i32,
    is_specialization: bool,
    skill_type: SkillType,
) -> int {
    (1 + base) * type_factor(skill_type) * specialization_factor(is_specialization)
}

impl SkillValueView {
    /// The skill with its type set and its requirement and percentage
    /// computed from its level and progress.
    pub open spec fn with_progress(
        self,
        is_specialization: bool,
        skill_type: SkillType,
    ) -> SkillValueView {
        let requirement = requirement_hundredths(self.base, is_specialization, skill_type);
        SkillValueView {
            skill_type,
            progress_requirement: requirement * 10,
            progress_percent: if requirement == 0 {
                None
            } else {
                Some(quotient_toward_zero(100 * self.progress, requirement))
            },
            ..self
        }
    }
}

impl SkillValue {
    /// The skill with id `skill_id`, as a sample reports it, before its
    /// progress has been computed.
    pub open spec fn spec_get(skill_id: u16, sample: SkillSample) -> SkillValueView {
        SkillValueView {
            id: skill_id,
            name: sample.name@,
            progress: sample.progress,
            base: sample.base,
            increase: sample.increase,
            modifier: sample.modifier,
            damage: sample.damage,
            progress_requirement: 0,
            progress_percent: Some(0),
            skill_type: SkillType::Minor,
        }
    }

    pub fn get(skill_id: u16, sample: &SkillSample) -> (s: SkillValue)
        ensures
            s@ == SkillValue::spec_get(skill_id, *sample),
    {
        SkillValue {
            id: skill_id,
            name: sample.name.clone(),
            progress: sample.progress,
            base: sample.base,
            increase: sample.increase,
            modifier: sample.modifier,
            damage: sample.damage,
            progress_requirement: 0,
            progress_percent: Some(0),
            skill_type: SkillType::Minor,
        }
    }

    /// Sets the skill's type and computes the progress that the next level
    /// requires and the fraction of it that has been made.
    pub fn calculate_progress(&mut self, is_specialization: bool, skill_type: SkillType)
        ensures
            final(self)@ == old(self)@.with_progress(is_specialization, skill_type),
    {
        let next_level: i64 = 1 + self.base as i64;
        self.skill_type = skill_type;

        let by_type: i64 = match skill_type {
            SkillType::Major => next_level * 15,
            SkillType::Minor => next_level * 20,
            SkillType::Misc => next_level * 25,
        };
        let requirement: i64 = if is_specialization {
            by_type * 4
        } else {
            by_type * 5
        };

        self.progress_requirement = requirement * 10;
        self.progress_percent = if requirement == 0 {
            None
        } else {
            Some(div_toward_zero(100 * (self.progress as i64), requirement))
        };
    }
}

/// The class of a player's character.
#[derive(Debug)]
pub enum PlayerClass {
    /// A class that the player made.
    Custom { name: String, description: String },
    /// One of the classes that the game defines.
    Default { name: String },
    /// Not known yet.
    Unset,
}

pub enum PlayerClassView {
    Custom { name: Seq<char>, description: Seq<char> },
    Default { name: Seq<char> },
    Unset,
}

impl View for PlayerClass {
    type V = PlayerClassView;

    open spec fn view(&self) -> PlayerClassView {
        match *self {
            PlayerClass::Custom { name, description } => PlayerClassView::Custom {
                name: name@,
                description: description@,
            },
            PlayerClass::Default { name } => PlayerClassView::Default { name: name@ },
            PlayerClass::Unset => PlayerClassView::Unset,
        }
    }
}

impl Clone for PlayerClass {
    fn clone(&self) -> (c: PlayerClass)
        ensures
            c@ == self@,
    {
        match self {
            PlayerClass::Custom { name, description } => PlayerClass::Custom {
                name: name.clone(),
                description: description.clone(),
            },
            PlayerClass::Default { name } => PlayerClass::Default { name: name.clone() },
            PlayerClass::Unset => PlayerClass::Unset,
        }
    }
}

impl Default for PlayerClass {
    fn default() -> (c: PlayerClass)
        ensures
            c@ == PlayerClassView::Unset,
    {
        PlayerClass::Unset
    }
}

impl PlayerClass {
    /// The class that an identity sample describes: the predefined class
    /// that it names, or else the custom class with its description.
    pub open spec fn of_sample(sample: IdentitySample) -> PlayerClassView {
        if sample.default_class@.len() == 0 {
            PlayerClassView::Custom {
                name: sample.class_name@,
                description: sample.class_description@,
            }
        } else {
            PlayerClassView::Default { name: sample.default_class@ }
        }
    }
}

/// The views of a list of attributes, in order.
pub open spec fn attribute_views(s: Seq<AttributeValue>) -> Seq<AttributeValueView> {
    s.map_values(|a: AttributeValue| a@)
}

/// The views of a list of skills, in order.
pub open spec fn skill_views(s: Seq<SkillValue>) -> Seq<SkillValueView> {
    s.map_values(|v: SkillValue| v@)
}

/// The sum of a travelled distance and a further step, which stops at the
/// largest value that the record can hold.
pub open spec fn travelled_sum(travelled: nat, step: nat) -> nat {
    if travelled + step <= u64::MAX {
        travelled + step
    } else {
        u64::MAX as nat
    }
}

/// How many entries of a sampled list of length `len` have an id: ids are
/// 16-bit and the list is numbered from zero.
pub open spec fn listed(len: nat) -> nat {
    if len <= u16::MAX {
        len
    } else {
        u16::MAX as nat
    }
}

/// The record of one connected player.
#[derive(Debug)]
pub struct Player {
    pub id: u16,
    pub name: String,
    pub head: String,
    pub hair: String,
    pub logged_in: bool,
    /// Distance covered since the last report, in thousandths.
    pub distance_travelled: u64,
    pub race: String,
    pub class: PlayerClass,
    pub cell: String,
    pub is_outside: bool,
    pub position: Vec3,
    pub rotation: Vec3,
    pub health: i32,
    pub health_base: i32,
    pub fatigue: i32,
    pub fatigue_base: i32,
    pub magicka: i32,
    pub magicka_base: i32,
    pub level: i32,
    pub level_progress: i32,
    pub attributes: Vec<AttributeValue>,
    pub skills: Vec<SkillValue>,
    /// The skills that the class treats as major.
    pub major_skills: HashSet<u16>,
    /// The skills that the class treats as minor.
    pub minor_skills: HashSet<u16>,
    pub specialisation: Specialization,
}

pub struct PlayerView {
    pub id: u16,
    pub name: Seq<char>,
    pub head: Seq<char>,
    pub hair: Seq<char>,
    pub logged_in: bool,
    pub distance_travelled: nat,
    pub race: Seq<char>,
    pub class: PlayerClassView,
    pub cell: Seq<char>,
    pub is_outside: bool,
    pub position: Vec3,
    pub rotation: Vec3,
    pub health: i32,
    pub health_base: i32,
    pub fatigue: i32,
    pub fatigue_base: i32,
    pub magicka: i32,
    pub magicka_base: i32,
    pub level: i32,
    pub level_progress: i32,
    pub attributes: Seq<AttributeValueView>,
    pub skills: Seq<SkillValueView>,
    pub major_skills: Set<u16>,
    pub minor_skills: Set<u16>,
    pub specialisation: Specialization,
}

impl View for Player {
    type V = PlayerView;

    open spec fn view(&self) -> PlayerView {
        PlayerView {
            id: self.id,
            name: self.name@,
            head: self.head@,
            hair: self.hair@,
            logged_in: self.logged_in,
            distance_travelled: self.distance_travelled as nat,
            race: self.race@,
            class: self.class@,
            cell: self.cell@,
            is_outside: self.is_outside,
            position: self.position,
            rotation: self.rotation,
            health: self.health,
            health_base: self.health_base,
            fatigue: self.fatigue,
            fatigue_base: self.fatigue_base,
            magicka: self.magicka,
            magicka_base: self.magicka_base,
            level: self.level,
            level_progress: self.level_progress,
            attributes: attribute_views(self.attributes@),
            skills: skill_views(self.skills@),
            major_skills: self.major_skills@,
            minor_skills: self.minor_skills@,
            specialisation: self.specialisation,
        }
    }
}

impl PlayerView {
    /// The record of a player about whom nothing is known yet.
    pub open spec fn empty() -> PlayerView {
        PlayerView {
            id: 0,
            name: Seq::empty(),
            head: Seq::empty(),
            hair: Seq::empty(),
            logged_in: false,
            distance_travelled: 0,
            race: Seq::empty(),
            class: PlayerClassView::Unset,
            cell: Seq::empty(),
            is_outside: false,
            position: Vec3 { x: 0, y: 0, z: 0 },
            rotation: Vec3 { x: 0, y: 0, z: 0 },
            health: 0,
            health_base: 0,
            fatigue: 0,
            fatigue_base: 0,
            magicka: 0,
            magicka_base: 0,
            level: 0,
            level_progress: 0,
            attributes: Seq::empty(),
            skills: Seq::empty(),
            major_skills: Set::empty(),
            minor_skills: Set::empty(),
            specialisation: Specialization::Unspecified,
        }
    }

    /// How the player's class treats a skill.
    pub open spec fn skill_type(self, skill_id: u16) -> SkillType {
        if self.major_skills.contains(skill_id) {
            SkillType::Major
        } else if self.minor_skills.contains(skill_id) {
            SkillType::Minor
        } else {
            SkillType::Misc
        }
    }

    /// The record after the attributes that change from tick to tick have
    /// been read again. The step from the old to the new position counts
    /// as travel only where the cell is the same as before.
    pub open spec fn refreshed(self, sample: PlayerSample) -> PlayerView {
        let position = Vec3::position_of(sample);
        PlayerView {
            rotation: Vec3::rotation_of(sample),
            is_outside: sample.is_outside,
            distance_travelled: if sample.cell@ == self.cell {
                travelled_sum(self.distance_travelled, self.position.spec_distance(position))
            } else {
                self.distance_travelled
            },
            position,
            cell: sample.cell@,
            health_base: sample.health_base,
            health: sample.health_current,
            fatigue_base: sample.fatigue_base,
            fatigue: sample.fatigue_current,
            magicka_base: sample.magicka_base,
            magicka: sample.magicka_current,
            level: sample.level,
            level_progress: sample.level_progress,
            ..self
        }
    }

    /// The record after the attributes that are fixed by the character
    /// have been read.
    pub open spec fn identified(self, sample: IdentitySample) -> PlayerView {
        PlayerView {
            name: sample.name@,
            race: sample.race@,
            head: sample.head@,
            hair: sample.hair@,
            major_skills: sample.major_skills@.to_set(),
            minor_skills: sample.minor_skills@.to_set(),
            specialisation: Specialization::spec_get(sample.class_specialization),
            class: PlayerClass::of_sample(sample),
            ..self
        }
    }

    /// The skill with id `skill_id` as a sample reports it, with the
    /// progress computed for this player's class.
    pub open spec fn skill_of(self, skill_id: u16, sample: SkillSample) -> SkillValueView {
        SkillValue::spec_get(skill_id, sample).with_progress(
            self.specialisation == Specialization::spec_get_for_skill(skill_id),
            self.skill_type(skill_id),
        )
    }

    /// The record with its attribute and skill lists read again.
    pub open spec fn recomputed(self, details: DetailSample) -> PlayerView {
        PlayerView {
            attributes: Seq::new(
                listed(details.attributes@.len()),
                |i: int| AttributeValue::spec_get(i as u16, details.attributes@[i]),
            ),
            skills: Seq::new(
                listed(details.skills@.len()),
                |i: int| self.skill_of(i as u16, details.skills@[i]),
            ),
            ..self
        }
    }

    /// The record after its statistics have been reported: the distance
    /// starts again from zero.
    pub open spec fn reported(self) -> PlayerView {
        PlayerView { distance_travelled: 0, ..self }
    }

    /// The record after the low-frequency refresh: the lists are read
    /// again, and a player who has logged in is reported.
    pub open spec fn low_frequency_updated(self, details: DetailSample) -> PlayerView {
        if self.logged_in {
            self.recomputed(details).reported()
        } else {
            self.recomputed(details)
        }
    }

    /// What the low-frequency refresh reports: the statistics of a player
    /// who has logged in, nothing of another.
    pub open spec fn low_frequency_observations(self, details: DetailSample) -> Seq<
        ObservationView,
    > {
        if self.logged_in {
            self.recomputed(details).stat_observations()
        } else {
            Seq::empty()
        }
    }

    /// The record after the player has logged in.
    pub open spec fn after_login(self, identity: IdentitySample, details: DetailSample) -> PlayerView {
        self.identified(identity).low_frequency_updated(details)
    }

    /// What is pushed to subscribers between two full snapshots.
    pub open spec fn position_view(self) -> crate::server_info::events::PlayerPositionView {
        crate::server_info::events::PlayerPositionView {
            name: self.name,
            position: (self.position.x, self.position.y),
            rotation: self.rotation.z,
            cell: self.cell,
            is_outside: self.is_outside,
        }
    }

    /// An observation of a metric that has one series for each player.
    pub open spec fn observation(self, metric: Metric, value: MetricValue) -> ObservationView {
        ObservationView { metric, player: self.name, item: None, value }
    }

    /// An observation of a metric that has one series for each skill, or
    /// for each attribute, of each player.
    pub open spec fn item_observation(
        self,
        metric: Metric,
        name: Seq<char>,
        id: u16,
        value: MetricValue,
    ) -> ObservationView {
        ObservationView {
            metric,
            player: self.name,
            item: Some(ItemLabelView { name, id }),
            value,
        }
    }

    /// Level and progress of each skill: two observations for each skill,
    /// in the order of the list.
    pub open spec fn skill_observations(self) -> Seq<ObservationView> {
        Seq::new(
            2 * self.skills.len(),
            |k: int|
                {
                    let skill = self.skills[k / 2];
                    if k % 2 == 0 {
                        self.item_observation(
                            Metric::SkillLevel,
                            skill.name,
                            skill.id,
                            MetricValue::Int(skill.base as i64),
                        )
                    } else {
                        self.item_observation(
                            Metric::SkillProgress,
                            skill.name,
                            skill.id,
                            match skill.progress_percent {
                                Some(p) => MetricValue::Real(p as i128),
                                None => MetricValue::Undefined,
                            },
                        )
                    }
                },
        )
    }

    /// Level of each attribute, in the order of the list.
    pub open spec fn attribute_observations(self) -> Seq<ObservationView> {
        Seq::new(
            self.attributes.len(),
            |k: int|
                self.item_observation(
                    Metric::AttributeLevel,
                    self.attributes[k].name,
                    self.attributes[k].id,
                    MetricValue::Int(self.attributes[k].base as i64),
                ),
        )
    }

    /// Level, vitals and the distance travelled since the last report.
    pub open spec fn vital_observations(self) -> Seq<ObservationView> {
        seq![
            self.observation(Metric::Level, MetricValue::Int(self.level as i64)),
            self.observation(Metric::LevelProgress, MetricValue::Int(self.level_progress as i64)),
            self.observation(Metric::MagickaBase, MetricValue::Real(self.magicka_base as i128)),
            self.observation(Metric::Magicka, MetricValue::Real(self.magicka as i128)),
            self.observation(Metric::HealthBase, MetricValue::Real(self.health_base as i128)),
            self.observation(Metric::Health, MetricValue::Real(self.health as i128)),
            self.observation(Metric::FatigueBase, MetricValue::Real(self.fatigue_base as i128)),
            self.observation(Metric::Fatigue, MetricValue::Real(self.fatigue as i128)),
            self.observation(
                Metric::DistanceTraveled,
                MetricValue::Real(self.distance_travelled as i128),
            ),
        ]
    }

    /// Everything that is reported about a player, in order: the skills,
    /// the attributes, then level, vitals and distance.
    pub open spec fn stat_observations(self) -> Seq<ObservationView> {
        self.skill_observations() + self.attribute_observations() + self.vital_observations()
    }
}

impl PlayerView {
    /// The record of a player who has just connected under `id`: an empty
    /// record that is fully refreshed at once, the character and the lists
    /// included. The player has not logged in, so nothing is reported.
    pub open spec fn connected(
        id: u16,
        sample: PlayerSample,
        identity: IdentitySample,
        details: DetailSample,
    ) -> PlayerView {
        (PlayerView { id, ..PlayerView::empty() }).refreshed(sample).identified(
            identity,
        ).low_frequency_updated(details)
    }
}

fn clone_ids(ids: &HashSet<u16>) -> (c: HashSet<u16>)
    ensures
        c@ == ids@,
{
    let mut c: HashSet<u16> = HashSet::new();
    for id in it: ids.iter()
        invariant
            c@ == it.seq().take(it.index()).unref().to_set(),
            it.seq().unref().to_set() == ids@,
            it.index() == it.seq().len() ==> c@ == ids@,
    {
        let ghost before = it.seq().take(it.index()).unref();
        c.insert(*id);
        assert(it.seq().take(it.index() + 1).unref() =~= before.push(*id));
        assert(before.push(*id).to_set() =~= before.to_set().insert(*id)) by {
            broadcast use vstd::seq_lib::group_seq_properties;
        }
        assert(it.seq().take(it.seq().len() as int) =~= it.seq());
    }
    c
}

fn clone_attributes(attributes: &Vec<AttributeValue>) -> (c: Vec<AttributeValue>)
    ensures
        attribute_views(c@) == attribute_views(attributes@),
{
    let mut c: Vec<AttributeValue> = Vec::new();
    let mut i: usize = 0;
    while i < attributes.len()
        invariant
            i <= attributes.len(),
            c@.len() == i,
            forall|j: int| 0 <= j < i ==> c@[j]@ == attributes@[j]@,
        decreases attributes.len() - i,
    {
        c.push(attributes[i].clone());
        i += 1;
    }
    c
}

fn clone_skills(skills: &Vec<SkillValue>) -> (c: Vec<SkillValue>)
    ensures
        skill_views(c@) == skill_views(skills@),
{
    let mut c: Vec<SkillValue> = Vec::new();
    let mut i: usize = 0;
    while i < skills.len()
        invariant
            i <= skills.len(),
            c@.len() == i,
            forall|j: int| 0 <= j < i ==> c@[j]@ == skills@[j]@,
        decreases skills.len() - i,
    {
        c.push(skills[i].clone());
        i += 1;
    }
    c
}

impl Default for Player {
    fn default() -> (p: Player)
        ensures
            p@ == PlayerView::empty(),
    {
        let p = Player {
            id: 0,
            name: String::new(),
            head: String::new(),
            hair: String::new(),
            logged_in: false,
            distance_travelled: 0,
            race: String::new(),
            class: PlayerClass::Unset,
            cell: String::new(),
            is_outside: false,
            position: Vec3 { x: 0, y: 0, z: 0 },
            rotation: Vec3 { x: 0, y: 0, z: 0 },
            health: 0,
            health_base: 0,
            fatigue: 0,
            fatigue_base: 0,
            magicka: 0,
            magicka_base: 0,
            level: 0,
            level_progress: 0,
            attributes: Vec::new(),
            skills: Vec::new(),
            major_skills: HashSet::new(),
            minor_skills: HashSet::new(),
            specialisation: Specialization::Unspecified,
        };
        assert(p@.attributes =~= Seq::empty());
        assert(p@.skills =~= Seq::empty());
        p
    }
}

impl Clone for Player {
    fn clone(&self) -> (c: Player)
        ensures
            c@ == self@,
    {
        Player {
            id: self.id,
            name: self.name.clone(),
            head: self.head.clone(),
            hair: self.hair.clone(),
            logged_in: self.logged_in,
            distance_travelled: self.distance_travelled,
            race: self.race.clone(),
            class: self.class.clone(),
            cell: self.cell.clone(),
            is_outside: self.is_outside,
            position: self.position,
            rotation: self.rotation,
            health: self.health,
            health_base: self.health_base,
            fatigue: self.fatigue,
            fatigue_base: self.fatigue_base,
            magicka: self.magicka,
            magicka_base: self.magicka_base,
            level: self.level,
            level_progress: self.level_progress,
            attributes: clone_attributes(&self.attributes),
            skills: clone_skills(&self.skills),
            major_skills: clone_ids(&self.major_skills),
            minor_skills: clone_ids(&self.minor_skills),
            specialisation: self.specialisation,
        }
    }
}

impl Player {
    /// The record of a player who has just connected: it is fully
    /// refreshed, and the player has not logged in.
    pub fn new(
        id: u16,
        sample: &PlayerSample,
        identity: &IdentitySample,
        details: &DetailSample,
    ) -> (player: Player)
        ensures
            player@ == PlayerView::connected(id, *sample, *identity, *details),
            player@.id == id,
            !player@.logged_in,
    {
        let mut player = Player::default();
        player.id = id;
        player.update(sample);
        player.update_once(identity);
        let _ = player.low_frequency_update(details);

        player
    }

    /// Where the player is, as it is pushed to subscribers.
    pub fn get_player_position(&self) -> (position: PlayerPosition)
        ensures
            position@ == self@.position_view(),
    {
        PlayerPosition {
            name: self.name.clone(),
            position: (self.position.x, self.position.y),
            rotation: self.rotation.z,
            cell: self.cell.clone(),
            is_outside: self.is_outside,
        }
    }

    /// How the player's class treats a skill.
    pub fn get_skill_type(&self, skill_id: u16) -> (skill_type: SkillType)
        ensures
            skill_type == self@.skill_type(skill_id),
    {
        if self.major_skills.contains(&skill_id) {
            SkillType::Major
        } else if self.minor_skills.contains(&skill_id) {
            SkillType::Minor
        } else {
            SkillType::Misc
        }
    }

    /// Takes over the attributes that change from tick to tick, and adds
    /// the step from the old position to the distance travelled unless the
    /// player has changed cell.
    pub fn update(&mut self, sample: &PlayerSample)
        ensures
            final(self)@ == old(self)@.refreshed(*sample),
    {
        self.rotation = Vec3::get_rotation(sample);
        self.is_outside = sample.is_outside;

        let position = Vec3::get_position(sample);

        if sample.cell == self.cell {
            let step: u64 = self.position.distance(position);
            self.distance_travelled = if step <= u64::MAX - self.distance_travelled {
                self.distance_travelled + step
            } else {
                u64::MAX
            };
        }
        self.position = position;

        self.cell = sample.cell.clone();
        self.health_base = sample.health_base;
        self.health = sample.health_current;
        self.fatigue_base = sample.fatigue_base;
        self.fatigue = sample.fatigue_current;
        self.magicka_base = sample.magicka_base;
        self.magicka = sample.magicka_current;
        self.level = sample.level;
        self.level_progress = sample.level_progress;
    }

    /// Takes over the attributes that are fixed by the character: names,
    /// looks and class.
    pub fn update_once(&mut self, sample: &IdentitySample)
        ensures
            final(self)@ == old(self)@.identified(*sample),
    {
        self.name = sample.name.clone();
        self.race = sample.race.clone();
        self.head = sample.head.clone();
        self.hair = sample.hair.clone();

        let mut major_skills: HashSet<u16> = HashSet::new();
        major_skills.insert(sample.major_skills[0]);
        major_skills.insert(sample.major_skills[1]);
        assert(major_skills@ =~= sample.major_skills@.to_set()) by {
            lemma_pair_to_set(sample.major_skills@);
        }
        self.major_skills = major_skills;

        let mut minor_skills: HashSet<u16> = HashSet::new();
        minor_skills.insert(sample.minor_skills[0]);
        minor_skills.insert(sample.minor_skills[1]);
        minor_skills.insert(sample.minor_skills[2]);
        minor_skills.insert(sample.minor_skills[3]);
        minor_skills.insert(sample.minor_skills[4]);
        assert(minor_skills@ =~= sample.minor_skills@.to_set()) by {
            lemma_five_to_set(sample.minor_skills@);
        }
        self.minor_skills = minor_skills;

        self.specialisation = Specialization::get(sample.class_specialization);

        if sample.default_class.as_str().is_empty() {
            self.class = PlayerClass::Custom {
                name: sample.class_name.clone(),
                description: sample.class_description.clone(),
            }
        } else {
            self.class = PlayerClass::Default { name: sample.default_class.clone() }
        }
    }
}

impl Player {
    /// Reads the attribute and skill lists again, computes the progress of
    /// each skill, and reports the player's statistics if the player has
    /// logged in. Returns what was reported.
    pub fn low_frequency_update(&mut self, details: &DetailSample) -> (observations: Vec<
        Observation,
    >)
        ensures
            final(self)@ == old(self)@.low_frequency_updated(*details),
            observation_views(observations@) == old(self)@.low_frequency_observations(*details),
    {
        let attribute_count: usize = if details.attributes.len() <= 65535 {
            details.attributes.len()
        } else {
            65535
        };
        let mut attributes: Vec<AttributeValue> = Vec::new();
        let mut i: usize = 0;
        while i < attribute_count
            invariant
                i <= attribute_count <= details.attributes.len(),
                attribute_count <= 65535,
                attributes@.len() == i,
                forall|j: int|
                    0 <= j < i ==> attributes@[j]@ == AttributeValue::spec_get(
                        j as u16,
                        details.attributes@[j],
                    ),
            decreases attribute_count - i,
        {
            attributes.push(AttributeValue::get(i as u16, &details.attributes[i]));
            i += 1;
        }

        let skill_count: usize = if details.skills.len() <= 65535 {
            details.skills.len()
        } else {
            65535
        };
        let mut skills: Vec<SkillValue> = Vec::new();
        let mut i: usize = 0;
        while i < skill_count
            invariant
                *self == *old(self),
                i <= skill_count <= details.skills.len(),
                skill_count <= 65535,
                skills@.len() == i,
                forall|j: int|
                    0 <= j < i ==> skills@[j]@ == self@.skill_of(j as u16, details.skills@[j]),
            decreases skill_count - i,
        {
            let id: u16 = i as u16;
            let mut skill = SkillValue::get(id, &details.skills[i]);
            skill.calculate_progress(
                self.specialisation == Specialization::get_for_skill(id),
                self.get_skill_type(id),
            );
            skills.push(skill);
            i += 1;
        }

        self.attributes = attributes;
        self.skills = skills;
        assert(self@.attributes =~= old(self)@.recomputed(*details).attributes);
        assert(self@.skills =~= old(self)@.recomputed(*details).skills);

        if self.logged_in {
            self.report_stats()
        } else {
            Vec::new()
        }
    }

    /// Reports the player's statistics: level and progress of each skill,
    /// level of each attribute, then level, vitals and the distance
    /// travelled, which starts again from zero.
    pub fn report_stats(&mut self) -> (observations: Vec<Observation>)
        ensures
            observation_views(observations@) == old(self)@.stat_observations(),
            final(self)@ == old(self)@.reported(),
    {
        let mut out: Vec<Observation> = Vec::new();
        let mut i: usize = 0;
        while i < self.skills.len()
            invariant
                *self == *old(self),
                i <= self.skills.len(),
                out@.len() == 2 * i,
                forall|k: int| 0 <= k < 2 * i ==> out@[k]@ == self@.skill_observations()[k],
            decreases self.skills.len() - i,
        {
            let skill = &self.skills[i];
            out.push(
                Observation {
                    metric: Metric::SkillLevel,
                    player: self.name.clone(),
                    item: Some(ItemLabel { name: skill.name.clone(), id: skill.id }),
                    value: MetricValue::Int(skill.base as i64),
                },
            );
            out.push(
                Observation {
                    metric: Metric::SkillProgress,
                    player: self.name.clone(),
                    item: Some(ItemLabel { name: skill.name.clone(), id: skill.id }),
                    value: match skill.progress_percent {
                        Some(p) => MetricValue::Real(p as i128),
                        None => MetricValue::Undefined,
                    },
                },
            );
            i += 1;
        }

        let ghost skill_part = out@;
        let mut i: usize = 0;
        while i < self.attributes.len()
            invariant
                *self == *old(self),
                i <= self.attributes.len(),
                skill_part.len() == 2 * self.skills.len(),
                out@.len() == skill_part.len() + i,
                forall|k: int| 0 <= k < skill_part.len() ==> out@[k] == skill_part[k],
                forall|k: int|
                    0 <= k < i ==> out@[skill_part.len() + k]@ == self@.attribute_observations()[k],
            decreases self.attributes.len() - i,
        {
            let attribute = &self.attributes[i];
            out.push(
                Observation {
                    metric: Metric::AttributeLevel,
                    player: self.name.clone(),
                    item: Some(ItemLabel { name: attribute.name.clone(), id: attribute.id }),
                    value: MetricValue::Int(attribute.base as i64),
                },
            );
            i += 1;
        }

        out.push(self.observe(Metric::Level, MetricValue::Int(self.level as i64)));
        out.push(self.observe(Metric::LevelProgress, MetricValue::Int(self.level_progress as i64)));
        out.push(self.observe(Metric::MagickaBase, MetricValue::Real(self.magicka_base as i128)));
        out.push(self.observe(Metric::Magicka, MetricValue::Real(self.magicka as i128)));
        out.push(self.observe(Metric::HealthBase, MetricValue::Real(self.health_base as i128)));
        out.push(self.observe(Metric::Health, MetricValue::Real(self.health as i128)));
        out.push(self.observe(Metric::FatigueBase, MetricValue::Real(self.fatigue_base as i128)));
        out.push(self.observe(Metric::Fatigue, MetricValue::Real(self.fatigue as i128)));
        out.push(
            self.observe(
                Metric::DistanceTraveled,
                MetricValue::Real(self.distance_travelled as i128),
            ),
        );
        self.distance_travelled = 0;
        out
    }

    fn observe(&self, metric: Metric, value: MetricValue) -> (observation: Observation)
        ensures
            observation@ == self@.observation(metric, value),
    {
        Observation { metric, player: self.name.clone(), item: None, value }
    }

    /// Marks the moment at which the player logs in: the character is
    /// read, then the lists, and the statistics are reported if the record
    /// says that the player has logged in. Returns what was reported.
    pub fn on_login(&mut self, identity: &IdentitySample, details: &DetailSample) -> (observations:
        Vec<Observation>)
        ensures
            final(self)@ == old(self)@.after_login(*identity, *details),
            observation_views(observations@) == old(self)@.identified(
                *identity,
            ).low_frequency_observations(*details),
    {
        self.update_once(identity);
        self.low_frequency_update(details)
    }
}

/// A skill of level zero that the class neither favours nor neglects
/// requires a progress of one, so that the fraction made is the progress
/// itself. As a major skill of the class's specialization it requires 0.6.
pub proof fn lemma_progress_of_level_zero(skill: SkillValueView)
    requires
        skill.base == 0,
    ensures
        skill.with_progress(false, SkillType::Minor).progress_requirement == 1000,
        skill.with_progress(false, SkillType::Minor).progress_percent == Some(
            skill.progress as int,
        ),
        skill.with_progress(true, SkillType::Major).progress_requirement == 600,
{
}

proof fn lemma_pair_to_set(ids: Seq<u16>)
    requires
        ids.len() == 2,
    ensures
        ids.to_set() == Set::<u16>::empty().insert(ids[0]).insert(ids[1]),
        ids.to_set().finite(),
        ids.to_set().len() <= 2,
{
    let built = Set::<u16>::empty().insert(ids[0]).insert(ids[1]);
    assert(ids.to_set() =~= built);
}

proof fn lemma_five_to_set(ids: Seq<u16>)
    requires
        ids.len() == 5,
    ensures
        ids.to_set() == Set::<u16>::empty().insert(ids[0]).insert(ids[1]).insert(ids[2]).insert(
            ids[3],
        ).insert(ids[4]),
        ids.to_set().finite(),
        ids.to_set().len() <= 5,
{
    let built = Set::<u16>::empty().insert(ids[0]).insert(ids[1]).insert(ids[2]).insert(
        ids[3],
    ).insert(ids[4]);
    assert(ids.to_set() =~= built);
}

/// Once the character has been read, the record holds the major and the
/// minor skills of the class as sets: exactly the ids that the sample
/// names, so at most two major and five minor skills.
pub proof fn lemma_identified_skill_sets(
    player: PlayerView,
    sample: IdentitySample,
    skill_id: u16,
)
    ensures
        player.identified(sample).major_skills.finite(),
        player.identified(sample).minor_skills.finite(),
        player.identified(sample).major_skills.len() <= 2,
        player.identified(sample).minor_skills.len() <= 5,
        player.identified(sample).major_skills.contains(skill_id) <==> skill_id
            == sample.major_skills[0] || skill_id == sample.major_skills[1],
        player.identified(sample).minor_skills.contains(skill_id) <==> skill_id
            == sample.minor_skills[0] || skill_id == sample.minor_skills[1] || skill_id
            == sample.minor_skills[2] || skill_id == sample.minor_skills[3] || skill_id
            == sample.minor_skills[4],
{
    lemma_pair_to_set(sample.major_skills@);
    lemma_five_to_set(sample.minor_skills@);
}

/// The category of a skill goes by its id alone: nine skills to each of
/// combat, magic and stealth.
pub proof fn lemma_skill_categories(skill_id: u16)
    ensures
        skill_id <= 8 <==> Specialization::spec_get_for_skill(skill_id) == Specialization::Combat,
        9 <= skill_id <= 17 <==> Specialization::spec_get_for_skill(skill_id)
            == Specialization::Magic,
        18 <= skill_id <= 26 <==> Specialization::spec_get_for_skill(skill_id)
            == Specialization::Stealth,
{
}

impl PlayerView {
    /// The record after one cheap refresh for each sample, in order.
    pub open spec fn refreshed_through(self, samples: Seq<PlayerSample>) -> PlayerView
        decreases samples.len(),
    {
        if samples.len() == 0 {
            self
        } else {
            self.refreshed_through(samples.drop_last()).refreshed(samples.last())
        }
    }

    /// The way that the samples describe: the sum of the straight-line
    /// distances between consecutive positions, where a step into another
    /// cell counts as nothing.
    pub open spec fn travel(self, samples: Seq<PlayerSample>) -> nat
        decreases samples.len(),
    {
        if samples.len() == 0 {
            0
        } else {
            let before = self.refreshed_through(samples.drop_last());
            let step = if samples.last().cell@ == before.cell {
                before.position.spec_distance(Vec3::position_of(samples.last()))
            } else {
                0
            };
            self.travel(samples.drop_last()) + step
        }
    }
}

/// The distance travelled accumulates the way that the samples describe,
/// up to the largest value that the record can hold.
pub proof fn lemma_distance_accumulates(player: PlayerView, samples: Seq<PlayerSample>)
    requires
        player.distance_travelled <= u64::MAX,
    ensures
        player.refreshed_through(samples).distance_travelled == travelled_sum(
            player.distance_travelled,
            player.travel(samples),
        ),
    decreases samples.len(),
{
    if samples.len() > 0 {
        lemma_distance_accumulates(player, samples.drop_last());
    }
}

/// A refresh in another cell adds nothing to the distance travelled; one
/// in the same cell adds the straight-line distance from the old position
/// to the new.
pub proof fn lemma_distance_step(player: PlayerView, sample: PlayerSample)
    ensures
        sample.cell@ != player.cell ==> player.refreshed(sample).distance_travelled
            == player.distance_travelled,
        sample.cell@ == player.cell ==> player.refreshed(sample).distance_travelled
            == travelled_sum(
            player.distance_travelled,
            player.position.spec_distance(Vec3::position_of(sample)),
        ),
{
}

/// The low-frequency refresh of a player who has logged in reports the
/// distance travelled and leaves it at zero. That of a player who has not
/// logged in reports nothing and leaves the distance as it is.
pub proof fn lemma_distance_reset(player: PlayerView, details: DetailSample)
    ensures
        player.logged_in ==> player.low_frequency_updated(details).distance_travelled == 0,
        player.logged_in ==> player.low_frequency_observations(details).last()
            == player.observation(
            Metric::DistanceTraveled,
            MetricValue::Real(player.distance_travelled as i128),
        ),
        !player.logged_in ==> player.low_frequency_updated(details).distance_travelled
            == player.distance_travelled,
        !player.logged_in ==> player.low_frequency_observations(details).len() == 0,
{
}

} // verus!
