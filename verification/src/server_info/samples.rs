//! What the attribute source reports about one player.
//!
//! The library never queries the game itself. Its caller reads the raw
//! attributes of a player and hands them over in these records; every
//! refresh operation of the player model is a function of the record it is
//! given. Real-valued attributes arrive as thousandths.

use vstd::prelude::*;

verus! {

/// The attributes that change from tick to tick.
pub struct PlayerSample {
    pub rot_x: i32,
    pub rot_z: i32,
    pub is_outside: bool,
    pub cell: String,
    pub pos_x: i32,
    pub pos_y: i32,
    pub pos_z: i32,
    pub health_base: i32,
    pub health_current: i32,
    pub fatigue_base: i32,
    pub fatigue_current: i32,
    pub magicka_base: i32,
    pub magicka_current: i32,
    pub level: i32,
    pub level_progress: i32,
}

/// The attributes that are fixed once a player has chosen a character.
pub struct IdentitySample {
    pub name: String,
    pub race: String,
    pub head: String,
    pub hair: String,
    pub major_skills: [u16; 2],
    pub minor_skills: [u16; 5],
    pub class_specialization: i32,
    /// Name of the predefined class, empty for a custom class.
    pub default_class: String,
    pub class_name: String,
    pub class_description: String,
}

/// One attribute of a player; its id is its position in the list.
pub struct AttributeSample {
    pub name: String,
    pub damage: i32,
    pub modifier: i32,
    pub base: i32,
}

/// One skill of a player; its id is its position in the list.
pub struct SkillSample {
    pub name: String,
    pub progress: i32,
    pub base: i32,
    pub increase: i32,
    pub modifier: i32,
    pub damage: i32,
}

/// The attribute and skill lists of a player.
pub struct DetailSample {
    pub attributes: Vec<AttributeSample>,
    pub skills: Vec<SkillSample>,
}

/// Everything one tick reads about one connected player.
pub struct TickSample {
    pub id: u16,
    pub state: PlayerSample,
    pub details: DetailSample,
}

} // verus!
