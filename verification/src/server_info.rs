//! The telemetry core: the player model, the two registries, the events
//! that are broadcast and the metrics that are reported.

pub mod counters;
pub mod events;
pub mod fixed;
pub mod logic;
pub mod player_details;
pub mod samples;

pub use self::counters::{Metric, MetricValue, Observation};
pub use self::events::{FullPlayerEvent, PlayerPosition, PlayerPositionEvent, WebsocketEvent};
pub use self::logic::{ServerInfo, ServerLogic, TickReport};
pub use self::player_details::{
    Attribute, AttributeValue, Player, PlayerClass, Skill, SkillType, SkillValue, Specialization,
    Vec3,
};
