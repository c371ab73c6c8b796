//! A bit-exact codec for the night light's settings and state records, as
//! a settings store keeps them: tag-delimited byte records with a shared
//! framing, decoded into structs, updated by setters, and encoded back.

mod consts;
pub mod nightlight_settings;
pub mod nightlight_state;
pub mod parser;

pub use nightlight_settings::{NightlightError, NightlightSettings, ScheduleMode};
pub use nightlight_state::NightlightState;
pub use parser::{Block, DeserializationError, TimeOfDay};
