//! Core rules of a small role-playing game: base statistics, derived combat
//! attributes, leveling and experience progression, equipment slots, story
//! branching, frame timing, and a double-buffered hand-off for rendering data.

pub mod base_enemy;
pub mod dbl_buffer;
pub mod equipment;
pub mod player;
pub mod player_state;
pub mod sacrificial_dagger;
pub mod sacrificial_robes;
pub mod stats;
pub mod story;
pub mod textures;
pub mod timing;
