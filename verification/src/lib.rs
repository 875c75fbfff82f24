//! A character-generation engine for a tabletop skirmish game.
//!
//! The engine samples a set of interdependent random tables (race,
//! background, starting skill expertise) and applies background-specific
//! attribute-roll rules to produce a fully initialized character record.

pub mod character;
pub mod display;
pub mod random;
pub mod resolver;
pub mod taxonomy;

pub use character::generate_random_race;
pub use character::Character;
pub use resolver::apply_background;
pub use resolver::UnimplementedBackground;
pub use random::RandomNumberGenerator;
pub use taxonomy::Background;
pub use taxonomy::CharRace;
pub use taxonomy::SkillType;
