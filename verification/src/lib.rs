//! Character sheets for Chronicles of Darkness: traits, splats, modifiers and the
//! numbers that a sheet derives from them.
pub mod character;
pub mod choices;
pub mod demo;
pub mod dice_pool;
pub mod extras;
pub mod overview;
pub mod rules;
pub mod scraper;
pub mod splat;
pub mod text;
