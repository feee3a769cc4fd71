//! Direction-aware animation control for billboard sprites: a sprite whose
//! world orientation never changes shows one of four pre-rendered views
//! (front, back, left, right) depending on where the viewer stands.
pub mod enums;
pub mod angle;
pub mod traits;
pub mod animators;
pub mod lemmas;
