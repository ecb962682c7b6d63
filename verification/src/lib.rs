pub mod driver;
pub mod errors;
pub mod font;
pub mod layout;
pub mod sample;
pub mod shape;
pub mod titles;
pub mod variant;
