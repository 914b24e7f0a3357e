//! Renders rows of colored terminal blocks: each color becomes a fixed-width
//! block of three spaces drawn with that color as the background, and every
//! rendered line ends with a style reset so no color leaks into later output.

pub mod color;
pub mod render;
