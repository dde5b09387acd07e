//! Starfield synthesis onto a six-face cube environment map: the integer core.
//!
//! Directions are projected onto a cube face with exact rational face
//! coordinates, face coordinates are addressed into a flat "vertical cross"
//! buffer, and each star's irradiance and temperature are folded into its
//! pixel as an irradiance-weighted running average.
use vstd::prelude::*;

pub mod cube;
pub mod address;
pub mod pixel;
pub mod buffer;
pub mod star;
pub mod settings;
