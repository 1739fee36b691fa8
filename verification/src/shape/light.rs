//! A point light: a position and a color, consumed by the shading code.

use vstd::prelude::*;

use crate::color::Color;
use crate::vec3::Vector3;

verus! {

#[derive(Debug, Clone, Copy)]
pub struct Light {
    pub position: Vector3,
    pub color: Color,
}

} // verus!
