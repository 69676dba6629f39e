//! A point light source: position, color and intensity.

use vstd::prelude::*;

use crate::math::{Color, Vec3};

verus! {

/// Represents a light source in the scene; the intensity is a raw
/// single-precision bit pattern like every other scalar.
pub struct Light {
    position: Vec3,
    color: Color,
    intensity: u32,
}

impl Light {
    /// Creates a new light source with the given position, color, and
    /// intensity.
    pub fn new(position: Vec3, color: Color, intensity: u32) -> (r: Self)
        ensures
            r.position_view() == position,
            r.color_view() == color,
            r.intensity_view() == intensity,
    {
        Light { position, color, intensity }
    }

    /// The light's position.
    pub closed spec fn position_view(&self) -> Vec3 {
        self.position
    }

    /// The light's color.
    pub closed spec fn color_view(&self) -> Color {
        self.color
    }

    /// The light's intensity pattern.
    pub closed spec fn intensity_view(&self) -> u32 {
        self.intensity
    }

    /// Sets the position of the light.
    pub fn set_position(&mut self, position: Vec3)
        ensures
            final(self).position_view() == position,
            final(self).color_view() == old(self).color_view(),
            final(self).intensity_view() == old(self).intensity_view(),
    {
        self.position = position;
    }

    /// Sets the color of the light.
    pub fn set_color(&mut self, color: Color)
        ensures
            final(self).position_view() == old(self).position_view(),
            final(self).color_view() == color,
            final(self).intensity_view() == old(self).intensity_view(),
    {
        self.color = color;
    }

    /// Sets the intensity of the light.
    pub fn set_intensity(&mut self, intensity: u32)
        ensures
            final(self).position_view() == old(self).position_view(),
            final(self).color_view() == old(self).color_view(),
            final(self).intensity_view() == intensity,
    {
        self.intensity = intensity;
    }

    /// Returns the position of the light.
    pub fn position(&self) -> (r: Vec3)
        ensures
            r == self.position_view(),
    {
        self.position
    }

    /// Returns the color of the light.
    pub fn color(&self) -> (r: Color)
        ensures
            r == self.color_view(),
    {
        self.color
    }

    /// Returns the intensity of the light.
    pub fn intensity(&self) -> (r: u32)
        ensures
            r == self.intensity_view(),
    {
        self.intensity
    }
}

} // verus!
