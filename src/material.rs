use vstd::prelude::*;
use crate::color::Color;

verus! {

/// An ideal diffuse (matte) surface. It scatters every ray that hits it and
/// attenuates the light it passes on by its albedo.
#[derive(Debug, Clone, Copy)]
pub struct Lambertian {
    albedo: Color,
}

impl Lambertian {
    /// A diffuse surface of the given albedo.
    pub fn new(albedo: Color) -> (m: Self)
        ensures
            m.albedo() == albedo,
    {
        Self { albedo }
    }

    /// The albedo the surface was made with.
    pub closed spec fn albedo(&self) -> Color {
        self.albedo
    }

    /// The attenuation of every ray this surface scatters: its albedo.
    pub fn attenuation(&self) -> (c: Color)
        ensures
            c == self.albedo(),
    {
        self.albedo
    }
}

} // verus!
