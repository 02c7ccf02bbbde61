//! The quantity that the simulation view shows.
use vstd::prelude::*;

verus! {

/// Which field of the simulation is drawn.
#[derive(PartialEq, Eq, Structural, Clone, Copy, Debug)]
pub enum Rendermode {
    Density,
    Speed,
    XVelocity,
    YVelocity,
    Curl,
}

impl Rendermode {
    /// The caption shown beside the colour scale.
    pub fn label(self) -> (r: &'static str)
        ensures
            r@ == (match self {
                Rendermode::Density => "Density"@,
                Rendermode::Speed => "Speed"@,
                Rendermode::XVelocity => "X-Velocity"@,
                Rendermode::YVelocity => "Y-Velocity"@,
                Rendermode::Curl => "Curl"@,
            }),
    {
        match self {
            Rendermode::Density => "Density",
            Rendermode::Speed => "Speed",
            Rendermode::XVelocity => "X-Velocity",
            Rendermode::YVelocity => "Y-Velocity",
            Rendermode::Curl => "Curl",
        }
    }

    /// The short name used in the mode selector.
    pub fn short_label(self) -> (r: &'static str)
        ensures
            r@ == (match self {
                Rendermode::Density => "Density"@,
                Rendermode::Speed => "Speed"@,
                Rendermode::XVelocity => "X-Vel"@,
                Rendermode::YVelocity => "Y-Vel"@,
                Rendermode::Curl => "Curl"@,
            }),
    {
        match self {
            Rendermode::Density => "Density",
            Rendermode::Speed => "Speed",
            Rendermode::XVelocity => "X-Vel",
            Rendermode::YVelocity => "Y-Vel",
            Rendermode::Curl => "Curl",
        }
    }
}

} // verus!
