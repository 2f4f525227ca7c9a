use vstd::prelude::*;
use vstd::string::*;

verus! {

/// A celestial body: exactly one of three shapes.
#[derive(Debug, Clone)]
pub enum CelestialBody<M> {
    /// Carries no data.
    BlackHole,
    /// Diameter (metres) and mass (kilograms).
    Asteroid(M, M),
    /// Name, radius (metres) and mass (kilograms).
    Planet { name: String, radius: M, mass: M },
}

/// The length that the gravity formula reads for a body: either the radius
/// itself, or a diameter whose half serves as the radius.
pub enum Extent<'a, M> {
    Radius(&'a M),
    Diameter(&'a M),
}

/// The line with which a body is greeted.
pub open spec fn greeting_text<M>(b: CelestialBody<M>) -> Seq<char> {
    match b {
        CelestialBody::Planet { name, .. } => "Hello, planet "@ + name@ + "!"@,
        CelestialBody::Asteroid(_, _) => "Watch out for that asteroid!"@,
        CelestialBody::BlackHole => "Don't get too close to the black hole!"@,
    }
}

impl<M> CelestialBody<M> {
    /// The operands of the surface gravity `G * mass / radius^2`: the length
    /// that gives the radius, and the mass. A black hole has no surface
    /// gravity in this model, and so no operands.
    pub fn gravity_operands(&self) -> (r: Option<(Extent<'_, M>, &M)>)
        ensures
            match *self {
                CelestialBody::BlackHole => r is None,
                CelestialBody::Asteroid(diameter, mass) => r matches Some((Extent::Diameter(d), m))
                    && *d == diameter && *m == mass,
                CelestialBody::Planet { radius, mass, .. } => r matches Some((Extent::Radius(x), m))
                    && *x == radius && *m == mass,
            },
    {
        match self {
            CelestialBody::Planet { radius, mass, .. } => Some((Extent::Radius(radius), mass)),
            CelestialBody::Asteroid(diameter, mass) => Some((Extent::Diameter(diameter), mass)),
            CelestialBody::BlackHole => None,
        }
    }

    /// The line with which the body is greeted.
    pub fn greeting(&self) -> (r: String)
        ensures
            r@ == greeting_text(*self),
    {
        match self {
            CelestialBody::Planet { name, .. } => {
                let mut line = String::from_str("Hello, planet ");
                line.append(name.as_str());
                line.append("!");
                line
            },
            CelestialBody::Asteroid(_, _) => String::from_str("Watch out for that asteroid!"),
            CelestialBody::BlackHole => String::from_str("Don't get too close to the black hole!"),
        }
    }
}

} // verus!
