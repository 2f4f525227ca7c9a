use vstd::prelude::*;
use vstd::string::*;

verus! {

/// A planet: its name, its radius in metres and its mass in kilograms.
#[derive(Debug, Clone)]
pub struct Planet<M> {
    pub name: String,
    pub radius: M,
    pub mass: M,
}

/// The farewell line for a planet called `name`.
pub open spec fn farewell_text(name: Seq<char>) -> Seq<char> {
    "Farewell, "@ + name + "!"@
}

/// The one name that marks a planet as ringed.
pub open spec fn ringed_name() -> Seq<char> {
    "Saturn"@
}

impl<M> Planet<M> {
    /// Builds a planet from its parts; nothing is validated.
    pub fn new(name: &str, radius: M, mass: M) -> (r: Self)
        ensures
            r.name@ == name@,
            r.radius == radius,
            r.mass == mass,
    {
        Planet { name: String::from_str(name), radius, mass }
    }

    /// Whether the planet has a ring system, which this model grants to the
    /// planet named exactly `Saturn` alone.
    pub fn has_rings(&self) -> (r: bool)
        ensures
            r == (self.name@ == ringed_name()),
    {
        self.name == String::from_str("Saturn")
    }

    /// Consumes the planet, which can no longer be used, and returns its
    /// farewell line.
    pub fn annihilate(self) -> (r: String)
        ensures
            r@ == farewell_text(self.name@),
    {
        let mut line = String::from_str("Farewell, ");
        line.append(self.name.as_str());
        line.append("!");
        line
    }
}

} // verus!
