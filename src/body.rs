use vstd::prelude::*;

use crate::planet::Planet;

verus! {

/// A body of the sky: a planet, a star or a comet.
#[derive(Debug, Clone)]
pub enum Body<M> {
    Planet(Planet<M>),
    Star,
    /// A comet with its name and orbital period.
    Comet { name: String, period: M },
}

/// The name by which a body is known.
pub open spec fn body_name<M>(b: Body<M>) -> Seq<char> {
    match b {
        Body::Planet(p) => p.name@,
        Body::Star => "Star"@,
        Body::Comet { name, .. } => name@,
    }
}

impl<M> Body<M> {
    /// The planet's or the comet's own name, and `Star` for a star.
    pub fn name(&self) -> (r: &str)
        ensures
            r@ == body_name(*self),
    {
        match self {
            Body::Planet(p) => p.name.as_str(),
            Body::Star => "Star",
            Body::Comet { name, .. } => name.as_str(),
        }
    }
}

} // verus!
