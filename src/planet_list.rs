use vstd::prelude::*;

use crate::planet::Planet;

verus! {

/// A singly linked list of planets; each node owns its planet and the rest of
/// the list.
#[derive(Debug)]
pub enum PlanetList<M> {
    Cons(Planet<M>, Box<PlanetList<M>>),
    Nil,
}

/// The sequence `s` with `p` put in front of it.
pub open spec fn prepended<M>(s: Seq<Planet<M>>, p: Planet<M>) -> Seq<Planet<M>> {
    seq![p] + s
}

/// The planets of a list, from its head to its end.
pub open spec fn planets_of<M>(l: PlanetList<M>) -> Seq<Planet<M>>
    decreases l,
{
    match l {
        PlanetList::Cons(p, tail) => prepended(planets_of(*tail), p),
        PlanetList::Nil => Seq::empty(),
    }
}

impl<M> View for PlanetList<M> {
    type V = Seq<Planet<M>>;

    open spec fn view(&self) -> Seq<Planet<M>> {
        planets_of(*self)
    }
}

impl<M> PlanetList<M> {
    /// The empty list.
    pub fn new() -> (r: Self)
        ensures
            r@ == Seq::<Planet<M>>::empty(),
    {
        PlanetList::Nil
    }

    /// Consumes the list and the planet and returns the list with the planet
    /// at its head.
    pub fn prepend(self, planet: Planet<M>) -> (r: Self)
        ensures
            r@ == prepended(self@, planet),
    {
        PlanetList::Cons(planet, Box::new(self))
    }

    /// The number of planets in the list.
    pub fn len(&self) -> (r: usize)
        requires
            self@.len() <= usize::MAX,
        ensures
            r == self@.len(),
        decreases self,
    {
        match self {
            PlanetList::Cons(_, tail) => 1 + tail.len(),
            PlanetList::Nil => 0,
        }
    }
}

/// Putting three planets one after another at the head of an empty list
/// gives a list of three, the last one put first.
pub proof fn prepend_three_order<M>(p1: Planet<M>, p2: Planet<M>, p3: Planet<M>)
    ensures
        ({
            let s = prepended(prepended(prepended(Seq::<Planet<M>>::empty(), p1), p2), p3);
            s.len() == 3 && s == seq![p3, p2, p1]
        }),
{
    let s = prepended(prepended(prepended(Seq::<Planet<M>>::empty(), p1), p2), p3);
    assert(s =~= seq![p3, p2, p1]);
}

} // verus!
