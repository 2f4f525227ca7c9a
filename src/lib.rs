//! Celestial bodies modelled as closed sum types, and a singly linked list of
//! planets.
//!
//! Measurements (radii, diameters, masses, periods) are held as values of a
//! type parameter `M`; the arithmetic on them is left to the caller, while the
//! choice of which measurements enter a formula is made and proved here.
pub mod body;
pub mod celestial_body;
pub mod planet;
pub mod planet_list;
