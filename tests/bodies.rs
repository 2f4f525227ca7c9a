use celestial::body::Body;
use celestial::celestial_body::{CelestialBody, Extent};
use celestial::planet::Planet;
use celestial::planet_list::PlanetList;

#[test]
fn black_hole_has_no_gravity_operands() {
    let b: CelestialBody<f64> = CelestialBody::BlackHole;
    assert!(b.gravity_operands().is_none());
}

#[test]
fn planet_gravity_reads_radius_and_mass() {
    let b = CelestialBody::Planet { name: "Earth".to_string(), radius: 6.378e6, mass: 5.972e24 };
    match b.gravity_operands() {
        Some((Extent::Radius(r), m)) => {
            assert_eq!(*r, 6.378e6);
            assert_eq!(*m, 5.972e24);
        }
        _ => panic!("a planet reads its radius"),
    }
}

#[test]
fn asteroid_gravity_reads_diameter_and_mass() {
    let b = CelestialBody::Asteroid(9.46e5, 9.393e20);
    match b.gravity_operands() {
        Some((Extent::Diameter(d), m)) => {
            assert_eq!(*d, 9.46e5);
            assert_eq!(*m, 9.393e20);
        }
        _ => panic!("an asteroid reads its diameter"),
    }
}

#[test]
fn greetings_per_variant() {
    let earth = CelestialBody::Planet { name: "Earth".to_string(), radius: 6.378e6, mass: 5.972e24 };
    assert_eq!(earth.greeting(), "Hello, planet Earth!");
    assert_eq!(CelestialBody::Asteroid(9.46e5, 9.393e20).greeting(), "Watch out for that asteroid!");
    let hole: CelestialBody<f64> = CelestialBody::BlackHole;
    assert_eq!(hole.greeting(), "Don't get too close to the black hole!");
}

#[test]
fn new_planet_keeps_its_parts() {
    let p = Planet::new("Earth", 6.378e6, 5.972e24);
    assert_eq!(p.name, "Earth");
    assert_eq!(p.radius, 6.378e6);
    assert_eq!(p.mass, 5.972e24);
}

#[test]
fn only_saturn_has_rings() {
    assert!(Planet::new("Saturn", 5.8232e7, 5.683e26).has_rings());
    assert!(!Planet::new("saturn", 5.8232e7, 5.683e26).has_rings());
    assert!(!Planet::new("Saturn ", 5.8232e7, 5.683e26).has_rings());
    assert!(!Planet::new("Earth", 6.378e6, 5.972e24).has_rings());
    assert!(!Planet::new("", 1.0, 1.0).has_rings());
}

#[test]
fn annihilate_returns_farewell() {
    let p = Planet::new("Mars", 3.3895e6, 6.39e23);
    assert_eq!(p.annihilate(), "Farewell, Mars!");
}

#[test]
fn body_names() {
    let comet = Body::Comet { name: "Halley".to_string(), period: 76.0 };
    assert_eq!(comet.name(), "Halley");
    let star: Body<f64> = Body::Star;
    assert_eq!(star.name(), "Star");
    let planet = Body::Planet(Planet::new("Jupiter", 6.9911e7, 1.898e27));
    assert_eq!(planet.name(), "Jupiter");
}

#[test]
fn empty_list_has_length_zero() {
    let l: PlanetList<f64> = PlanetList::new();
    assert_eq!(l.len(), 0);
}

#[test]
fn three_prepends_give_reverse_order() {
    let l = PlanetList::new()
        .prepend(Planet::new("Mercury", 2.4397e6, 3.301e23))
        .prepend(Planet::new("Venus", 6.0518e6, 4.867e24))
        .prepend(Planet::new("Earth", 6.378e6, 5.972e24));
    assert_eq!(l.len(), 3);
    let mut names = Vec::new();
    let mut cur = &l;
    while let PlanetList::Cons(p, tail) = cur {
        names.push(p.name.clone());
        cur = tail;
    }
    assert_eq!(names, vec!["Earth", "Venus", "Mercury"]);
}
