use vstd::prelude::*;

verus! {

/// The closed set of block kinds. Banks are a kind of building.
#[derive(Clone, Copy, Debug, PartialEq, Eq, Structural)]
pub enum Category {
    Attacker,
    Defender,
    Mine,
    Building,
}

/// Whether rows of this category carry a damage value.
pub open spec fn has_damage(c: Category) -> bool {
    c == Category::Attacker || c == Category::Defender || c == Category::Mine
}

/// Whether rows of this category carry a maximum health value.
pub open spec fn has_max_health(c: Category) -> bool {
    c == Category::Attacker
}

/// Whether rows of this category carry a radius value.
pub open spec fn has_radius(c: Category) -> bool {
    c == Category::Attacker || c == Category::Defender || c == Category::Mine
}

/// Whether rows of this category carry a speed value.
pub open spec fn has_speed(c: Category) -> bool {
    c == Category::Attacker || c == Category::Defender
}

/// Whether rows of this category carry an artifact capacity.
pub open spec fn has_artifact_capacity(c: Category) -> bool {
    c == Category::Building
}

} // verus!
