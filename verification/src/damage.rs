//! Damage levels, ordered `Nothing < Partial < Frame`.
use std::cmp::Ordering;
use vstd::prelude::*;

verus! {

/// Used to determine damage nodes.
#[derive(Copy, Clone, Debug, PartialEq, Eq, Structural, Ord)]
pub enum Damage {
    /// Nothing needs to be damaged
    Nothing,
    /// Something needs to be damaged
    Partial,
    /// Damage then request a new frame.
    /// Usefull for animations
    Frame,
}

/// The position of a damage level in the order `Nothing < Partial < Frame`.
pub open spec fn rank(d: Damage) -> int {
    match d {
        Damage::Nothing => 0,
        Damage::Partial => 1,
        Damage::Frame => 2,
    }
}

/// The larger of two damage levels.
pub open spec fn max_damage(a: Damage, b: Damage) -> Damage {
    if rank(a) >= rank(b) {
        a
    } else {
        b
    }
}

/// How two damage levels compare in the order `Nothing < Partial < Frame`.
pub open spec fn damage_order(a: Damage, b: Damage) -> Ordering {
    if rank(a) < rank(b) {
        Ordering::Less
    } else if rank(a) == rank(b) {
        Ordering::Equal
    } else {
        Ordering::Greater
    }
}

impl Default for Damage {
    fn default() -> (r: Self)
        ensures
            r == Damage::Nothing,
    {
        Damage::Nothing
    }
}

impl Damage {
    pub fn is_none(&self) -> (r: bool)
        ensures
            r == (*self == Damage::Nothing),
    {
        match self {
            Damage::Nothing => true,
            _ => false,
        }
    }

    pub fn is_some(&self) -> (r: bool)
        ensures
            r == (*self != Damage::Nothing),
    {
        !self.is_none()
    }

    /// The larger of `self` and `other`.
    pub fn max(self, other: Self) -> (r: Self)
        ensures
            r == max_damage(self, other),
    {
        match (self, other) {
            (Damage::Frame, _) => Damage::Frame,
            (_, Damage::Frame) => Damage::Frame,
            (Damage::Partial, _) => Damage::Partial,
            (_, Damage::Partial) => Damage::Partial,
            _ => Damage::Nothing,
        }
    }

    /// Raises the damage to at least `Partial` and returns the new level.
    pub fn upgrade(&mut self) -> (r: Self)
        ensures
            *final(self) == max_damage(*old(self), Damage::Partial),
            r == *final(self),
    {
        *self = (*self).max(Damage::Partial);
        *self
    }
}

impl PartialOrd for Damage {
    fn partial_cmp(&self, other: &Self) -> (r: Option<Ordering>) {
        Some(
            match self {
                Self::Nothing => match other {
                    Self::Nothing => Ordering::Equal,
                    _ => Ordering::Less,
                },
                Self::Partial => match other {
                    Self::Nothing => Ordering::Greater,
                    Self::Partial => Ordering::Equal,
                    _ => Ordering::Less,
                },
                Self::Frame => match other {
                    Self::Frame => Ordering::Equal,
                    _ => Ordering::Greater,
                },
            },
        )
    }
}

impl vstd::std_specs::cmp::PartialOrdSpecImpl for Damage {
    open spec fn obeys_partial_cmp_spec() -> bool {
        true
    }

    open spec fn partial_cmp_spec(&self, other: &Damage) -> Option<Ordering> {
        Some(damage_order(*self, *other))
    }
}

/// Raising a damage level with `max` is commutative.
pub proof fn lemma_max_commutative(a: Damage, b: Damage)
    ensures
        max_damage(a, b) == max_damage(b, a),
{
}

/// Raising a damage level with `max` is associative.
pub proof fn lemma_max_associative(a: Damage, b: Damage, c: Damage)
    ensures
        max_damage(max_damage(a, b), c) == max_damage(a, max_damage(b, c)),
{
}

/// `max` is an upper bound of both levels, is one of them, and keeps a level unchanged when
/// combined with itself.
pub proof fn lemma_max_bound(a: Damage, b: Damage)
    ensures
        rank(max_damage(a, b)) >= rank(a),
        rank(max_damage(a, b)) >= rank(b),
        max_damage(a, b) == a || max_damage(a, b) == b,
        max_damage(a, a) == a,
        max_damage(a, Damage::Nothing) == a,
        max_damage(a, Damage::Frame) == Damage::Frame,
{
}

/// After an upgrade the damage is at least `Partial`; a second upgrade changes nothing, and
/// an upgrade never lowers a level.
pub proof fn lemma_upgrade(d: Damage)
    ensures
        rank(max_damage(d, Damage::Partial)) >= 1,
        rank(max_damage(d, Damage::Partial)) >= rank(d),
        max_damage(max_damage(d, Damage::Partial), Damage::Partial) == max_damage(
            d,
            Damage::Partial,
        ),
        max_damage(d, Damage::Partial) == Damage::Partial <==> d != Damage::Frame,
{
}

/// The order is total, antisymmetric and transitive, and agrees with equality.
pub proof fn lemma_order_total(a: Damage, b: Damage, c: Damage)
    ensures
        damage_order(a, b) == Ordering::Equal <==> a == b,
        damage_order(a, b) == Ordering::Less <==> damage_order(b, a) == Ordering::Greater,
        damage_order(a, b) == Ordering::Less && damage_order(b, c) == Ordering::Less
            ==> damage_order(a, c) == Ordering::Less,
        damage_order(a, b) != Ordering::Greater <==> max_damage(a, b) == b,
{
}

} // verus!
