//! Contact between two round bodies, and the colours that show it.

use crate::vector::{lemma_dist_sq_symmetric, Point3};
use vstd::prelude::*;

verus! {

/// A display colour: 8-bit sRGB channels.
#[derive(Clone, Copy, Debug, PartialEq, Eq, Structural)]
pub struct Color {
    pub red: u8,
    pub green: u8,
    pub blue: u8,
}

impl Color {
    /// The colour with the given channels.
    pub fn rgb(red: u8, green: u8, blue: u8) -> (color: Color)
        ensures
            color == (Color { red, green, blue }),
    {
        Color { red, green, blue }
    }
}

/// The three colours of a pair of bodies.
#[derive(Clone, Copy, Debug, PartialEq, Eq, Structural)]
pub struct Palette {
    /// Shown by both bodies while they are in contact.
    pub contact: Color,
    /// Shown by the first body while the two are clear of each other.
    pub clear_primary: Color,
    /// Shown by the second body while the two are clear of each other.
    pub clear_secondary: Color,
}

impl Default for Palette {
    /// Green for contact; red for the first body and blue for the second while
    /// they are clear.
    fn default() -> (palette: Palette)
        ensures
            palette.contact == (Color { red: 0, green: 255, blue: 0 }),
            palette.clear_primary == (Color { red: 255, green: 0, blue: 0 }),
            palette.clear_secondary == (Color { red: 0, green: 0, blue: 255 }),
    {
        Palette {
            contact: Color { red: 0, green: 255, blue: 0 },
            clear_primary: Color { red: 255, green: 0, blue: 0 },
            clear_secondary: Color { red: 0, green: 0, blue: 255 },
        }
    }
}

/// A body that takes part in contact checks: a ball about `position`.
#[derive(Clone, Copy, Debug, PartialEq, Eq, Structural)]
pub struct Collidable {
    pub position: Point3,
    pub collision_radius: u32,
}

impl Collidable {
    /// The distance below which `self` and `other` are in contact: the sum of
    /// their radii.
    pub open spec fn reach(self, other: Collidable) -> int {
        self.collision_radius + other.collision_radius
    }

    /// Two bodies are in contact when their centres are strictly closer than the
    /// sum of their radii. Both sides are compared squared, which for
    /// non-negative lengths is the same comparison.
    pub open spec fn touches(self, other: Collidable) -> bool {
        self.position.dist_sq(other.position) < self.reach(other) * self.reach(other)
    }

    /// Whether `self` and `other` are in contact.
    pub fn in_contact(&self, other: &Collidable) -> (contact: bool)
        ensures
            contact == self.touches(*other),
    {
        let reach: u128 = self.collision_radius as u128 + other.collision_radius as u128;
        assert(reach * reach < 0x4_0000_0000_0000_0000) by (nonlinear_arith)
            requires
                0 <= reach < 0x2_0000_0000;
        self.position.distance_squared(&other.position) < reach * reach
    }
}

/// The colours of two bodies: the shared contact colour for both while they
/// touch, else the primary colour for the first and the secondary for the second.
pub open spec fn directive(a: Collidable, b: Collidable, palette: Palette) -> (Color, Color) {
    if a.touches(b) {
        (palette.contact, palette.contact)
    } else {
        (palette.clear_primary, palette.clear_secondary)
    }
}

/// Colours for the bodies `a` and `b`, in this order.
///
/// In contact both get `palette.contact`. Clear of each other, `a` gets
/// `palette.clear_primary` and `b` gets `palette.clear_secondary`, wherever the
/// two lie.
pub fn evaluate(a: &Collidable, b: &Collidable, palette: &Palette) -> (colors: (Color, Color))
    ensures
        colors == directive(*a, *b, *palette),
        a.touches(*b) ==> colors.0 == palette.contact && colors.1 == palette.contact,
        !a.touches(*b) ==> colors.0 == palette.clear_primary && colors.1
            == palette.clear_secondary,
{
    if a.in_contact(b) {
        (palette.contact, palette.contact)
    } else {
        (palette.clear_primary, palette.clear_secondary)
    }
}

/// Colours for the first two bodies of `entities`, which take part in the check
/// in the order in which they are listed; further bodies are not looked at. With
/// fewer than two bodies there is nothing to compare, and no colour is given.
pub fn check_collision(entities: &[Collidable], palette: &Palette) -> (colors: Option<
    (Color, Color),
>)
    ensures
        entities@.len() < 2 ==> colors is None,
        entities@.len() >= 2 ==> colors == Some(directive(entities@[0], entities@[1], *palette)),
{
    if entities.len() < 2 {
        None
    } else {
        Some(evaluate(&entities[0], &entities[1], palette))
    }
}

/// Contact does not depend on which of the two bodies is asked.
pub proof fn lemma_contact_symmetric(a: Collidable, b: Collidable)
    ensures
        a.touches(b) == b.touches(a),
{
    lemma_dist_sq_symmetric(a.position, b.position);
}

/// Contact means that the distance between the centres is strictly below the sum
/// of the radii. With `whole` the whole part of that distance, the largest number
/// whose square does not exceed the squared distance, the bodies touch exactly
/// when `whole` is below the sum; at a distance equal to the sum they are clear.
pub proof fn lemma_contact_boundary(a: Collidable, b: Collidable, whole: nat)
    requires
        whole * whole <= a.position.dist_sq(b.position) < (whole + 1) * (whole + 1),
    ensures
        a.touches(b) <==> whole < a.reach(b),
{
    let reach = a.reach(b);
    if whole < reach {
        assert((whole + 1) * (whole + 1) <= reach * reach) by (nonlinear_arith)
            requires
                0 <= whole + 1 <= reach;
    } else {
        assert(reach * reach <= whole * whole) by (nonlinear_arith)
            requires
                0 <= reach <= whole;
    }
}

} // verus!
