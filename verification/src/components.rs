//! The striped donut: a recipe with four layers and wider rings than the plain
//! one. Its variants are signed integers; only the non-negative ones below the
//! size of the ring name a sprite.

use crate::component::{
    cycled_left, cycled_right, lemma_cycle_inverse, lemma_cycled_left, lemma_cycled_right, on_ring,
};
use vstd::prelude::*;

verus! {

/// Remainder of `value` by `count` with the sign of `value`, as the machine
/// computes it for signed integers.
pub open spec fn signed_rem(value: int, count: int) -> int
    recommends
        count > 0,
{
    if value >= 0 {
        value % count
    } else {
        -((-value) % count)
    }
}

/// Where one step to the right takes a signed variant.
pub open spec fn signed_cycled_right(value: int, count: int) -> int
    recommends
        count > 0,
{
    signed_rem(value + count + 1, count)
}

/// Where one step to the left takes a signed variant.
pub open spec fn signed_cycled_left(value: int, count: int) -> int
    recommends
        count > 0,
{
    signed_rem(value + count - 1, count)
}

/// On the ring, a signed step is the step of the ring: it lands on the
/// neighbouring variant and wraps at either end.
pub proof fn lemma_signed_cycle_on_ring(value: int, count: int)
    requires
        on_ring(value, count),
    ensures
        signed_cycled_right(value, count) == cycled_right(value, count),
        signed_cycled_left(value, count) == cycled_left(value, count),
        on_ring(signed_cycled_right(value, count), count),
        on_ring(signed_cycled_left(value, count), count),
{
    lemma_cycled_right(value, count);
    lemma_cycled_left(value, count);
}

/// On the ring, a signed step to the left and one to the right undo each
/// other, whichever comes first.
pub proof fn lemma_signed_cycle_inverse(value: int, count: int)
    requires
        on_ring(value, count),
    ensures
        signed_cycled_right(signed_cycled_left(value, count), count) == value,
        signed_cycled_left(signed_cycled_right(value, count), count) == value,
{
    lemma_signed_cycle_on_ring(value, count);
    lemma_signed_cycle_on_ring(cycled_left(value, count), count);
    lemma_signed_cycle_on_ring(cycled_right(value, count), count);
    lemma_cycle_inverse(value, count);
}

/// A layer of the striped donut, drawn from a run of consecutive sprites.
pub trait ToSpriteIndex: Sized {
    /// Sheet index of the layer's first sprite.
    const START_SPRITE_INDEX: usize = 0;

    /// How many variants the layer has.
    const SPRITES_COUNT: usize = 1;

    /// `START_SPRITE_INDEX`, as contracts see it.
    spec fn start() -> nat;

    /// `SPRITES_COUNT`, as contracts see it.
    spec fn count() -> nat;

    /// The number the layer currently holds.
    spec fn variant(&self) -> int;

    /// Sheet index of the sprite that shows the current variant.
    fn to_sprite_index(&self) -> (index: usize)
        requires
            0 <= self.variant(),
            Self::start() + self.variant() <= usize::MAX,
        ensures
            index == Self::start() + self.variant(),
    ;

    /// Moves to the next variant; after the last comes the first.
    fn cycle_right(&mut self) -> (cycled: &mut Self)
        requires
            0 < Self::count() <= i32::MAX,
            old(self).variant() + Self::count() + 1 <= i32::MAX,
        ensures
            cycled.variant() == signed_cycled_right(old(self).variant(), Self::count() as int),
            *final(self) == *final(cycled),
    ;

    /// Moves to the previous variant; before the first comes the last.
    fn cycle_left(&mut self) -> (cycled: &mut Self)
        requires
            0 < Self::count() <= i32::MAX,
            old(self).variant() + Self::count() <= i32::MAX,
        ensures
            cycled.variant() == signed_cycled_left(old(self).variant(), Self::count() as int),
            *final(self) == *final(cycled),
    ;
}

/// The dough of a striped donut.
#[derive(PartialEq, Eq, Debug, Copy, Clone, Structural)]
pub struct Base(pub i32);

impl ToSpriteIndex for Base {
    const START_SPRITE_INDEX: usize = 0;

    const SPRITES_COUNT: usize = 3;

    open spec fn start() -> nat {
        0
    }

    open spec fn count() -> nat {
        3
    }

    open spec fn variant(&self) -> int {
        self.0 as int
    }

    fn to_sprite_index(&self) -> (index: usize) {
        Self::START_SPRITE_INDEX + (self.0 as usize)
    }

    fn cycle_right(&mut self) -> (cycled: &mut Self) {
        self.0 = (self.0 + Self::SPRITES_COUNT as i32 + 1) % Self::SPRITES_COUNT as i32;
        self
    }

    fn cycle_left(&mut self) -> (cycled: &mut Self) {
        self.0 = (self.0 + Self::SPRITES_COUNT as i32 - 1) % Self::SPRITES_COUNT as i32;
        self
    }
}

/// The glazing of a striped donut.
#[derive(PartialEq, Eq, Debug, Copy, Clone, Structural)]
pub struct Glazing(pub i32);

impl ToSpriteIndex for Glazing {
    const START_SPRITE_INDEX: usize = 3;

    const SPRITES_COUNT: usize = 10;

    open spec fn start() -> nat {
        3
    }

    open spec fn count() -> nat {
        10
    }

    open spec fn variant(&self) -> int {
        self.0 as int
    }

    fn to_sprite_index(&self) -> (index: usize) {
        Self::START_SPRITE_INDEX + (self.0 as usize)
    }

    fn cycle_right(&mut self) -> (cycled: &mut Self) {
        self.0 = (self.0 + Self::SPRITES_COUNT as i32 + 1) % Self::SPRITES_COUNT as i32;
        self
    }

    fn cycle_left(&mut self) -> (cycled: &mut Self) {
        self.0 = (self.0 + Self::SPRITES_COUNT as i32 - 1) % Self::SPRITES_COUNT as i32;
        self
    }
}

/// The sprinkles of a striped donut.
#[derive(PartialEq, Eq, Debug, Copy, Clone, Structural)]
pub struct Sprinkles(pub i32);

impl ToSpriteIndex for Sprinkles {
    const START_SPRITE_INDEX: usize = 13;

    const SPRITES_COUNT: usize = 9;

    open spec fn start() -> nat {
        13
    }

    open spec fn count() -> nat {
        9
    }

    open spec fn variant(&self) -> int {
        self.0 as int
    }

    fn to_sprite_index(&self) -> (index: usize) {
        Self::START_SPRITE_INDEX + (self.0 as usize)
    }

    fn cycle_right(&mut self) -> (cycled: &mut Self) {
        self.0 = (self.0 + Self::SPRITES_COUNT as i32 + 1) % Self::SPRITES_COUNT as i32;
        self
    }

    fn cycle_left(&mut self) -> (cycled: &mut Self) {
        self.0 = (self.0 + Self::SPRITES_COUNT as i32 - 1) % Self::SPRITES_COUNT as i32;
        self
    }
}

/// The stripes drawn across a striped donut.
#[derive(PartialEq, Eq, Debug, Copy, Clone, Structural)]
pub struct Stripes(pub i32);

impl ToSpriteIndex for Stripes {
    const START_SPRITE_INDEX: usize = 15;

    const SPRITES_COUNT: usize = 4;

    open spec fn start() -> nat {
        15
    }

    open spec fn count() -> nat {
        4
    }

    open spec fn variant(&self) -> int {
        self.0 as int
    }

    fn to_sprite_index(&self) -> (index: usize) {
        Self::START_SPRITE_INDEX + (self.0 as usize)
    }

    fn cycle_right(&mut self) -> (cycled: &mut Self) {
        self.0 = (self.0 + Self::SPRITES_COUNT as i32 + 1) % Self::SPRITES_COUNT as i32;
        self
    }

    fn cycle_left(&mut self) -> (cycled: &mut Self) {
        self.0 = (self.0 + Self::SPRITES_COUNT as i32 - 1) % Self::SPRITES_COUNT as i32;
        self
    }
}

} // verus!
