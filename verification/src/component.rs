//! The three layers of a donut. Each layer is a variant picked from a ring of
//! sprites; turning the ring left or right is all a cook can do to it.

use vstd::arithmetic::div_mod::lemma_fundamental_div_mod_converse;
use vstd::prelude::*;

verus! {

/// Number of donut bases on the sprite sheet.
pub const BASES: usize = 3;

/// Number of glazings on the sprite sheet.
pub const GLAZINGS: usize = 6;

/// Number of sprinkles on the sprite sheet.
pub const SPRINKLES: usize = 7;

/// The variant that follows `value` on a ring of `count` variants.
pub open spec fn cycled_right(value: int, count: int) -> int
    recommends
        count > 0,
{
    (value + count + 1) % count
}

/// The variant that precedes `value` on a ring of `count` variants.
pub open spec fn cycled_left(value: int, count: int) -> int
    recommends
        count > 0,
{
    (value + count - 1) % count
}

/// Whether `value` names one of the `count` variants of a ring.
pub open spec fn on_ring(value: int, count: int) -> bool {
    0 <= value < count
}

/// One step to the right lands on the next variant, and the last variant is
/// followed by the first.
pub proof fn lemma_cycled_right(value: int, count: int)
    requires
        on_ring(value, count),
    ensures
        cycled_right(value, count) == if value + 1 == count {
            0
        } else {
            value + 1
        },
        on_ring(cycled_right(value, count), count),
{
    if value + 1 == count {
        lemma_fundamental_div_mod_converse(value + count + 1, count, 2, 0);
    } else {
        lemma_fundamental_div_mod_converse(value + count + 1, count, 1, value + 1);
    }
}

/// One step to the left lands on the previous variant, and the first variant
/// is preceded by the last.
pub proof fn lemma_cycled_left(value: int, count: int)
    requires
        on_ring(value, count),
    ensures
        cycled_left(value, count) == if value == 0 {
            count - 1
        } else {
            value - 1
        },
        on_ring(cycled_left(value, count), count),
{
    if value == 0 {
        lemma_fundamental_div_mod_converse(value + count - 1, count, 0, count - 1);
    } else {
        lemma_fundamental_div_mod_converse(value + count - 1, count, 1, value - 1);
    }
}

/// Turning a ring one step left and then one step right, or one step right
/// and then one step left, returns to the variant it started from.
pub proof fn lemma_cycle_inverse(value: int, count: int)
    requires
        on_ring(value, count),
    ensures
        cycled_right(cycled_left(value, count), count) == value,
        cycled_left(cycled_right(value, count), count) == value,
{
    lemma_cycled_left(value, count);
    lemma_cycled_right(value, count);
    lemma_cycled_right(cycled_left(value, count), count);
    lemma_cycled_left(cycled_right(value, count), count);
}

/// A donut layer that is drawn from a run of consecutive sprites.
pub trait ToSpriteIndex: Sized {
    /// Sheet index of the layer's first sprite.
    const START_SPRITE_INDEX: usize = 0;

    /// How many variants the layer has.
    const SPRITES_COUNT: usize = 1;

    /// `START_SPRITE_INDEX`, as contracts see it.
    spec fn start() -> nat;

    /// `SPRITES_COUNT`, as contracts see it.
    spec fn count() -> nat;

    /// The variant the layer currently shows, counted from zero.
    spec fn variant(&self) -> nat;

    /// Sheet index of the sprite that shows the current variant.
    fn to_sprite_index(&self) -> (index: usize)
        requires
            Self::start() + self.variant() <= usize::MAX,
        ensures
            index == Self::start() + self.variant(),
    ;

    /// Moves to the next variant; after the last comes the first.
    fn cycle_right(&mut self) -> (cycled: &mut Self)
        requires
            Self::count() > 0,
            old(self).variant() + Self::count() + 1 <= usize::MAX,
        ensures
            cycled.variant() == cycled_right(old(self).variant() as int, Self::count() as int),
            on_ring(cycled.variant() as int, Self::count() as int),
            *final(self) == *final(cycled),
    ;

    /// Moves to the previous variant; before the first comes the last.
    fn cycle_left(&mut self) -> (cycled: &mut Self)
        requires
            Self::count() > 0,
            old(self).variant() + Self::count() <= usize::MAX,
        ensures
            cycled.variant() == cycled_left(old(self).variant() as int, Self::count() as int),
            on_ring(cycled.variant() as int, Self::count() as int),
            *final(self) == *final(cycled),
    ;
}

/// The dough of a donut.
#[derive(PartialEq, Eq, Debug, Copy, Clone, Structural)]
pub struct Base(pub usize);

impl ToSpriteIndex for Base {
    const START_SPRITE_INDEX: usize = 0;

    const SPRITES_COUNT: usize = BASES;

    open spec fn start() -> nat {
        0
    }

    open spec fn count() -> nat {
        BASES as nat
    }

    open spec fn variant(&self) -> nat {
        self.0 as nat
    }

    fn to_sprite_index(&self) -> (index: usize) {
        Self::START_SPRITE_INDEX + self.0
    }

    fn cycle_right(&mut self) -> (cycled: &mut Self) {
        self.0 = (self.0 + Self::SPRITES_COUNT + 1) % Self::SPRITES_COUNT;
        self
    }

    fn cycle_left(&mut self) -> (cycled: &mut Self) {
        self.0 = (self.0 + Self::SPRITES_COUNT - 1) % Self::SPRITES_COUNT;
        self
    }
}

impl Default for Base {
    fn default() -> (base: Self)
        ensures
            base.0 == 0,
    {
        Base(0)
    }
}

/// The glazing poured over the base.
#[derive(PartialEq, Eq, Debug, Copy, Clone, Structural)]
pub struct Glazing(pub usize);

impl ToSpriteIndex for Glazing {
    const START_SPRITE_INDEX: usize = 3;

    const SPRITES_COUNT: usize = GLAZINGS;

    open spec fn start() -> nat {
        3
    }

    open spec fn count() -> nat {
        GLAZINGS as nat
    }

    open spec fn variant(&self) -> nat {
        self.0 as nat
    }

    fn to_sprite_index(&self) -> (index: usize) {
        Self::START_SPRITE_INDEX + self.0
    }

    fn cycle_right(&mut self) -> (cycled: &mut Self) {
        self.0 = (self.0 + Self::SPRITES_COUNT + 1) % Self::SPRITES_COUNT;
        self
    }

    fn cycle_left(&mut self) -> (cycled: &mut Self) {
        self.0 = (self.0 + Self::SPRITES_COUNT - 1) % Self::SPRITES_COUNT;
        self
    }
}

impl Default for Glazing {
    fn default() -> (glazing: Self)
        ensures
            glazing.0 == 0,
    {
        Glazing(0)
    }
}

/// The sprinkles scattered on the glazing.
#[derive(PartialEq, Eq, Debug, Copy, Clone, Structural)]
pub struct Sprinkles(pub usize);

impl ToSpriteIndex for Sprinkles {
    const START_SPRITE_INDEX: usize = 13;

    const SPRITES_COUNT: usize = SPRINKLES;

    open spec fn start() -> nat {
        13
    }

    open spec fn count() -> nat {
        SPRINKLES as nat
    }

    open spec fn variant(&self) -> nat {
        self.0 as nat
    }

    fn to_sprite_index(&self) -> (index: usize) {
        Self::START_SPRITE_INDEX + self.0
    }

    fn cycle_right(&mut self) -> (cycled: &mut Self) {
        self.0 = (self.0 + Self::SPRITES_COUNT + 1) % Self::SPRITES_COUNT;
        self
    }

    fn cycle_left(&mut self) -> (cycled: &mut Self) {
        self.0 = (self.0 + Self::SPRITES_COUNT - 1) % Self::SPRITES_COUNT;
        self
    }
}

impl Default for Sprinkles {
    fn default() -> (sprinkles: Self)
        ensures
            sprinkles.0 == 0,
    {
        Sprinkles(0)
    }
}

/// Marks a bundle of layers as a donut.
#[derive(PartialEq, Eq, Debug, Copy, Clone, Structural)]
pub struct Donut;

impl Default for Donut {
    fn default() -> (donut: Self) {
        Donut
    }
}

/// A donut with the variant of each of its layers.
#[derive(PartialEq, Eq, Debug, Copy, Clone, Structural)]
pub struct DonutBundle {
    pub donut: Donut,
    pub base: Base,
    pub glazing: Glazing,
    pub sprinkles: Sprinkles,
}

impl DonutBundle {
    /// Whether every layer shows a variant that exists on the sprite sheet.
    pub open spec fn wf(&self) -> bool {
        &&& self.base.0 < BASES
        &&& self.glazing.0 < GLAZINGS
        &&& self.sprinkles.0 < SPRINKLES
    }

    /// A plain donut: the first variant of every layer.
    pub fn new() -> (donut: Self)
        ensures
            donut == (DonutBundle { donut: Donut, base: Base(0), glazing: Glazing(0), sprinkles: Sprinkles(0) }),
            donut.wf(),
    {
        DonutBundle { donut: Donut, base: Base(0), glazing: Glazing(0), sprinkles: Sprinkles(0) }
    }

    /// Tells at run time whether the donut is well formed.
    pub fn is_wf(&self) -> (ok: bool)
        ensures
            ok == self.wf(),
    {
        self.base.0 < BASES && self.glazing.0 < GLAZINGS && self.sprinkles.0 < SPRINKLES
    }
}

impl Default for DonutBundle {
    fn default() -> (donut: Self)
        ensures
            donut == (DonutBundle { donut: Donut, base: Base(0), glazing: Glazing(0), sprinkles: Sprinkles(0) }),
    {
        DonutBundle::new()
    }
}

} // verus!
