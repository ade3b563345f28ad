//! What a customer likes, and how many stars a donut earns from it.

use crate::component::{Base, DonutBundle, Glazing, Sprinkles, BASES, GLAZINGS, SPRINKLES};
use crate::random::{sample_index, thread_rng, total_weight, weighted_index, weights_of, WeightedDraw};
use rand::rngs::ThreadRng;
use vstd::arithmetic::div_mod::{lemma_div_is_ordered, lemma_fundamental_div_mod, lemma_mod_bound};
use vstd::prelude::*;

verus! {

/// The best rating a layer variant can have, and the most stars a donut can earn.
pub const MAX_RATING: usize = 5;

/// How many different ratings a customer who has an opinion can give.
pub const RATINGS: usize = 5;

/// The ratings a new customer draws from.
pub const RATING_CHOICES: [usize; 5] = [1, 2, 3, 4, 5];

/// How often each of `RATING_CHOICES` is drawn, against the others.
pub const RATING_WEIGHTS: [i32; 5] = [1, 2, 5, 6, 3];

/// Nine times the weight of a rating: `(rating - 4) * 2 + 7`.
pub open spec fn weight_ninths(rating: int) -> int {
    (rating - 4) * 2 + 7
}

/// Twenty-seven times the stars of three ratings, before rounding: the mean of
/// the three weights, times five.
pub open spec fn stars_times_27(base: int, glazing: int, sprinkles: int) -> int {
    5 * (weight_ninths(base) + weight_ninths(glazing) + weight_ninths(sprinkles))
}

/// The integer nearest to `numerator / denominator`; a half rounds up.
pub open spec fn nearest(numerator: int, denominator: int) -> int
    recommends
        denominator > 0,
{
    (2 * numerator + denominator) / (2 * denominator)
}

/// The stars that three ratings earn: the rounded stars, and none where
/// rounding goes below zero.
pub open spec fn rank_of(base: int, glazing: int, sprinkles: int) -> int {
    let stars = nearest(stars_times_27(base, glazing, sprinkles), 27);
    if stars < 0 {
        0
    } else {
        stars
    }
}

/// The stars that three ratings earn by their plain mean, rounded down.
pub open spec fn mean_rank_of(base: int, glazing: int, sprinkles: int) -> int {
    (base + glazing + sprinkles) / 3
}

/// The stars that three ratings earn under a policy.
pub open spec fn rank_by(policy: RankPolicy, base: int, glazing: int, sprinkles: int) -> int {
    match policy {
        RankPolicy::Weighted => rank_of(base, glazing, sprinkles),
        RankPolicy::Mean => mean_rank_of(base, glazing, sprinkles),
    }
}

/// The rating that a draw stands for: the draws 0 to 4 are the ratings 1 to 5.
pub open spec fn drawn_rating(draw: usize) -> usize {
    (draw + 1) as usize
}

/// `nearest` is off by at most a half: no other integer lies closer to the
/// quotient, and of two that lie equally close it is the greater.
pub proof fn lemma_nearest(numerator: int, denominator: int)
    requires
        denominator > 0,
    ensures
        -denominator < 2 * (denominator * nearest(numerator, denominator) - numerator)
            <= denominator,
{
    let x = 2 * numerator + denominator;
    let d = 2 * denominator;
    let q = nearest(numerator, denominator);
    lemma_fundamental_div_mod(x, d);
    lemma_mod_bound(x, d);
    assert(d * q == 2 * (denominator * q)) by (nonlinear_arith)
        requires
            d == 2 * denominator,
    ;
}

/// More liking never costs stars: a donut whose layers are each rated at
/// least as well as those of another earns at least as many stars. So the
/// stars do not fall when one rating rises and the other two stay.
pub proof fn lemma_rank_monotonic(
    base: int,
    glazing: int,
    sprinkles: int,
    better_base: int,
    better_glazing: int,
    better_sprinkles: int,
)
    requires
        base <= better_base,
        glazing <= better_glazing,
        sprinkles <= better_sprinkles,
    ensures
        rank_of(base, glazing, sprinkles) <= rank_of(better_base, better_glazing, better_sprinkles),
{
    lemma_div_is_ordered(
        2 * stars_times_27(base, glazing, sprinkles) + 27,
        2 * stars_times_27(better_base, better_glazing, better_sprinkles) + 27,
        54,
    );
}

/// Under either policy, more liking never costs stars.
pub proof fn lemma_rank_by_monotonic(
    policy: RankPolicy,
    base: int,
    glazing: int,
    sprinkles: int,
    better_base: int,
    better_glazing: int,
    better_sprinkles: int,
)
    requires
        base <= better_base,
        glazing <= better_glazing,
        sprinkles <= better_sprinkles,
    ensures
        rank_by(policy, base, glazing, sprinkles) <= rank_by(
            policy,
            better_base,
            better_glazing,
            better_sprinkles,
        ),
{
    lemma_rank_monotonic(base, glazing, sprinkles, better_base, better_glazing, better_sprinkles);
    lemma_div_is_ordered(
        base + glazing + sprinkles,
        better_base + better_glazing + better_sprinkles,
        3,
    );
}

/// The weighted policy is the kinder one: on ratings from 0 to 5 it gives no
/// fewer stars than the plain mean, and at most one more.
pub proof fn lemma_policies_agree_within_one(base: int, glazing: int, sprinkles: int)
    requires
        0 <= base <= MAX_RATING,
        0 <= glazing <= MAX_RATING,
        0 <= sprinkles <= MAX_RATING,
    ensures
        mean_rank_of(base, glazing, sprinkles) <= rank_of(base, glazing, sprinkles)
            <= mean_rank_of(base, glazing, sprinkles) + 1,
        0 <= mean_rank_of(base, glazing, sprinkles) <= MAX_RATING,
{
    lemma_rank_range(base, glazing, sprinkles);
}

/// Ratings from 0 to 5 earn from 0 to 5 stars, and the stars depend on the
/// sum of the three ratings alone: five stars take a sum of at least 14, no
/// star is left below a sum of 3.
pub proof fn lemma_rank_range(base: int, glazing: int, sprinkles: int)
    requires
        0 <= base <= MAX_RATING,
        0 <= glazing <= MAX_RATING,
        0 <= sprinkles <= MAX_RATING,
    ensures
        0 <= rank_of(base, glazing, sprinkles) <= MAX_RATING,
        rank_of(base, glazing, sprinkles) == MAX_RATING <==> base + glazing + sprinkles >= 14,
        rank_of(base, glazing, sprinkles) == 0 <==> base + glazing + sprinkles <= 2,
        rank_of(base, glazing, sprinkles) == if base + glazing + sprinkles == 0 {
            0
        } else {
            (20 * (base + glazing + sprinkles) - 3) / 54
        },
{
    let total = base + glazing + sprinkles;
    assert(2 * stars_times_27(base, glazing, sprinkles) + 27 == 20 * total - 3);
    assert(nearest(stars_times_27(base, glazing, sprinkles), 27) == (20 * total - 3) / 54);
}

/// How the stars of a donut are worked out from the ratings of its layers.
#[derive(Debug, Clone, Copy, PartialEq, Eq, Structural)]
pub enum RankPolicy {
    /// The rounded mean of the weights of the three ratings, on a scale of
    /// five stars. This is the policy of the game.
    Weighted,
    /// The plain mean of the three ratings, rounded down.
    Mean,
}

/// The ratings a customer gives to every variant of every layer.
pub struct TasteView {
    pub bases: Seq<usize>,
    pub glazing: Seq<usize>,
    pub sprinkles: Seq<usize>,
}

impl TasteView {
    /// Whether the preferences rate every variant of every layer, none above
    /// `MAX_RATING`.
    pub open spec fn wf(self) -> bool {
        &&& self.bases.len() == BASES
        &&& self.glazing.len() == GLAZINGS
        &&& self.sprinkles.len() == SPRINKLES
        &&& forall|i: int| 0 <= i < self.bases.len() ==> self.bases[i] <= MAX_RATING
        &&& forall|i: int| 0 <= i < self.glazing.len() ==> self.glazing[i] <= MAX_RATING
        &&& forall|i: int| 0 <= i < self.sprinkles.len() ==> self.sprinkles[i] <= MAX_RATING
    }

    /// Whether the customer has an opinion on everything: no rating is 0.
    pub open spec fn decided(self) -> bool {
        &&& forall|i: int| 0 <= i < self.bases.len() ==> self.bases[i] >= 1
        &&& forall|i: int| 0 <= i < self.glazing.len() ==> self.glazing[i] >= 1
        &&& forall|i: int| 0 <= i < self.sprinkles.len() ==> self.sprinkles[i] >= 1
    }

    /// The stars these preferences give to a donut.
    pub open spec fn rank(self, donut: DonutBundle) -> int
        recommends
            self.wf(),
            donut.wf(),
    {
        rank_of(
            self.bases[donut.base.0 as int] as int,
            self.glazing[donut.glazing.0 as int] as int,
            self.sprinkles[donut.sprinkles.0 as int] as int,
        )
    }
}

/// Whether every draw of a list stands for a rating.
pub open spec fn draws_in_range(draws: Seq<usize>) -> bool {
    forall|i: int| 0 <= i < draws.len() ==> draws[i] < RATINGS
}

/// The ratings that a list of draws stands for.
pub open spec fn drawn_ratings(draws: Seq<usize>) -> Seq<usize> {
    Seq::new(draws.len(), |i: int| drawn_rating(draws[i]))
}

/// Turns draws into the ratings they stand for, if each of them stands for one.
fn ratings_of_draws<const N: usize>(draws: &[usize; N]) -> (ratings: Option<[usize; N]>)
    ensures
        ratings is Some <==> draws_in_range(draws@),
        ratings matches Some(rated) ==> rated@ == drawn_ratings(draws@),
{
    let choices: [usize; 5] = RATING_CHOICES;
    let mut ratings: [usize; N] = *draws;
    let mut i: usize = 0;
    while i < N
        invariant
            i <= N,
            choices@ == seq![1usize, 2, 3, 4, 5],
            forall|k: int| 0 <= k < i ==> draws@[k] < RATINGS,
            forall|k: int| 0 <= k < i ==> ratings@[k] == drawn_rating(draws@[k]),
        decreases N - i,
    {
        let draw = draws[i];
        if draw >= RATINGS {
            return None;
        }
        ratings[i] = choices[draw];
        i += 1;
    }
    assert(ratings@ =~= drawn_ratings(draws@));
    Some(ratings)
}

/// Draws one position for every slot of an array.
fn draw_all<const N: usize>(draw: &WeightedDraw, rng: &mut ThreadRng) -> (draws: [usize; N])
    ensures
        forall|i: int| 0 <= i < N ==> draws@[i] < weights_of(*draw).len(),
{
    let mut draws: [usize; N] = [0usize; N];
    let mut i: usize = 0;
    while i < N
        invariant
            i <= N,
            forall|k: int| 0 <= k < i ==> draws@[k] < weights_of(*draw).len(),
        decreases N - i,
    {
        draws[i] = sample_index(draw, rng);
        i += 1;
    }
    draws
}

/// A customer's preferences: a rating from 1 to 5 for every variant of every
/// layer, or 0 where the customer has no opinion.
#[derive(Debug, Clone, Copy)]
pub struct Taste {
    bases: [usize; 3],
    glazing: [usize; 6],
    sprinkles: [usize; 7],
}

impl View for Taste {
    type V = TasteView;

    closed spec fn view(&self) -> TasteView {
        TasteView { bases: self.bases@, glazing: self.glazing@, sprinkles: self.sprinkles@ }
    }
}

impl Taste {
    #[verifier::type_invariant]
    spec fn inv(self) -> bool {
        self@.wf()
    }

    /// The stars, from 0 to 5, that a donut of the given layers earns: each
    /// layer's rating is weighted, the weights are averaged, and the mean is
    /// scaled to five stars and rounded.
    pub fn rank(&self, base: &Base, glazing: &Glazing, sprinkles: &Sprinkles) -> (stars: usize)
        requires
            base.0 < BASES,
            glazing.0 < GLAZINGS,
            sprinkles.0 < SPRINKLES,
        ensures
            stars == rank_of(
                self@.bases[base.0 as int] as int,
                self@.glazing[glazing.0 as int] as int,
                self@.sprinkles[sprinkles.0 as int] as int,
            ),
            stars <= MAX_RATING,
    {
        proof {
            use_type_invariant(self);
        }
        let total: usize = self.bases[base.0] + self.glazing[glazing.0]
            + self.sprinkles[sprinkles.0];
        proof {
            lemma_rank_range(
                self@.bases[base.0 as int] as int,
                self@.glazing[glazing.0 as int] as int,
                self@.sprinkles[sprinkles.0 as int] as int,
            );
        }
        if total == 0 {
            0
        } else {
            (20 * total - 3) / 54
        }
    }

    /// The stars, from 0 to 5, that a donut of the given layers earns under a
    /// policy.
    pub fn rank_with(
        &self,
        policy: RankPolicy,
        base: &Base,
        glazing: &Glazing,
        sprinkles: &Sprinkles,
    ) -> (stars: usize)
        requires
            base.0 < BASES,
            glazing.0 < GLAZINGS,
            sprinkles.0 < SPRINKLES,
        ensures
            stars == rank_by(
                policy,
                self@.bases[base.0 as int] as int,
                self@.glazing[glazing.0 as int] as int,
                self@.sprinkles[sprinkles.0 as int] as int,
            ),
            stars <= MAX_RATING,
    {
        proof {
            use_type_invariant(self);
        }
        match policy {
            RankPolicy::Weighted => self.rank(base, glazing, sprinkles),
            RankPolicy::Mean => (self.bases[base.0] + self.glazing[glazing.0]
                + self.sprinkles[sprinkles.0]) / 3,
        }
    }

    /// Preferences that love everything.
    pub fn all() -> (taste: Self)
        ensures
            taste@.wf(),
            taste@.bases == Seq::new(BASES as nat, |i: int| MAX_RATING),
            taste@.glazing == Seq::new(GLAZINGS as nat, |i: int| MAX_RATING),
            taste@.sprinkles == Seq::new(SPRINKLES as nat, |i: int| MAX_RATING),
    {
        Taste { bases: [5;3], glazing: [5;6], sprinkles: [5;7] }
    }

    /// The preferences of a customer who has drawn a rating for every variant
    /// of every layer. There are none where a draw stands for no rating.
    pub fn from_draws(bases: [usize; 3], glazing: [usize; 6], sprinkles: [usize; 7]) -> (taste:
        Option<Self>)
        ensures
            taste is Some <==> draws_in_range(bases@) && draws_in_range(glazing@)
                && draws_in_range(sprinkles@),
            taste matches Some(drawn) ==> {
                &&& drawn@.wf()
                &&& drawn@.decided()
                &&& drawn@.bases == drawn_ratings(bases@)
                &&& drawn@.glazing == drawn_ratings(glazing@)
                &&& drawn@.sprinkles == drawn_ratings(sprinkles@)
            },
    {
        let rated_bases = ratings_of_draws(&bases);
        let rated_glazing = ratings_of_draws(&glazing);
        let rated_sprinkles = ratings_of_draws(&sprinkles);
        match (rated_bases, rated_glazing, rated_sprinkles) {
            (Some(bases), Some(glazing), Some(sprinkles)) => Some(
                Taste { bases, glazing, sprinkles },
            ),
            _ => None,
        }
    }

    /// The preferences of a new customer: every rating is drawn from 1 to 5,
    /// a 4 six times and a 3 five times as often as a 1, a 5 three times and a
    /// 2 twice as often.
    pub fn random() -> (taste: Self)
        ensures
            taste@.wf(),
            taste@.decided(),
    {
        let weights: [i32; 5] = RATING_WEIGHTS;
        assert(weights@ =~= seq![1i32, 2, 5, 6, 3]);
        assert(total_weight(weights@) == 17) by {
            reveal_with_fuel(total_weight, 6);
        }
        let draw = weighted_index(&weights).unwrap();
        let mut rng = thread_rng();
        let bases: [usize; 3] = draw_all(&draw, &mut rng);
        let glazing: [usize; 6] = draw_all(&draw, &mut rng);
        let sprinkles: [usize; 7] = draw_all(&draw, &mut rng);
        Taste::from_draws(bases, glazing, sprinkles).unwrap()
    }

    /// The ratings of the bases, by variant.
    pub fn bases(&self) -> (ratings: [usize; 3])
        ensures
            ratings@ == self@.bases,
    {
        self.bases
    }

    /// The ratings of the glazings, by variant.
    pub fn glazing(&self) -> (ratings: [usize; 6])
        ensures
            ratings@ == self@.glazing,
    {
        self.glazing
    }

    /// The ratings of the sprinkles, by variant.
    pub fn sprinkles(&self) -> (ratings: [usize; 7])
        ensures
            ratings@ == self@.sprinkles,
    {
        self.sprinkles
    }

    /// Rates one base anew. Nothing changes where there is no such base or
    /// the rating is above `MAX_RATING`.
    pub fn set_base(&mut self, variant: usize, rating: usize) -> (done: bool)
        ensures
            done == (variant < BASES && rating <= MAX_RATING),
            done ==> final(self)@ == (TasteView {
                bases: old(self)@.bases.update(variant as int, rating),
                ..old(self)@
            }),
            !done ==> *final(self) == *old(self),
    {
        proof {
            use_type_invariant(&*self);
        }
        if variant < BASES && rating <= MAX_RATING {
            self.bases[variant] = rating;
            true
        } else {
            false
        }
    }

    /// Rates one glazing anew. Nothing changes where there is no such glazing
    /// or the rating is above `MAX_RATING`.
    pub fn set_glazing(&mut self, variant: usize, rating: usize) -> (done: bool)
        ensures
            done == (variant < GLAZINGS && rating <= MAX_RATING),
            done ==> final(self)@ == (TasteView {
                glazing: old(self)@.glazing.update(variant as int, rating),
                ..old(self)@
            }),
            !done ==> *final(self) == *old(self),
    {
        proof {
            use_type_invariant(&*self);
        }
        if variant < GLAZINGS && rating <= MAX_RATING {
            self.glazing[variant] = rating;
            true
        } else {
            false
        }
    }

    /// Rates one kind of sprinkles anew. Nothing changes where there is no
    /// such kind or the rating is above `MAX_RATING`.
    pub fn set_sprinkles(&mut self, variant: usize, rating: usize) -> (done: bool)
        ensures
            done == (variant < SPRINKLES && rating <= MAX_RATING),
            done ==> final(self)@ == (TasteView {
                sprinkles: old(self)@.sprinkles.update(variant as int, rating),
                ..old(self)@
            }),
            !done ==> *final(self) == *old(self),
    {
        proof {
            use_type_invariant(&*self);
        }
        if variant < SPRINKLES && rating <= MAX_RATING {
            self.sprinkles[variant] = rating;
            true
        } else {
            false
        }
    }
}

impl Default for Taste {
    /// Preferences without an opinion on anything.
    fn default() -> (taste: Self)
        ensures
            taste@.wf(),
            taste@.bases == Seq::new(BASES as nat, |i: int| 0usize),
            taste@.glazing == Seq::new(GLAZINGS as nat, |i: int| 0usize),
            taste@.sprinkles == Seq::new(SPRINKLES as nat, |i: int| 0usize),
    {
        Taste { bases: [0;3], glazing: [0;6], sprinkles: [0;7] }
    }
}

} // verus!
