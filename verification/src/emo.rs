//! What a customer feels about a donut.

use crate::taste::MAX_RATING;
use vstd::prelude::*;

verus! {

/// The feeling a customer shows after tasting a donut.
#[derive(Clone, Copy, PartialEq, Eq, Debug, Structural)]
pub enum Emo {
    Angry,
    Happy,
    Sad,
    Love,
    Heartbroken,
}

impl Emo {
    /// The feeling that a number of stars stands for: love for all five,
    /// happiness for four, sadness for three, anger for two, and a broken
    /// heart below that.
    pub open spec fn of_rank(stars: int) -> Emo {
        if stars == 5 {
            Emo::Love
        } else if stars == 4 {
            Emo::Happy
        } else if stars == 3 {
            Emo::Sad
        } else if stars == 2 {
            Emo::Angry
        } else {
            Emo::Heartbroken
        }
    }

    /// Where the feeling's picture stands on the sheet of emotes.
    pub open spec fn sprite(self) -> usize {
        match self {
            Emo::Angry => 15,
            Emo::Happy => 16,
            Emo::Sad => 17,
            Emo::Love => 18,
            Emo::Heartbroken => 19,
        }
    }

    /// The feeling of a customer who gave `stars` stars.
    pub fn from_rank(stars: usize) -> (emotion: Emo)
        ensures
            emotion == Emo::of_rank(stars as int),
            emotion == Emo::Love <==> stars == MAX_RATING,
    {
        match stars {
            5 => Emo::Love,
            4 => Emo::Happy,
            3 => Emo::Sad,
            2 => Emo::Angry,
            _ => Emo::Heartbroken,
        }
    }

    /// Index of the feeling's picture on the sheet of emotes.
    pub fn sprite_index(self) -> (index: usize)
        ensures
            index == self.sprite(),
    {
        match self {
            Emo::Angry => 15,
            Emo::Happy => 16,
            Emo::Sad => 17,
            Emo::Love => 18,
            Emo::Heartbroken => 19,
        }
    }
}

} // verus!
