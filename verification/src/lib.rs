//! The rules of Donut Tell Me!, a game about a donut shop: the layers of a
//! donut and how they are turned, the taste of a customer and the stars a
//! donut earns from it, the line of customers and the counter they are served
//! at, and the description of the sprite sheets the game is drawn from.
//!
//! The library draws nothing and reads no input. A program around it shows
//! the scene, hands over what the player did and what the clock says, and
//! carries out what the rules answer.

use vstd::prelude::*;

pub mod assets;
pub mod component;
pub mod components;
pub mod emo;
pub mod random;
pub mod system;
pub mod taste;

verus! {

/// The phases a game goes through.
#[derive(Clone, Copy, Debug, PartialEq, Eq, Hash, Structural)]
pub enum AppState {
    /// The files of the game are being loaded.
    AssetLoading,
    /// The shop is open.
    InGame,
    /// Enough customers are regulars: the game is won.
    GameOver,
}

} // verus!
