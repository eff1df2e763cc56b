//! Actions the outside controller takes, and how a simulated run ends.

use crate::blind::Blind;
use vstd::prelude::*;

verus! {

/// Action taken in the shop.
#[derive(Debug, Clone, Copy, PartialEq, Eq, Structural)]
pub enum ShopAction {
    ExitShop,
}

/// Action taken when choosing the next blind.
#[derive(Debug, Clone, Copy, PartialEq, Eq, Structural)]
pub enum BlindSelectionAction {
    PlayBlind,
}

/// Action taken inside a blind.
#[derive(Debug, Clone, Copy, PartialEq, Eq, Structural)]
pub enum BlindAction {
    SelectCard(usize),
    Play,
    Discard,
    Abort,
}

/// Action taken after a blind was cleared.
#[derive(Debug, Clone, Copy, PartialEq, Eq, Structural)]
pub enum CashoutAction {
    ReturnToShop,
}

/// How a simulated run ended.
#[derive(Debug, Clone, PartialEq)]
pub enum SimulationResult {
    Lost { blind: Blind },
    Aborted,
    Won,
}

} // verus!
