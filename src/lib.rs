//! Deterministic rules engine of a poker-hand roguelike: seeded pool selection,
//! hand classification, blinds and their scoring, and ordered joker effects.
//!
//! Randomness comes from the caller as draw closures over named channels (see
//! [`seeding`]); everything decided from the draws is verified here.

pub mod blind;
pub mod boosters;
pub mod card;
pub mod consumable;
pub mod controller;
pub mod creators;
pub mod decks;
pub mod dispatch;
pub mod event;
pub mod hands;
pub mod joker;
pub mod pools;
pub mod run;
pub mod seeding;
pub mod shop;
pub mod stake;
pub mod tags;
pub mod vouchers;
