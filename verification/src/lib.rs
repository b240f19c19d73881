//! An even/odd dice betting game for the NEAR blockchain, written as a verified library.
//!
//! Players register, buy a ticket, and bet on whether the sum of two dice will be even or odd.
//! The owner rolls the dice; every winner is paid twice the amount they bet, in the "cash"
//! fungible token. Everything the game decides is computed here from plain values: the
//! runtime's facts (caller, attached deposit, results of earlier cross-contract calls) come in
//! as arguments, and the cross-contract calls and transfers the game wants made come out as
//! [`promise::Effect`] values.
pub mod promise;
pub mod outside;
pub mod players;
pub mod util;
pub mod game;
pub mod cash_game;
