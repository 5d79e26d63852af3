//! Driving automated contests between two chess engines that speak the UCI
//! protocol: the protocol session, the per-contest clock and runner, the
//! bounded scheduler with its tally, and the integer side of the parameter
//! tuner.
pub mod text;
pub mod uci_move;
pub mod outcome;
pub mod fen;
pub mod clock;
pub mod contest;
pub mod tune;
pub mod protocol;
pub mod scheduler;
