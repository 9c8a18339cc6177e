//! The Admiral: the command logic of a small Discord bot — dice notation,
//! dice rolls, coin flips, option lookup, replies and log lines — with
//! contracts proved by Verus.

mod chance;
pub mod commands;
pub mod dice;
pub mod logging;
pub mod options;
pub mod rolls;
pub mod startup;
pub mod text;
