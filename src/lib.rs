//! A price publisher: fetched quotes for a fixed set of coins are turned into
//! webhook messages and channel names, and one polling cycle is planned as an
//! ordered list of steps that a runtime carries out.

pub mod fullwidth;
pub mod message;
pub mod assets;
pub mod fetch;
pub mod cycle;
