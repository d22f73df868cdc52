//! Simulation core of a small incremental resource economy.
//!
//! Stocks of resources are changed once per tick by a set of effects that
//! consume and produce them. Where more is asked of a stock than it holds,
//! every effect that asks is cut down, and what it produces with it.
//!
//! All quantities are fixed-point integers: amounts and rates are counted
//! in millionths of a unit, time in nanoseconds, and the share of a demand
//! that can be paid is kept as an exact fraction. Every rule of the economy
//! is therefore exact, and is stated and proved over the integers.
//!
//! - [`fixed`]: amounts, rates and fractions.
//! - [`stock`]: the stocks, the stockyard, the effects, the consumption
//!   and production steps and what holds of them, and the followers' own
//!   effect.
//! - [`pipeline`]: the steps of a tick in their order.
//! - [`simulation`]: the whole state, the scheduler and the commands.
//! - [`action`], [`job`], [`stats`]: the player's action with its affinity,
//!   the jobs of the followers, and the figures of the actions.
//! - [`timer`], [`chance`], [`affinity`], [`critical`]: timers and draws of
//!   chance.
//! - [`item`], [`drop_table`], [`drop_tables`], [`stats_builder`],
//!   [`engine`], [`game`]: items with affixes, the tables from which they
//!   are drawn, and what they add up to.
//! - [`text`]: numbers as the player reads them.

pub mod action;
pub mod affinity;
pub mod chance;
pub mod critical;
pub mod drop_table;
pub mod drop_tables;
pub mod engine;
pub mod fixed;
pub mod game;
pub mod item;
pub mod job;
pub mod pipeline;
pub mod simulation;
pub mod stats;
pub mod stats_builder;
pub mod stock;
pub mod text;
pub mod timer;
