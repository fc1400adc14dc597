//! The interface of the simulation layer that uses the lock: what a group of
//! atoms is, and the traits that potentials, propagators, thermostats,
//! observables and outputs implement.

pub mod array_vector;
pub mod exchange;
pub mod exchange_monte_carlo;
pub mod group;
pub mod normal_modes;
pub mod observable;
pub mod output;
pub mod physical;
pub mod physical_monte_carlo;
pub mod propagator;
pub mod quadratic;
pub mod stat;
pub mod sync_ops;
pub mod thermostat;
pub mod vector;
