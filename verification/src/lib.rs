//! A budget kept in three jars: every deposit is split over "needs", "wants"
//! and "savings" by percentages that the user has chosen, and savings stay
//! locked for a time after each deposit.

pub mod config;
pub mod contract;
pub mod effects;
pub mod env;
pub mod error;
pub mod footprint;
pub mod history;
pub mod key;
pub mod laws;
pub mod names;
pub mod outcome;
pub mod solvency;
pub mod split;
pub mod table;
