//! Bookkeeping around a continuous-time Glicko-2 rating system: game records,
//! player tables, report statistics and the iteration budget of the rating
//! update, all on exact integer and text data.

pub mod calendar;
pub mod convergence;
pub mod encounter;
pub mod new_players;
pub mod pgn;
pub mod player;
pub mod replay;
pub mod text;

pub use convergence::{ConvergenceError, IterationBudget};
