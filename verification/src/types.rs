//! The data model of the simulation.
//!
//! - `config`: the constants of the protocol and the parameters of a run
//! - `deltas`: the rewards and penalties of one validator in one epoch
//! - `dice`: biased coins and the election of block proposers
//! - `error`: the failures a simulation can report
//! - `output`: the rows that a simulation reports
//! - `probability`: fixed-point probabilities
//! - `state`: the validators at an epoch boundary, with their totals
//! - `validator`: a validator of the simulated network

pub mod config;
pub mod deltas;
pub mod dice;
pub mod error;
pub mod output;
pub mod probability;
pub mod state;
pub mod validator;

pub use config::Config;
pub use config::OutputFormat;
pub use config::ReportType;
pub use deltas::Deltas;
pub use dice::Dice;
pub use error::ConfigError;
pub use error::SimulationError;
pub use output::EpochReportRow;
pub use output::MonthlyReportRow;
pub use output::Output;
pub use output::Percentage;
pub use probability::Probability;
pub use probability::PROBABILITY_SCALE;
pub use state::Aggregate;
pub use state::State;
pub use validator::Validator;
