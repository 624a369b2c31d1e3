pub mod errors;
pub mod instructions;
pub mod ledger;
pub mod states;
pub mod tally;
