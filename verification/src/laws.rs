//! What holds of the library as a whole: relations between its inputs and its answers, and between
//! the answers to several calls.
pub mod admission;
pub mod amounts;
pub mod candidates;
pub mod closing;
pub mod lifecycle;
pub mod operator;
pub mod orders;
pub mod quotes;
pub mod reconciliation;
pub mod records;
pub mod reports;
pub mod settings;
pub mod state;
pub mod submission;
pub mod texts;
pub mod time;
pub mod views;
