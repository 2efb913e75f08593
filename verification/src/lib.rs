//! Decision logic of an Alpaca options trading engine.
pub mod account_strategy;
pub mod active_entry;
pub mod admission;
pub mod alerts;
pub mod amount;
pub mod arguments;
pub mod broker;
pub mod broker_view;
pub mod calendar;
pub mod candidate_data;
pub mod candidate_set;
pub mod candidates;
pub mod chain;
pub mod doctor;
pub mod engine;
pub mod engine_events;
pub mod engine_pass;
pub mod entry;
pub mod entry_strategy;
pub mod events;
pub mod evidence;
pub mod fields;
pub mod json;
pub mod laws;
pub mod lifecycle;
pub mod lint;
pub mod lint_lines;
pub mod management;
pub mod members;
pub mod mutation;
pub mod operator;
pub mod operator_config;
pub mod order_cache;
pub mod orders;
pub mod payloads;
pub mod pending;
pub mod planner;
pub mod preroll;
pub mod preview;
pub mod profile;
pub mod quotes;
pub mod reconciliation;
pub mod runtime;
pub mod scan_actor;
pub mod scan_events;
pub mod scanner_lines;
pub mod scanner_report;
pub mod state;
pub mod status;
pub mod status_lines;
pub mod strategy_events;
pub mod symbol;
pub mod text;
pub mod text_map;
pub mod text_set;
pub mod universe_plan;
