//! The data the engine works on: blocks, rules, event records and match records.

pub mod block;
pub mod events;
pub mod indexer_rule;
pub mod indexer_rule_match;
