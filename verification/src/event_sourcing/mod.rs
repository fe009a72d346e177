//! Event sourcing: state rebuilt from its history.

pub mod order_aggregate;
