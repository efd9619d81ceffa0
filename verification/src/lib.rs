//! A terminal site-monitoring core: a bounded latency-history store shared
//! between a polling worker and an interactive view, a probe-outcome
//! classifier, and a pure render model for the dashboard.
pub mod cursor;
pub mod monitor;
pub mod text;
pub mod ui;
