//! Delay lookup for historical rail services: classifying the day of a
//! query, building the upstream requests, and computing how late a train
//! arrived at its destination stop.

pub mod day;
pub mod text;
pub mod train;
pub mod service_query;
pub mod pipeline;
