//! Plan formatting, CSV output encoding and small planner decisions of a
//! query engine, with their behaviour stated and proved.

pub mod binder;
pub mod csv;
pub mod distributed;
pub mod format;
pub mod plans;
pub mod statistics;
pub mod text;
