//! Calendar- and scale-tagged civil date/time values, with the text they are
//! rendered to and the zone arithmetic that turns a local reading into an
//! absolute time coordinate.

pub mod date_time;
pub mod tags;
pub mod text;
pub mod wall_clock;
