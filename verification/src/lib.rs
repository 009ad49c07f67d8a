//! Bookkeeping of how long each X11 window keeps the input focus.
//!
//! The library holds the decisions of a focus-time tracker: how window titles
//! are read from X11 property bytes, how recorded input events are sorted,
//! how the time spent in each window is cut into rows, and how those rows are
//! encoded as CSV. Talking to the X server, reading clocks and touching files
//! is left to the program around it.

pub mod csv_rows;
pub mod messages;
pub mod record;
pub mod stamp;
pub mod text;
pub mod tracker;
