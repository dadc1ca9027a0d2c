//! Decision logic of a desktop notification daemon: urgency levels, the
//! shape of a notification received over the bus, identifier allocation,
//! the one-time wiring of the channels towards the popup window, the rows
//! that the popup keeps per notification, and the texts it shows.

pub mod api;
pub mod clock;
pub mod types;
pub mod ui;
