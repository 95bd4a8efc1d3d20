//! The logic of a screen colour temperature daemon for X11 and its clients:
//! the themes, where configuration lives, the location from the timezone,
//! importing a gammastep or redshift config, the client's flag values, the
//! daemon's control state and screen-loop rules, the interfaces' controls
//! for the day and night bounds, the panel's staging of curve edits, the
//! terminal dashboard's keyboard, the clients' command lines, the tray's
//! menu, and the words the interfaces print.

pub mod bounds;
pub mod control;
pub mod import;
pub mod keys;
pub mod launch;
pub mod location;
pub mod number;
pub mod paths;
pub mod readout;
pub mod request;
pub mod screen;
pub mod staging;
pub mod text;
pub mod theme;
pub mod tray;
