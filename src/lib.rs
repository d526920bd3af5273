//! Native backend of a desktop shell: launching a command-line tool in a new
//! terminal window at a chosen directory, and the tray menu that shows, hides
//! and quits the main window.
//!
//! Everything here computes: the host looks the path up on disk, makes the
//! process spawn and the window calls, and hands the results in.

pub mod launcher;
pub mod tray;
