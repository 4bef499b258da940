//! A 4x4 matrix keypad presented to a USB host as a HID keyboard.
//!
//! The crate holds the decisions of such a device and none of its I/O: which
//! line to drive or read next, what the answers mean, which report follows
//! from a scan, and what the reporting task does next. The firmware around it
//! owns the pins and the USB endpoints, performs each operation it is handed
//! and passes the outcome back.
//!
//! - `key`: the sixteen keys, their positions, their order, their usage codes.
//! - `pressed`: the set of keys found pressed by a scan.
//! - `line`: the operations on the lines of the matrix, and their outcomes.
//! - `scan`: the scanning algorithm as a state machine.
//! - `keypad`: the scanner that runs it.
//! - `matrix`: what a scan does to the columns and finds on an ideal matrix.
//! - `report`: the keyboard report and its composition from a scan.
//! - `task`: the scan and report task.
//! - `host`: the answers to the host's control requests.

mod hid_usage;
pub mod host;
pub mod key;
pub mod keypad;
pub mod line;
pub mod matrix;
pub mod pressed;
pub mod report;
pub mod scan;
pub mod task;
