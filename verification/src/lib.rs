//! Command orchestration core of an operator console for a robot and its ghost.
//!
//! The console lets an operator reset a simulated "ghost" robot together with
//! its teaching marker, and send the real robot to the pose the ghost shows.
//! This crate holds the decisions behind those two commands and the pose cache
//! they share. It performs no I/O: a driver sends the requests, waits for the
//! answers and reports each one as an event; the sessions defined here say what
//! to do next and what the command came to.
//!
//! * [`pose`]: the latest observed ghost pose, written by the pose feed and
//!   read by the match command.
//! * [`reset`]: two trigger calls, joined under an all-must-succeed policy.
//! * [`goal`]: one motion goal, from submission to its terminal result.
//! * [`dispatch`]: which command an operator action launches.

pub mod pose;
pub mod reset;
pub mod goal;
pub mod dispatch;
