//! Power-state management for a discrete Nvidia GPU on a Linux laptop: the
//! decisions of the daemon that puts the GPU into deep sleep, wakes it, and keeps
//! it in the state that the user's policy mode asks for.
//!
//! The library decides; its caller reads sysfs, runs the tools and waits.
//! - `mode`: the policy mode, its text forms and its persisted form.
//! - `pci`: finding the GPU and reading its sysfs entries.
//! - `system`: blocking processes, service and module commands, AC power, sessions.
//! - `engine`: sleep, wake and mode requests as step machines with a fixed order.
//! - `manager`: the transition each mode asks for, and the periodic reconciler.
//! - `report`: the `Info` triple and the status text.
//! - `protocol`: client requests and answers.
//! - `ui`: what the front-ends show.
//! - `text`: verified helpers over the characters of strings.
pub mod text;
pub mod mode;
pub mod pci;
pub mod system;
pub mod engine;
pub mod manager;
pub mod report;
pub mod protocol;
pub mod ui;
