//! System state: mount table and loop devices.
pub mod loopdev;
pub mod mounts;
