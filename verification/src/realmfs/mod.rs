//! RealmFS images: activation mountpoints, activation state and resizing.
pub mod activator;
pub mod mountpoint;
pub mod resizer;
pub mod image;
pub mod update;
pub mod set;
