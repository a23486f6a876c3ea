//! Realms: configuration, networking and root filesystem overlays.
pub mod config;
pub mod network;
pub mod realm;
pub mod realms;
pub mod systemd;
pub mod overlay;
pub mod events;
pub mod manager;
