pub mod text;
pub mod json;
pub mod clock;
pub mod policy;
pub mod actions;
pub mod events;
pub mod foundation;
pub mod windows;
pub mod db;
pub mod device_access;
pub mod files;
pub mod linux;
pub mod network;
pub mod quarantine;
pub mod startup;
pub mod ids;
