//! Hooks on native functions of a running process: finding a function by
//! its byte signature, keeping the registry of installed patches, and
//! running each intercepted call through an ordered pipeline of stages.

pub mod context;
pub mod converters;
pub mod cs2;
pub mod dispatch;
pub mod keys;
pub mod logger;
pub mod message;
pub mod overlay;
pub mod pattern;
pub mod pipeline;
pub mod record;
pub mod registry;
pub mod render;
pub mod scheduler;
pub mod setup;
pub mod table;
pub mod ui;
pub mod window;
