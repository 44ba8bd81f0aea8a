//! Bindings between a native component and a host's custom element registry.

pub mod component;
pub mod config;
pub mod definition;
pub mod error;
pub mod events;
pub mod generator;
pub mod lifecycle;
pub mod reader;
pub mod registry;
pub mod shim;
pub mod template;
pub mod text;
