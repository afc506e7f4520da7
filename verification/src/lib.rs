//! Version handling, release download locations and executable layout of a
//! Terraform tool plugin for the proto toolchain manager.

pub mod error;
pub mod laws;
pub mod outside;
pub mod platform;
pub mod plugin;
pub mod text;
