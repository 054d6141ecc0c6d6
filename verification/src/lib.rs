//! Core logic for a Minecraft Bedrock desktop launcher: directory layout
//! under the platform data root, a registry of installed versions and their
//! profile directories, construction of the client command line, the launch
//! plan (wrapper process and GPU environment overrides), and generation of
//! desktop shortcut files.
//!
//! The library computes plans and text as plain values; performing the
//! filesystem and process work belongs to the front-end around it.
pub mod cmd;
pub mod launch;
pub mod paths;
pub mod registry;
pub mod shortcut;
