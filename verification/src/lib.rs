//! Verified core of the NixOS toolkit: the action registry, the IPC message
//! types, Nix code generation, the GUI selection state and the helper's
//! request logic.

pub mod actions;
pub mod strset;
pub mod text;
pub mod config;
pub mod ipc;
pub mod nix;
pub mod state;
pub mod commands;
pub mod integration;
pub mod rebuild;
pub mod pages;
