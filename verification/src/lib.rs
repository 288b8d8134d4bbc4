//! Herdr Workbench: the verified core of a Windows-first companion for Herdr.
//! It binds Herdr workspaces to Workbench workspaces, keeps one preview
//! session per workspace with a per-workspace revision, buffers browser
//! diagnostics, renders preview feedback for an agent, and maps all of it to
//! the HTTP and WebSocket contracts.

pub mod text;
pub mod ident;
pub mod clock;
pub mod digest;
pub mod domain;
pub mod preview;
pub mod herdr;
pub mod ports;
pub mod bus;
pub mod memory;
pub mod render;
pub mod usecases;
pub mod previewing;
pub mod contracts;
pub mod transport;
pub mod window;
pub mod storage;
pub mod laws;
