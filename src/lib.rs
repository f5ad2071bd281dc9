//! Session lifecycle core for a local audio-recording tool: the session
//! records and their status machine, the single active-recording slot, the
//! on-disk layout of a session directory, the sample adapters of the capture
//! engine, and the renderers used by listing and export.
pub mod capture;
pub mod controller;
pub mod export;
pub mod layout;
pub mod lifecycle;
pub mod listing;
pub mod models;
