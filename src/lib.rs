//! File-management backend: collision-free naming, a step-by-step file
//! operation engine driven by its host, thumbnail routing, shell bitmap
//! handling and encoding, and the listing rules of the explorer front end.
pub mod text;
pub mod paths;
pub mod naming;
pub mod engine;
pub mod thumbnail;
pub mod shell;
pub mod listing;
pub mod preview;
pub mod commands;
