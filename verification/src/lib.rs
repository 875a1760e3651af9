//! Core logic of a live-reload static file server: port acquisition with
//! fallback, the reload broadcast hub, the websocket connection registry,
//! request-path resolution, content typing, and HTML script injection.

pub mod assets;
pub mod hub;
pub mod lifecycle;
pub mod ports;
pub mod registry;
pub mod script;
