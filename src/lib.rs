//! Frame-buffer synchronisation and input bridging between one remote-display
//! session and many viewer clients.
//!
//! The library holds the logic of the bridge: bounds-checked compositing of
//! bitmap updates into a canvas, snapshots of that canvas, the registry of
//! connected clients, the mapping of client input onto session input, the
//! decisions of the bridge's loops and the once-only shutdown.
pub mod canvas;
pub mod config;
pub mod composite;
pub mod input;
pub mod lifecycle;
pub mod loops;
pub mod pixels;
pub mod pointer_button_serde;
pub mod registry;
