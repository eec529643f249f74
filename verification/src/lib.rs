//! Detaching and reattaching window-manager workspaces of terminal sessions:
//! the layout model, window identity and marking, the access protocol with its
//! process-liveness locks, and the decisions of the session lifecycle.
pub mod connection;
pub mod helper;
pub mod layout;
pub mod lifecycle;
pub mod session;
pub mod terminal;
pub mod text;
pub mod types;
pub mod tree;
pub mod window;
pub mod wm;
pub mod workspace;
