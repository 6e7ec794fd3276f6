//! Verified core of a cross-device KVM: the wire protocol, frame
//! fragmentation, screen topology, edge detection and the window-drag
//! state machine.

pub mod wire;
pub mod screen;
pub mod device;
pub mod window;
pub mod event;
pub mod layout;
pub mod edge;
pub mod drag;
pub mod transfer;
pub mod topology;
pub mod capture;
pub mod cli;
pub mod session;
pub mod discovery;
pub mod config;
pub mod input;
pub mod gui;
pub mod protocol;
pub mod transport;
pub mod codec;
pub mod frame_packet;
