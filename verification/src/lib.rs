//! Overlay engine core: the control protocol, the render command stream, the
//! server's scene and session state, and the desktop monitor's window logic.

pub mod buffer;
pub mod catalog;
pub mod catalog_laws;
pub mod client_laws;
pub mod cmd_decoder;
pub mod cmd_writer;
pub mod command_laws;
pub mod compositor;
pub mod consistency;
pub mod demo;
pub mod drawing_laws;
pub mod durations;
pub mod frame;
pub mod frame_laws;
pub mod grid;
pub mod handoff;
pub mod handoff_laws;
pub mod host_laws;
pub mod install;
pub mod joining_laws;
pub mod lifecycle;
pub mod message_laws;
pub mod monitor_laws;
pub mod operations;
pub mod paths;
pub mod pending;
pub mod present;
pub mod proto;
pub mod protocol;
pub mod scene;
pub mod server;
pub mod server_laws;
pub mod session;
pub mod session_laws;
pub mod shmem;
pub mod singleton;
pub mod tables;
pub mod text;
pub mod text_laws;
pub mod title;
pub mod wide;
pub mod window_options;
pub mod window_table;
pub mod wire_laws;
