//! Core logic of the ArcLink LAN remote-desktop system: the wire framing of
//! control messages, the plain message and session models, video
//! fragmentation and reassembly, the host and viewer connection state
//! machines, capture frame generation and the viewer's diagnostic log.

pub mod capture;
pub mod errors;
pub mod framing;
pub mod host;
pub mod input;
pub mod logging;
pub mod metrics;
pub mod protocol;
pub mod render;
pub mod session;
pub mod text;
pub mod viewer;
