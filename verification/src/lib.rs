//! Verified core of the NyxFrame remote-desktop server: colour conversion,
//! H.264 stream inspection, streaming session decisions, capture-backend
//! bookkeeping and session-environment scoring.

pub mod yuv;
pub mod nal;
pub mod protocol;
pub mod session;
pub mod env;
pub mod capture;
pub mod text;
pub mod paths;
pub mod config;
pub mod discovery;
pub mod launch;
pub mod encoder;
pub mod framing;
pub mod input;
