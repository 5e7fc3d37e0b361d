//! A verified model of the control logic of a hardware video-encoder
//! wrapper: session lifecycle, capability enumeration, parameter
//! assembly, and the buffer lock/unlock protocol.
//!
//! The provider (the vendor runtime reached over a function-pointer
//! table) performs the real work; its outcomes enter the library as
//! plain values (status codes, counts, identifier lists), and every
//! decision the wrapper makes about them is specified and verified.

pub mod api;
pub mod format;
pub mod guid;
pub mod params;
pub mod request;
pub mod session;
pub mod status;
pub mod version;
