//! Display timing-mode management: parsing of display status reports and of
//! generated timing lines, the named-mode collection, and the bounded
//! test-and-revert protocol.
pub mod text;
pub mod mode;
pub mod fileio;
pub mod protocol;
pub mod status;
pub mod util;
pub mod lifecycle;
