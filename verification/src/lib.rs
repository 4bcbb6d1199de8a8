//! Core of a firmware boot stub: locating the running image's own file,
//! extracting a named section from its executable header, assembling whole-file
//! reads from chunked transfers, and sequencing the chainload of the next boot
//! stage. All decision logic lives here, verified; firmware calls are issued by
//! an unverified shell that follows the sequencer's instructions.

pub mod pe;
pub mod reader;
pub mod sequencer;
