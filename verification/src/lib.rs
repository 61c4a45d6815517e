//! A verified core for a document-scanning pipeline: a scan worker drives a
//! page acquisition state machine with cooperative cancellation, assembles
//! scanline-aligned raster data from arbitrarily chunked device reads,
//! adapts a push-style compressor through a growable block sink, and
//! composes the encoded pages into a single paginated document.

pub mod cancel;
pub mod config;
pub mod device;
pub mod dialog;
pub mod jpeg;
pub mod options;
pub mod pdf;
pub mod print;
pub mod raster;
pub mod stream;
pub mod worker;
