//! Analysis and re-encoding of decoded medical pixel buffers.
//!
//! Stored samples are turned into intensities by an exact fixed-point
//! modality transform; statistics, histograms, raster export and the
//! uncompressed transcoder all work on those integers.
pub mod anonymize;
pub mod attributes;
pub mod digest;
pub mod dump;
pub mod error;
pub mod export;
pub mod metadata;
pub mod options;
pub mod sample;
pub mod stats;
pub mod storage;
pub mod text;
pub mod transcode;
pub mod validate;
