//! Decoder for legacy HyperCard stack files.
//!
//! A stack file is a single fork of variably-sized blocks.  The library
//! consumes a raw byte buffer and produces an in-memory object graph: the
//! stack header, ordered card and background blocks, bitmap images
//! (compressed with the WOBA run-length scheme), style tables and embedded
//! HyperTalk scripts.  A small HyperTalk segmenter splits script text into
//! named handler blocks.

pub mod background;
pub mod bitmap;
pub mod byte;
pub mod card;
pub mod cbuf;
pub mod error;
pub mod hypertalk;
pub mod layout;
pub mod macroman;
pub mod part;
pub mod stack;
pub mod style;
pub mod text;
pub mod woba;
