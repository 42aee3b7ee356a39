//! Protocol engine of RTPS, the wire protocol beneath DDS middleware: the
//! entity identifiers, the per-writer history cache, the writer-side
//! reliable-delivery state machine and the submessage framing layer.
#![allow(non_camel_case_types)]

pub mod types;
pub mod bitmap;
pub mod guid;
pub mod element;
pub mod cache_change;
pub mod history_cache;
pub mod entity;
pub mod writer;
pub mod submessage;
pub mod data;
pub mod decode;
