//! A paste service core: content classification, identifier allocation
//! and syntax highlighting.
pub mod classify;
pub mod error;
pub mod highlight;
pub mod id;
pub mod language;
pub mod protocol;
pub mod render;
pub mod request;
pub mod storage;
pub mod text;
