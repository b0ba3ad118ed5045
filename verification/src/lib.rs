//! The core of a command-line translator that talks to a chat-completion
//! service: how input is classified and cleaned, how requests are phrased,
//! how replies are read, and when a failed exchange is tried again.
//!
//! Nothing here performs I/O. A caller sends each request that the library
//! describes and hands back what the service answered.

pub mod chat;
pub mod config;
pub mod dispatch;
pub mod exchange;
pub mod language;
pub mod output;
pub mod prompt;
pub mod status;
pub mod text;
pub mod translator;
