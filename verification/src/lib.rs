//! A client for the MessagePack-RPC protocol of Neovim, and the generator
//! of its typed API.
//!
//! The library holds what is decided and computed: the frames and their
//! form as values, the multiplexer that matches answers to callers, the
//! value adapter, and the generator's way from the editor's description
//! of its functions to the methods of the handle types. Transports,
//! threads, clocks and files belong to the program around it.

pub mod client;
pub mod convert;
pub mod error;
pub mod genapi;
pub mod handler;
pub mod history;
pub mod rpc;
pub mod text;
pub mod value;
pub mod wire;
