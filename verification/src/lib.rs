//! An encrypted chat: the messages and their wire format, the ciphers, the key
//! exchange, the client's commands and the server's routing.

#![allow(unused_imports)]

mod call;
pub mod cipher;
pub mod client;
pub mod clock;
pub mod command;
pub mod display;
pub mod hexadecimal;
pub mod keys;
pub mod laws;
pub mod message;
pub mod promises;
pub mod protocol;
pub mod server;
pub mod wire;
