//! A verified protocol engine for a serial-to-SPI flash programmer.
//!
//! The crate implements the "serprog" binary wire protocol: a bounded ring
//! buffer that stages transport bytes for the parser, a streaming command
//! decoder and response encoder for the wire format, a dispatcher that turns
//! commands into responses, and a chip-select-gated SPI link state machine.
//! The transport itself and the electrical SPI exchange are the embedding
//! program's part; everything the protocol decides is specified and verified
//! here.

pub mod address;
pub mod buffer;
pub mod command;
pub mod constants;
pub mod data_utils;
pub mod error;
pub mod opcode;
pub mod response_packet;
pub mod serprog;
pub mod spi;
