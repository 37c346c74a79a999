//! Protocol engine for the EZO RTD temperature chip.
//!
//! The chip speaks an ASCII command protocol over a byte-oriented bus: a
//! command is a nul-terminated ASCII string, and a response is a fixed-size
//! buffer whose first byte is a status code and whose remainder is a
//! nul-terminated ASCII payload.  This crate holds the verified core of a
//! driver for that protocol: the command table, the status classifier, the
//! response decoder and parsers, and the write-delay-read state machine.
//! The bus transport itself (an I2C device handle) stays outside the crate;
//! a caller performs the reads, writes and sleeps that the state machine
//! requests and hands the outcomes back.

pub mod command;
pub mod common;
pub mod decimal;
pub mod engine;
pub mod errors;
pub mod response;
pub mod text;
