//! A 6502 disassembler: an opcode table built from a JSON description, and a
//! decoder that walks a byte buffer and renders one text line per instruction.
//!
//! `respond` is the request boundary: it checks the bounds that a caller
//! supplied before the decoder runs.

pub mod disassembler;
pub mod hex;

use vstd::prelude::*;

use crate::disassembler::bin6502::{disassemble_with, disassembly, texts};
use crate::disassembler::table::OpcodeTable;
use crate::disassembler::Output;

verus! {

/// A disassembly request: the bytes and the optional bounds.
#[derive(Debug, PartialEq, Eq)]
pub struct Payload {
    pub data: Vec<u8>,
    pub start_address: Option<u16>,
    pub end_address: Option<u16>,
}

/// The message of a refused or failed request.
#[derive(Debug, PartialEq, Eq)]
pub struct Error {
    pub message: String,
}

/// The answer to a request: a start or an end at or beyond the end of the
/// data is refused, as is a start at or after the end; otherwise the listing,
/// or the decoder's error message.
pub open spec fn response(
    table: Seq<Option<crate::disassembler::opcode::OpCodeView>>,
    data: Seq<u8>,
    start_address: Option<u16>,
    end_address: Option<u16>,
) -> Result<Seq<Seq<char>>, Seq<char>> {
    if start_address matches Some(s) && s >= data.len() {
        Err("Start address is out of bounds"@)
    } else if end_address matches Some(e) && e >= data.len() {
        Err("End address is out of bounds"@)
    } else if start_address matches Some(s) && end_address matches Some(e) && s >= e {
        Err("Start address must be less than end address"@)
    } else {
        disassembly(table, data, start_address, end_address)
    }
}

/// The listing, or the error message, that a request got.
pub open spec fn response_view(r: Result<Output, Error>) -> Result<Seq<Seq<char>>, Seq<char>> {
    match r {
        Ok(o) => Ok(texts(o.disassembly@)),
        Err(e) => Err(e.message@),
    }
}

/// Answers a disassembly request with `table`, checking its bounds first.
pub fn respond(table: &OpcodeTable, payload: &Payload) -> (r: Result<Output, Error>)
    ensures
        response_view(r) == response(table@, payload.data@, payload.start_address, payload.end_address),
{
    let len = payload.data.len();
    if let Some(start) = payload.start_address {
        if start as usize >= len {
            return Err(Error { message: String::from_str("Start address is out of bounds") });
        }
    }
    if let Some(end) = payload.end_address {
        if end as usize >= len {
            return Err(Error { message: String::from_str("End address is out of bounds") });
        }
    }
    if let (Some(start), Some(end)) = (payload.start_address, payload.end_address) {
        if start >= end {
            return Err(Error { message: String::from_str("Start address must be less than end address") });
        }
    }
    match disassemble_with(table, payload.data.as_slice(), payload.start_address, payload.end_address) {
        Ok(disassembly) => Ok(Output { disassembly }),
        Err(message) => Err(Error { message }),
    }
}

} // verus!
