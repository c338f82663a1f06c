//! The public entry point: disassemble a buffer for a kind of binary.

pub mod bin6502;
pub mod bin6502_source;
pub mod opcode;
pub mod table;

use vstd::prelude::*;

use crate::disassembler::bin6502::{bin6502_disassembly, texts};

verus! {

/// A listing: one text line per decoded instruction.
#[derive(Debug, PartialEq, Eq)]
pub struct Output {
    pub disassembly: Vec<String>,
}

/// The instruction sets that the disassembler knows.
#[derive(Clone, Copy, Debug, PartialEq, Eq)]
pub enum BinaryKind {
    Bin6502,
}

/// The listing that `kind` gives, or the error message.
pub open spec fn kind_disassembly(
    kind: BinaryKind,
    data: Seq<u8>,
    start_address: Option<u16>,
    end_address: Option<u16>,
) -> Result<Seq<Seq<char>>, Seq<char>> {
    match kind {
        BinaryKind::Bin6502 => bin6502_disassembly(data, start_address, end_address),
    }
}

/// The listing, or the error message, that a call returned.
pub open spec fn output_view(r: Result<Output, String>) -> Result<Seq<Seq<char>>, Seq<char>> {
    match r {
        Ok(o) => Ok(texts(o.disassembly@)),
        Err(m) => Err(m@),
    }
}

/// Disassembles `data` from `start_address` (default 0) up to `end_address`
/// (default the end of the data) as code of the given kind.
pub fn disassemble(
    data: &[u8],
    start_address: Option<u16>,
    end_address: Option<u16>,
    binary_kind: BinaryKind,
) -> (r: Result<Output, String>)
    ensures
        output_view(r) == kind_disassembly(binary_kind, data@, start_address, end_address),
{
    match binary_kind {
        BinaryKind::Bin6502 => match bin6502::disassemble(data, start_address, end_address) {
            Ok(disassembly) => Ok(Output { disassembly }),
            Err(e) => Err(e),
        },
    }
}

} // verus!
