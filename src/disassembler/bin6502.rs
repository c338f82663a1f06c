//! The 6502 decode engine: a single cursor walks the buffer, and each step
//! decodes the instruction whose opcode byte is under it.

use vstd::prelude::*;

use crate::disassembler::bin6502_source::BIN6502_SOURCE;
use crate::disassembler::opcode::{
    arity, substitute, substitute_placeholder, InstructionArgumentLength, OpCodeView,
    HIGH, LOW,
};
use crate::disassembler::table::{
    description_table, table_error_message, table_view, OpcodeTable, TableError, TableErrorView,
};
use crate::hex::{hex2, hex4_upper, hex_min2, push_hex2, push_hex4_upper, push_hex_min2};

verus! {

/// One decoded instruction.
pub struct Disassembly {
    /// Where its opcode byte stands in the buffer.
    pub start_address: u16,
    /// The bytes it consumed, in buffer order: opcode, then operands.
    pub bytes_used: Vec<u8>,
    /// The template with its operands substituted, or `???` for an unknown opcode.
    pub instructions: String,
}

pub struct DisassemblyView {
    pub start_address: u16,
    pub bytes_used: Seq<u8>,
    pub instructions: Seq<char>,
}

impl View for Disassembly {
    type V = DisassemblyView;

    open spec fn view(&self) -> DisassemblyView {
        DisassemblyView {
            start_address: self.start_address,
            bytes_used: self.bytes_used@,
            instructions: self.instructions@,
        }
    }
}

/// How many bytes the instruction with opcode `b` occupies: one for an unknown
/// opcode, else one plus the operands that its template asks for.
pub open spec fn instruction_length(table: Seq<Option<OpCodeView>>, b: u8) -> nat {
    match table[b as int] {
        None => 1,
        Some(op) => 1 + arity(op.instructions),
    }
}

/// The signed value of a displacement byte.
pub open spec fn displacement(d: u8) -> int {
    if d < 128 {
        d as int
    } else {
        d as int - 256
    }
}

/// Where a branch at `pc` with displacement byte `d` goes: the address after
/// the two-byte instruction plus the displacement, wrapped to 16 bits.
pub open spec fn branch_target(pc: int, d: u8) -> u16 {
    ((pc + 2 + displacement(d)) % 65536) as u16
}

/// The instruction whose opcode byte stands at `pc`.
pub open spec fn instruction_at(table: Seq<Option<OpCodeView>>, data: Seq<u8>, pc: int) -> DisassemblyView {
    let b = data[pc];
    let address = pc as u16;
    match table[b as int] {
        None => DisassemblyView { start_address: address, bytes_used: seq![b], instructions: "???"@ },
        Some(op) => {
            let t = op.instructions;
            if arity(t) == 0 {
                DisassemblyView { start_address: address, bytes_used: seq![b], instructions: t }
            } else if arity(t) == 1 {
                let operand = data[pc + 1];
                let text = if op.is_relative == Some(true) {
                    substitute(t, HIGH, hex_min2(branch_target(pc, operand)))
                } else {
                    substitute(t, HIGH, hex2(operand))
                };
                DisassemblyView { start_address: address, bytes_used: seq![b, operand], instructions: text }
            } else {
                let low = data[pc + 1];
                let high = data[pc + 2];
                DisassemblyView {
                    start_address: address,
                    bytes_used: seq![b, low, high],
                    instructions: substitute(substitute(t, HIGH, hex2(high)), LOW, hex2(low)),
                }
            }
        },
    }
}

/// The walk from `pc` up to `end`: the instructions decoded in order, or the
/// address of the first one whose bytes would reach past `end`.
pub open spec fn decode_from(table: Seq<Option<OpCodeView>>, data: Seq<u8>, pc: nat, end: nat) -> Result<
    Seq<DisassemblyView>,
    nat,
>
    decreases end - pc,
{
    if pc >= end {
        Ok(Seq::empty())
    } else {
        let n = instruction_length(table, data[pc as int]);
        if pc + n > end {
            Err(pc)
        } else {
            match decode_from(table, data, pc + n, end) {
                Ok(rest) => Ok(seq![instruction_at(table, data, pc as int)] + rest),
                Err(a) => Err(a),
            }
        }
    }
}

/// The bytes as two-digit hex numbers separated by single spaces.
pub open spec fn hex_bytes(bs: Seq<u8>) -> Seq<char>
    decreases bs.len(),
{
    if bs.len() == 0 {
        Seq::empty()
    } else if bs.len() == 1 {
        hex2(bs[0])
    } else {
        hex_bytes(bs.drop_last()) + " "@ + hex2(bs.last())
    }
}

/// The text line of one instruction: `0x` and the address in four uppercase
/// digits, its bytes, and its text, separated by single spaces.
pub open spec fn line(d: DisassemblyView) -> Seq<char> {
    "0x"@ + hex4_upper(d.start_address) + " "@ + hex_bytes(d.bytes_used) + " "@ + d.instructions
}

pub open spec fn overrun_message(address: u16) -> Seq<char> {
    "Instruction at 0x"@ + hex4_upper(address) + " reads past the end address"@
}

pub open spec fn end_out_of_bounds_message() -> Seq<char> {
    "End address is out of bounds"@
}

pub open spec fn too_large_message() -> Seq<char> {
    "Data is larger than the 16-bit address space"@
}

/// Where the walk stops: the given end, or the end of the data.
pub open spec fn end_of(data: Seq<u8>, end_address: Option<u16>) -> nat {
    match end_address {
        Some(e) => e as nat,
        None => data.len(),
    }
}

/// The listing of `data` from `start_address` (default 0) up to `end_address`
/// (default the end of the data), or the message of the bounds error.
pub open spec fn disassembly(
    table: Seq<Option<OpCodeView>>,
    data: Seq<u8>,
    start_address: Option<u16>,
    end_address: Option<u16>,
) -> Result<Seq<Seq<char>>, Seq<char>> {
    let start: nat = match start_address {
        Some(s) => s as nat,
        None => 0,
    };
    let end = end_of(data, end_address);
    if end > data.len() {
        Err(end_out_of_bounds_message())
    } else if end > 65536 {
        Err(too_large_message())
    } else {
        match decode_from(table, data, start, end) {
            Ok(v) => Ok(v.map_values(|d: DisassemblyView| line(d))),
            Err(a) => Err(overrun_message(a as u16)),
        }
    }
}

/// The table that the built-in 6502 description gives.
pub open spec fn bin6502_table() -> Result<Seq<Option<OpCodeView>>, TableErrorView> {
    description_table(BIN6502_SOURCE@)
}

/// The listing with the built-in 6502 table, or the table's error message
/// where the built-in description is refused.
pub open spec fn bin6502_disassembly(data: Seq<u8>, start_address: Option<u16>, end_address: Option<u16>) -> Result<
    Seq<Seq<char>>,
    Seq<char>,
> {
    match bin6502_table() {
        Err(e) => Err(table_error_message(e)),
        Ok(t) => disassembly(t, data, start_address, end_address),
    }
}

/// The listing, or the error message, that a call returned.
pub open spec fn listing_view(r: Result<Vec<String>, String>) -> Result<Seq<Seq<char>>, Seq<char>> {
    match r {
        Ok(v) => Ok(texts(v@)),
        Err(m) => Err(m@),
    }
}

pub open spec fn views(v: Seq<Disassembly>) -> Seq<DisassemblyView> {
    v.map_values(|d: Disassembly| d@)
}

pub open spec fn texts(v: Seq<String>) -> Seq<Seq<char>> {
    v.map_values(|s: String| s@)
}

impl Disassembly {
    /// The text line of this instruction.
    pub fn to_string(&self) -> (r: String)
        ensures
            r@ == line(self@),
    {
        let mut out = String::new();
        out.append("0x");
        push_hex4_upper(&mut out, self.start_address);
        out.append(" ");
        let ghost head = out@;
        let n = self.bytes_used.len();
        let mut i: usize = 0;
        while i < n
            invariant
                n == self.bytes_used@.len(),
                i <= n,
                out@ == head + hex_bytes(self.bytes_used@.subrange(0, i as int)),
            decreases n - i,
        {
            if i > 0 {
                out.append(" ");
            }
            push_hex2(&mut out, self.bytes_used[i]);
            let ghost prefix = self.bytes_used@.subrange(0, i + 1);
            assert(prefix.drop_last() =~= self.bytes_used@.subrange(0, i as int));
            assert(out@ =~= head + hex_bytes(prefix));
            i = i + 1;
        }
        assert(self.bytes_used@.subrange(0, n as int) =~= self.bytes_used@);
        out.append(" ");
        out.append(self.instructions.as_str());
        assert(out@ =~= line(self@));
        out
    }
}

/// The target of a branch at `pc` with displacement byte `d`.
fn compute_branch_target(pc: usize, d: u8) -> (r: u16)
    requires
        pc < 65536,
    ensures
        r == branch_target(pc as int, d),
{
    let offset: i32 = if d < 128 { d as i32 } else { d as i32 - 256 };
    let mut t: i32 = pc as i32 + 2 + offset;
    if t < 0 {
        t = t + 65536;
    } else if t >= 65536 {
        t = t - 65536;
    }
    t as u16
}

/// Walks `data` from `start` up to `end`, decoding one instruction per step.
pub fn decode(table: &OpcodeTable, data: &[u8], start: usize, end: usize) -> (r: Result<Vec<Disassembly>, u16>)
    requires
        end <= data@.len(),
        end <= 65536,
    ensures
        match r {
            Ok(v) => decode_from(table@, data@, start as nat, end as nat) == Ok::<_, nat>(views(v@)),
            Err(a) => decode_from(table@, data@, start as nat, end as nat) == Err::<Seq<DisassemblyView>, _>(a as nat),
        },
{
    let ghost t = table@;
    let ghost whole = decode_from(t, data@, start as nat, end as nat);
    let mut out: Vec<Disassembly> = Vec::new();
    let mut pc: usize = start;
    while pc < end
        invariant
            t == table@,
            end <= data@.len(),
            end <= 65536,
            whole == decode_from(t, data@, start as nat, end as nat),
            pc >= end ==> decode_from(t, data@, pc as nat, end as nat) == Ok::<_, nat>(Seq::<DisassemblyView>::empty()),
            match decode_from(t, data@, pc as nat, end as nat) {
                Ok(rest) => whole == Ok::<_, nat>(views(out@) + rest),
                Err(a) => whole == Err::<Seq<DisassemblyView>, _>(a),
            },
        decreases end - pc,
    {
        let b = data[pc];
        let address = pc as u16;
        let ghost step = instruction_at(t, data@, pc as int);
        let (item, n) = match table.lookup(b) {
            None => {
                let item = Disassembly { start_address: address, bytes_used: vec![b], instructions: String::from_str("???") };
                assert(item@.bytes_used =~= step.bytes_used);
                (item, 1usize)
            },
            Some(op) => {
                match op.get_intruction_byte_length() {
                    InstructionArgumentLength::Zero => {
                        let item = Disassembly {
                            start_address: address,
                            bytes_used: vec![b],
                            instructions: String::from_str(op.instructions.as_str()),
                        };
                        assert(item@.bytes_used =~= step.bytes_used);
                        (item, 1usize)
                    },
                    InstructionArgumentLength::OneByte => {
                        if pc + 1 >= end {
                            return Err(address);
                        }
                        let operand = data[pc + 1];
                        let text = if op.is_relative.unwrap_or(false) {
                            let mut target = String::new();
                            push_hex_min2(&mut target, compute_branch_target(pc, operand));
                            substitute_placeholder(op.instructions.as_str(), HIGH, target.as_str())
                        } else {
                            op.format_instruction_high_byte(operand)
                        };
                        let item = Disassembly { start_address: address, bytes_used: vec![b, operand], instructions: text };
                        assert(item@.bytes_used =~= step.bytes_used);
                        assert(item@.instructions =~= step.instructions);
                        (item, 2usize)
                    },
                    InstructionArgumentLength::TwoBytes => {
                        if pc + 2 >= end {
                            return Err(address);
                        }
                        let low = data[pc + 1];
                        let high = data[pc + 2];
                        let text = op.format_instruction_low_and_high_byte(low, high);
                        let item = Disassembly { start_address: address, bytes_used: vec![b, low, high], instructions: text };
                        assert(item@.bytes_used =~= step.bytes_used);
                        (item, 3usize)
                    },
                }
            },
        };
        assert(n == instruction_length(t, b));
        assert(item@ == step);
        let ghost before = out@;
        out.push(item);
        assert(views(out@) =~= views(before).push(step));
        pc = pc + n;
        proof {
            match decode_from(t, data@, pc as nat, end as nat) {
                Ok(rest) => {
                    assert(views(out@) + rest =~= views(before) + (seq![step] + rest));
                },
                Err(a) => {},
            }
        }
    }
    Ok(out)
}

/// The listing of `data` from `start_address` (default 0) up to
/// `end_address` (default the end of the data), one line per instruction,
/// decoded with `table`. A start at or after the end gives an empty listing.
/// Fails when the end lies beyond the data or beyond the 16-bit address
/// space, or when an instruction's bytes would reach past the end.
pub fn disassemble_with(
    table: &OpcodeTable,
    data: &[u8],
    start_address: Option<u16>,
    end_address: Option<u16>,
) -> (r: Result<Vec<String>, String>)
    ensures
        listing_view(r) == disassembly(table@, data@, start_address, end_address),
{
    let start: usize = match start_address {
        Some(s) => s as usize,
        None => 0,
    };
    let end: usize = match end_address {
        Some(e) => e as usize,
        None => data.len(),
    };
    if end > data.len() {
        return Err(String::from_str("End address is out of bounds"));
    }
    if end > 65536 {
        return Err(String::from_str("Data is larger than the 16-bit address space"));
    }
    match decode(table, data, start, end) {
        Err(a) => {
            let mut m = String::from_str("Instruction at 0x");
            push_hex4_upper(&mut m, a);
            m.append(" reads past the end address");
            Err(m)
        },
        Ok(items) => {
            let mut lines: Vec<String> = Vec::new();
            let mut i: usize = 0;
            while i < items.len()
                invariant
                    i <= items@.len(),
                    texts(lines@) == views(items@).subrange(0, i as int).map_values(|d: DisassemblyView| line(d)),
                decreases items@.len() - i,
            {
                let s = items[i].to_string();
                assert(views(items@)[i as int] == items@[i as int]@);
                let ghost before = lines@;
                lines.push(s);
                assert(texts(lines@) =~= texts(before).push(s@));
                assert(views(items@).subrange(0, i + 1).map_values(|d: DisassemblyView| line(d)) =~= views(
                    items@,
                ).subrange(0, i as int).map_values(|d: DisassemblyView| line(d)).push(line(items@[i as int]@)));
                assert(texts(lines@) =~= views(items@).subrange(0, i + 1).map_values(|d: DisassemblyView| line(d)));
                i = i + 1;
            }
            assert(views(items@).subrange(0, items@.len() as int) =~= views(items@));
            Ok(lines)
        },
    }
}

/// Builds the 6502 opcode table from its built-in description.
pub fn create_instruction_map() -> (r: Result<OpcodeTable, TableError>)
    ensures
        table_view(r) == bin6502_table(),
{
    OpcodeTable::from_json(BIN6502_SOURCE)
}

/// The 6502 listing of `data`, decoded with the built-in table: as
/// `disassemble_with`, or the table's error message where the built-in
/// description is refused.
pub fn disassemble(data: &[u8], start_address: Option<u16>, end_address: Option<u16>) -> (r: Result<
    Vec<String>,
    String,
>)
    ensures
        listing_view(r) == bin6502_disassembly(data@, start_address, end_address),
{
    match create_instruction_map() {
        Err(e) => Err(e.message()),
        Ok(table) => disassemble_with(&table, data, start_address, end_address),
    }
}

} // verus!

verus! {

/// The walk from `pc` up to `end` reaches an instruction starting at `p`.
pub open spec fn visits(table: Seq<Option<OpCodeView>>, data: Seq<u8>, pc: nat, end: nat, p: nat) -> bool
    decreases end - pc,
{
    if pc >= end {
        false
    } else if pc == p {
        true
    } else {
        let n = instruction_length(table, data[pc as int]);
        pc + n <= end && visits(table, data, pc + n, end, p)
    }
}

/// An instruction records its own address and exactly the bytes that its
/// opcode's length claims.
pub proof fn lemma_instruction_shape(table: Seq<Option<OpCodeView>>, data: Seq<u8>, pc: nat)
    requires
        pc < 65536,
    ensures
        instruction_at(table, data, pc as int).start_address == pc,
        instruction_at(table, data, pc as int).bytes_used.len() == instruction_length(table, data[pc as int]),
        instruction_at(table, data, pc as int).bytes_used[0] == data[pc as int],
{
}

/// Every instruction of a successful walk from `pc` starts at or after `pc`
/// and ends at or before `end`; a walk over a non-empty range yields at
/// least one instruction.
pub proof fn lemma_walk_within(table: Seq<Option<OpCodeView>>, data: Seq<u8>, pc: nat, end: nat)
    requires
        end <= 65536,
        decode_from(table, data, pc, end) is Ok,
    ensures
        ({
            let v = decode_from(table, data, pc, end)->Ok_0;
            &&& pc < end ==> v.len() > 0
            &&& forall|k: int|
                0 <= k < v.len() ==> pc <= #[trigger] v[k].start_address && v[k].start_address
                    + v[k].bytes_used.len() <= end
        }),
    decreases end - pc,
{
    if pc < end {
        let n = instruction_length(table, data[pc as int]);
        lemma_instruction_shape(table, data, pc);
        lemma_walk_within(table, data, pc + n, end);
    }
}

/// For a range `start < end <= len(data)` whose decoding succeeds, the
/// listing is not empty and its last instruction ends at or before `end`.
pub proof fn lemma_listing_nonempty_within_end(
    table: Seq<Option<OpCodeView>>,
    data: Seq<u8>,
    start: u16,
    end: u16,
)
    requires
        start < end <= data.len(),
        decode_from(table, data, start as nat, end as nat) is Ok,
    ensures
        ({
            let v = decode_from(table, data, start as nat, end as nat)->Ok_0;
            &&& v.len() > 0
            &&& v.last().start_address + v.last().bytes_used.len() <= end
        }),
        disassembly(table, data, Some(start), Some(end)) matches Ok(lines) && lines.len() > 0,
{
    lemma_walk_within(table, data, start as nat, end as nat);
    let v = decode_from(table, data, start as nat, end as nat)->Ok_0;
    assert(v[v.len() - 1] == v.last());
}

/// Decoding has no hidden state: two calls on the same table, data and
/// bounds return the same listing or the same error.
pub proof fn lemma_disassembly_deterministic(
    table: Seq<Option<OpCodeView>>,
    data: Seq<u8>,
    start_address: Option<u16>,
    end_address: Option<u16>,
    r1: Result<Vec<String>, String>,
    r2: Result<Vec<String>, String>,
)
    requires
        listing_view(r1) == disassembly(table, data, start_address, end_address),
        listing_view(r2) == disassembly(table, data, start_address, end_address),
    ensures
        listing_view(r1) == listing_view(r2),
{
}

/// A byte with no table entry decodes to `???` with that byte alone, and the
/// walk goes on at the next byte.
pub proof fn lemma_unknown_opcode(table: Seq<Option<OpCodeView>>, data: Seq<u8>, pc: nat, end: nat)
    requires
        pc < end,
        end <= 65536,
        table[data[pc as int] as int] is None,
    ensures
        instruction_at(table, data, pc as int).bytes_used == seq![data[pc as int]],
        instruction_at(table, data, pc as int).instructions == "???"@,
        instruction_length(table, data[pc as int]) == 1,
        decode_from(table, data, pc, end) == match decode_from(table, data, pc + 1, end) {
            Ok(rest) => Ok(seq![instruction_at(table, data, pc as int)] + rest),
            Err(a) => Err::<Seq<DisassemblyView>, nat>(a),
        },
{
}

/// A walk that reaches an instruction whose bytes would lie at or beyond the
/// end of the data fails at that instruction.
pub proof fn lemma_overrun_fails(table: Seq<Option<OpCodeView>>, data: Seq<u8>, pc: nat, end: nat, p: nat)
    requires
        end <= data.len(),
        visits(table, data, pc, end, p),
        p + instruction_length(table, data[p as int]) > data.len(),
    ensures
        decode_from(table, data, pc, end) == Err::<Seq<DisassemblyView>, nat>(p),
    decreases end - pc,
{
    if pc != p {
        let n = instruction_length(table, data[pc as int]);
        lemma_overrun_fails(table, data, pc + n, end, p);
    }
}

/// Bounds that would have the decoder read beyond the data make the listing
/// fail: an end beyond the data, or an instruction met on the walk whose
/// operand bytes would lie at or beyond the end of the data.
pub proof fn lemma_out_of_bounds_fails(
    table: Seq<Option<OpCodeView>>,
    data: Seq<u8>,
    start_address: Option<u16>,
    end_address: Option<u16>,
    p: nat,
)
    requires
        end_of(data, end_address) > data.len() || (visits(
            table,
            data,
            match start_address {
                Some(s) => s as nat,
                None => 0,
            },
            end_of(data, end_address),
            p,
        ) && p + instruction_length(table, data[p as int]) > data.len()),
    ensures
        disassembly(table, data, start_address, end_address) is Err,
{
    let start: nat = match start_address {
        Some(s) => s as nat,
        None => 0,
    };
    let end = end_of(data, end_address);
    if end <= data.len() && end <= 65536 {
        lemma_overrun_fails(table, data, start, end, p);
    }
}

} // verus!
