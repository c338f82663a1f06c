//! The description of the NMOS 6502 instruction set that the disassembler
//! uses by default: the documented opcodes only, so that the undocumented ones
//! decode as unknown.

use vstd::prelude::*;

verus! {

/// The 6502 opcode table as JSON: byte key, instruction template, and the
/// relative-addressing flag of the branch instructions.
pub const BIN6502_SOURCE: &'static str = r#"{
    "00": { "ins": "BRK" },
    "01": { "ins": "ORA ($hh,x)" },
    "05": { "ins": "ORA $hh" },
    "06": { "ins": "ASL $hh" },
    "08": { "ins": "PHP" },
    "09": { "ins": "ORA #$hh" },
    "0a": { "ins": "ASL a" },
    "0d": { "ins": "ORA $hhll" },
    "0e": { "ins": "ASL $hhll" },
    "10": { "ins": "BPL $hh", "rel": true },
    "11": { "ins": "ORA ($hh),y" },
    "15": { "ins": "ORA $hh,x" },
    "16": { "ins": "ASL $hh,x" },
    "18": { "ins": "CLC" },
    "19": { "ins": "ORA $hhll,y" },
    "1d": { "ins": "ORA $hhll,x" },
    "1e": { "ins": "ASL $hhll,x" },
    "20": { "ins": "JSR $hhll" },
    "21": { "ins": "AND ($hh,x)" },
    "24": { "ins": "BIT $hh" },
    "25": { "ins": "AND $hh" },
    "26": { "ins": "ROL $hh" },
    "28": { "ins": "PLP" },
    "29": { "ins": "AND #$hh" },
    "2a": { "ins": "ROL a" },
    "2c": { "ins": "BIT $hhll" },
    "2d": { "ins": "AND $hhll" },
    "2e": { "ins": "ROL $hhll" },
    "30": { "ins": "BMI $hh", "rel": true },
    "31": { "ins": "AND ($hh),y" },
    "35": { "ins": "AND $hh,x" },
    "36": { "ins": "ROL $hh,x" },
    "38": { "ins": "SEC" },
    "39": { "ins": "AND $hhll,y" },
    "3d": { "ins": "AND $hhll,x" },
    "3e": { "ins": "ROL $hhll,x" },
    "40": { "ins": "RTI" },
    "41": { "ins": "EOR ($hh,x)" },
    "45": { "ins": "EOR $hh" },
    "46": { "ins": "LSR $hh" },
    "48": { "ins": "PHA" },
    "49": { "ins": "EOR #$hh" },
    "4a": { "ins": "LSR a" },
    "4c": { "ins": "JMP $hhll" },
    "4d": { "ins": "EOR $hhll" },
    "4e": { "ins": "LSR $hhll" },
    "50": { "ins": "BVC $hh", "rel": true },
    "51": { "ins": "EOR ($hh),y" },
    "55": { "ins": "EOR $hh,x" },
    "56": { "ins": "LSR $hh,x" },
    "58": { "ins": "CLI" },
    "59": { "ins": "EOR $hhll,y" },
    "5d": { "ins": "EOR $hhll,x" },
    "5e": { "ins": "LSR $hhll,x" },
    "60": { "ins": "RTS" },
    "61": { "ins": "ADC ($hh,x)" },
    "65": { "ins": "ADC $hh" },
    "66": { "ins": "ROR $hh" },
    "68": { "ins": "PLA" },
    "69": { "ins": "ADC #$hh" },
    "6a": { "ins": "ROR a" },
    "6c": { "ins": "JMP ($hhll)" },
    "6d": { "ins": "ADC $hhll" },
    "6e": { "ins": "ROR $hhll" },
    "70": { "ins": "BVS $hh", "rel": true },
    "71": { "ins": "ADC ($hh),y" },
    "75": { "ins": "ADC $hh,x" },
    "76": { "ins": "ROR $hh,x" },
    "78": { "ins": "SEI" },
    "79": { "ins": "ADC $hhll,y" },
    "7d": { "ins": "ADC $hhll,x" },
    "7e": { "ins": "ROR $hhll,x" },
    "81": { "ins": "STA ($hh,x)" },
    "84": { "ins": "STY $hh" },
    "85": { "ins": "STA $hh" },
    "86": { "ins": "STX $hh" },
    "88": { "ins": "DEY" },
    "8a": { "ins": "TXA" },
    "8c": { "ins": "STY $hhll" },
    "8d": { "ins": "STA $hhll" },
    "8e": { "ins": "STX $hhll" },
    "90": { "ins": "BCC $hh", "rel": true },
    "91": { "ins": "STA ($hh),y" },
    "94": { "ins": "STY $hh,x" },
    "95": { "ins": "STA $hh,x" },
    "96": { "ins": "STX $hh,y" },
    "98": { "ins": "TYA" },
    "99": { "ins": "STA $hhll,y" },
    "9a": { "ins": "TXS" },
    "9d": { "ins": "STA $hhll,x" },
    "a0": { "ins": "LDY #$hh" },
    "a1": { "ins": "LDA ($hh,x)" },
    "a2": { "ins": "LDX #$hh" },
    "a4": { "ins": "LDY $hh" },
    "a5": { "ins": "LDA $hh" },
    "a6": { "ins": "LDX $hh" },
    "a8": { "ins": "TAY" },
    "a9": { "ins": "LDA #$hh" },
    "aa": { "ins": "TAX" },
    "ac": { "ins": "LDY $hhll" },
    "ad": { "ins": "LDA $hhll" },
    "ae": { "ins": "LDX $hhll" },
    "b0": { "ins": "BCS $hh", "rel": true },
    "b1": { "ins": "LDA ($hh),y" },
    "b4": { "ins": "LDY $hh,x" },
    "b5": { "ins": "LDA $hh,x" },
    "b6": { "ins": "LDX $hh,y" },
    "b8": { "ins": "CLV" },
    "b9": { "ins": "LDA $hhll,y" },
    "ba": { "ins": "TSX" },
    "bc": { "ins": "LDY $hhll,x" },
    "bd": { "ins": "LDA $hhll,x" },
    "be": { "ins": "LDX $hhll,y" },
    "c0": { "ins": "CPY #$hh" },
    "c1": { "ins": "CMP ($hh,x)" },
    "c4": { "ins": "CPY $hh" },
    "c5": { "ins": "CMP $hh" },
    "c6": { "ins": "DEC $hh" },
    "c8": { "ins": "INY" },
    "c9": { "ins": "CMP #$hh" },
    "ca": { "ins": "DEX" },
    "cc": { "ins": "CPY $hhll" },
    "cd": { "ins": "CMP $hhll" },
    "ce": { "ins": "DEC $hhll" },
    "d0": { "ins": "BNE $hh", "rel": true },
    "d1": { "ins": "CMP ($hh),y" },
    "d5": { "ins": "CMP $hh,x" },
    "d6": { "ins": "DEC $hh,x" },
    "d8": { "ins": "CLD" },
    "d9": { "ins": "CMP $hhll,y" },
    "dd": { "ins": "CMP $hhll,x" },
    "de": { "ins": "DEC $hhll,x" },
    "e0": { "ins": "CPX #$hh" },
    "e1": { "ins": "SBC ($hh,x)" },
    "e4": { "ins": "CPX $hh" },
    "e5": { "ins": "SBC $hh" },
    "e6": { "ins": "INC $hh" },
    "e8": { "ins": "INX" },
    "e9": { "ins": "SBC #$hh" },
    "ea": { "ins": "NOP" },
    "ec": { "ins": "CPX $hhll" },
    "ed": { "ins": "SBC $hhll" },
    "ee": { "ins": "INC $hhll" },
    "f0": { "ins": "BEQ $hh", "rel": true },
    "f1": { "ins": "SBC ($hh),y" },
    "f5": { "ins": "SBC $hh,x" },
    "f6": { "ins": "INC $hh,x" },
    "f8": { "ins": "SED" },
    "f9": { "ins": "SBC $hhll,y" },
    "fd": { "ins": "SBC $hhll,x" },
    "fe": { "ins": "INC $hhll,x" }
}"#;

} // verus!
