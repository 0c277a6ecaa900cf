use nes_core::decoder::{
    decode_at, disassemble, lookup, AddressMode, DecodedInstruction, InstructionInfo, Mnemonic,
};

fn row(mnemonic: Mnemonic, mode: AddressMode, bytes: u8, cycles: u8) -> InstructionInfo {
    InstructionInfo { mnemonic, mode, bytes, cycles }
}

fn length_of(mode: AddressMode) -> u8 {
    match mode {
        AddressMode::Implied | AddressMode::Accumulator => 1,
        AddressMode::Absolute
        | AddressMode::AbsoluteX
        | AddressMode::AbsoluteY
        | AddressMode::Indirect => 3,
        _ => 2,
    }
}

#[test]
fn lookup_knows_lda_immediate() {
    assert_eq!(lookup(0xA9), row(Mnemonic::LDA, AddressMode::Immediate, 2, 2));
}

#[test]
fn lookup_has_a_row_for_every_byte() {
    for opcode in 0..=255u8 {
        let info = lookup(opcode);
        assert!(1 <= info.bytes && info.bytes <= 3, "opcode {:02X}", opcode);
        assert_eq!(info.bytes, length_of(info.mode), "opcode {:02X}", opcode);
        assert_eq!(info.cycles == 0, info.mnemonic == Mnemonic::JAM, "opcode {:02X}", opcode);
        assert!(info.cycles <= 8, "opcode {:02X}", opcode);
    }
}

#[test]
fn lookup_official_rows() {
    assert_eq!(lookup(0x00), row(Mnemonic::BRK, AddressMode::Implied, 1, 7));
    assert_eq!(lookup(0x20), row(Mnemonic::JSR, AddressMode::Absolute, 3, 6));
    assert_eq!(lookup(0x4C), row(Mnemonic::JMP, AddressMode::Absolute, 3, 3));
    assert_eq!(lookup(0x6C), row(Mnemonic::JMP, AddressMode::Indirect, 3, 5));
    assert_eq!(lookup(0x60), row(Mnemonic::RTS, AddressMode::Implied, 1, 6));
    assert_eq!(lookup(0x0A), row(Mnemonic::ASL, AddressMode::Accumulator, 1, 2));
    assert_eq!(lookup(0x1E), row(Mnemonic::ASL, AddressMode::AbsoluteX, 3, 7));
    assert_eq!(lookup(0x91), row(Mnemonic::STA, AddressMode::IndirectY, 2, 6));
    assert_eq!(lookup(0xB1), row(Mnemonic::LDA, AddressMode::IndirectY, 2, 5));
    assert_eq!(lookup(0xA1), row(Mnemonic::LDA, AddressMode::IndirectX, 2, 6));
    assert_eq!(lookup(0x96), row(Mnemonic::STX, AddressMode::ZeroPageY, 2, 4));
    assert_eq!(lookup(0xD0), row(Mnemonic::BNE, AddressMode::Relative, 2, 2));
    assert_eq!(lookup(0x48), row(Mnemonic::PHA, AddressMode::Implied, 1, 3));
    assert_eq!(lookup(0x68), row(Mnemonic::PLA, AddressMode::Implied, 1, 4));
    assert_eq!(lookup(0xEA), row(Mnemonic::NOP, AddressMode::Implied, 1, 2));
    assert_eq!(lookup(0xC9), row(Mnemonic::CMP, AddressMode::Immediate, 2, 2));
}

#[test]
fn lookup_unofficial_rows() {
    assert_eq!(lookup(0x02), row(Mnemonic::JAM, AddressMode::Implied, 1, 0));
    assert_eq!(lookup(0xF2), row(Mnemonic::JAM, AddressMode::Implied, 1, 0));
    assert_eq!(lookup(0x03), row(Mnemonic::SLO, AddressMode::IndirectX, 2, 8));
    assert_eq!(lookup(0xA7), row(Mnemonic::LAX, AddressMode::ZeroPage, 2, 3));
    assert_eq!(lookup(0x8F), row(Mnemonic::SAX, AddressMode::Absolute, 3, 4));
    assert_eq!(lookup(0xEB), row(Mnemonic::SBC, AddressMode::Immediate, 2, 2));
    assert_eq!(lookup(0x1C), row(Mnemonic::NOP, AddressMode::AbsoluteX, 3, 4));
    assert_eq!(lookup(0xDB), row(Mnemonic::DCP, AddressMode::AbsoluteY, 3, 7));
    assert_eq!(lookup(0x9B), row(Mnemonic::TAS, AddressMode::AbsoluteY, 3, 5));
    assert_eq!(lookup(0xFF), row(Mnemonic::ISC, AddressMode::AbsoluteX, 3, 7));
}

#[test]
fn disassemble_reads_operands() {
    // LDA #$10; STA $0200; TAX; JMP $8000
    let code = [0xA9, 0x10, 0x8D, 0x00, 0x02, 0xAA, 0x4C, 0x00, 0x80];
    let listing = disassemble(&code);
    assert_eq!(listing.len(), 4);
    assert_eq!(
        listing[0],
        DecodedInstruction { info: lookup(0xA9), operand: Some(0x0010) }
    );
    assert_eq!(
        listing[1],
        DecodedInstruction { info: lookup(0x8D), operand: Some(0x0200) }
    );
    assert_eq!(listing[2], DecodedInstruction { info: lookup(0xAA), operand: None });
    assert_eq!(
        listing[3],
        DecodedInstruction { info: lookup(0x4C), operand: Some(0x8000) }
    );
}

#[test]
fn disassemble_of_nothing_is_empty() {
    assert!(disassemble(&[]).is_empty());
}

#[test]
fn disassemble_lengths_add_up_to_the_stream() {
    let code = [0xA9, 0x10, 0x8D, 0x00, 0x02, 0xAA, 0x4C, 0x00, 0x80, 0xEA, 0x02];
    let listing = disassemble(&code);
    let total: usize = listing.iter().map(|i| i.info.bytes as usize).sum();
    assert_eq!(total, code.len());
    assert!(listing.iter().all(|i| i.info.bytes == 1 || i.operand.is_some()));
}

#[test]
fn disassemble_lists_a_cut_instruction_without_operand() {
    // LDA #$10, then STA absolute with only one of its two operand bytes
    let code = [0xA9, 0x10, 0x8D, 0x00];
    let listing = disassemble(&code);
    assert_eq!(listing.len(), 2);
    assert_eq!(listing[1], DecodedInstruction { info: lookup(0x8D), operand: None });
    let whole: usize = listing[..1].iter().map(|i| i.info.bytes as usize).sum();
    let all: usize = listing.iter().map(|i| i.info.bytes as usize).sum();
    assert!(whole < code.len() && code.len() < all);
    // a two-byte instruction whose operand is missing
    let listing = disassemble(&[0xEA, 0xA9]);
    assert_eq!(listing.len(), 2);
    assert_eq!(listing[1], DecodedInstruction { info: lookup(0xA9), operand: None });
}

#[test]
fn disassemble_every_stream_of_two_bytes() {
    for first in 0..=255u8 {
        for second in [0x00u8, 0x02, 0x4C, 0xA9, 0xEA, 0xFF] {
            let code = [first, second];
            let listing = disassemble(&code);
            let total: usize = listing.iter().map(|i| i.info.bytes as usize).sum();
            let last = listing[listing.len() - 1];
            let cut = last.info.bytes > 1 && last.operand.is_none();
            if cut {
                assert!(total > code.len());
            } else {
                assert_eq!(total, code.len());
            }
        }
    }
}

#[test]
fn decode_at_restarts_anywhere() {
    let code = [0xA9, 0x10, 0x8D, 0x00, 0x02, 0xAA];
    assert_eq!(decode_at(&code, 2).operand, Some(0x0200));
    assert_eq!(decode_at(&code, 5).info.mnemonic, Mnemonic::TAX);
    // decoding from the middle of an instruction reads its operand as an opcode
    assert_eq!(decode_at(&code, 1).info, lookup(0x10));
    assert_eq!(decode_at(&code, 1).operand, Some(0x8D));
}
