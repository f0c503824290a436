use emu::error::ExecError;
use emu::nes::cpu::{NesCpu, LOAD_ADDRESS, RESET_VECTOR};
use emu::nes::cpu_flags::{Bit, CpuFlags};
use emu::nes::cpu_registers::CpuRegisters;
use emu::nes::cpu_status::CpuStatus;
use emu::nes::decoder::{decode, describe};
use emu::nes::mem::MemoryMapping;
use emu::nes::memory::{AddressingMode, NesMemory};
use emu::nes::opcode::{Opcode, OpcodeType};
use emu::opcode::OpcodeTable;
use emu::status::{ExecStatus, RunState};

#[test]
fn registers_wrap() {
    let mut regs = CpuRegisters::new();
    assert_eq!((regs.pc, regs.sp, regs.x, regs.y, regs.acc), (0, 0, 0, 0, 0));
    regs.add_pc(0xFFFF).inc_pc();
    assert_eq!(regs.pc, 0);
    regs.add_pc(0x8000).add_pc(0x8001);
    assert_eq!(regs.pc, 1);
    regs.add_sp(0xFF).inc_sp();
    assert_eq!(regs.sp, 0);
    regs.inc_sp().add_sp(2);
    assert_eq!(regs.sp, 3);
}

#[test]
fn status_by_position() {
    let mut status = CpuStatus::new();
    assert!(!status.by_index(CpuStatus::CARRY));
    status.turn_on(CpuStatus::CARRY);
    status.turn_on(CpuStatus::NEGATIVE);
    assert!(status.by_index(CpuStatus::CARRY));
    assert!(status.by_index(CpuStatus::NEGATIVE));
    assert!(!status.by_index(CpuStatus::ZERO));
    status.turn_off(CpuStatus::CARRY);
    assert!(!status.by_index(CpuStatus::CARRY));
    assert!(status.by_index(CpuStatus::NEGATIVE));
    assert_eq!(status.turn(CpuStatus::ZERO, || true), 0b0100_0001);
    assert_eq!(status.turn(CpuStatus::NEGATIVE, || false), 0b0100_0000);
    assert_eq!(status.turn(CpuStatus::OVERFLOW, || true), 0b0100_0010);
}

#[test]
fn flag_bits() {
    let mut flags = CpuFlags::zero();
    assert_eq!(flags.by_index(CpuFlags::ZERO), Bit::Zero);
    flags.modify_bit(CpuFlags::ZERO, Bit::One);
    assert_eq!(flags.by_index(CpuFlags::ZERO), Bit::One);
    assert_eq!(flags.by_index(CpuFlags::CARRY), Bit::Zero);
    flags.modify_bit(CpuFlags::ZERO, Bit::Zero);
    assert_eq!(flags.by_index(CpuFlags::ZERO), Bit::Zero);

    let mut all = CpuFlags::new(0xFF);
    all.modify_bit(CpuFlags::BREAK, Bit::Zero);
    assert_eq!(all.by_index(CpuFlags::BREAK), Bit::Zero);
    assert_eq!(all.by_index(CpuFlags::DECIMAL), Bit::One);
    assert_eq!(all.by_index(CpuFlags::INTERRUPT), Bit::One);
    all.modify_by_predicate(CpuFlags::DECIMAL, |bit| if bit.on() { Bit::Zero } else { Bit::One });
    assert_eq!(all.by_index(CpuFlags::DECIMAL), Bit::Zero);
    all.modify_by_predicate(CpuFlags::DECIMAL, |bit| if bit.on() { Bit::Zero } else { Bit::One });
    assert_eq!(all.by_index(CpuFlags::DECIMAL), Bit::One);

    assert!(Bit::One.on());
    assert!(!Bit::One.off());
    assert!(Bit::Zero.off());
    assert!(!Bit::Zero.on());
    assert_eq!(Bit::from(0), Bit::Zero);
    assert_eq!(Bit::from(1), Bit::One);
    assert!(Bit::Zero < Bit::One);
}

#[test]
fn memory_with_zero_page() {
    let mut mem = NesMemory::new();
    mem.write_u16(0x10, 0x0AFF).write_u16(0xFFFF, 0x1234);
    assert_eq!(mem.read(0x10), 0xFF);
    assert_eq!(mem.read(0x11), 0x0A);
    assert_eq!(mem.read_u16(0x10), 0x0AFF);
    assert_eq!(mem.read_u16_zp(0x10), 0x0AFF);
    assert_eq!(mem.read(0xFFFF), 0x34);
    assert_eq!(mem.read(0x0000), 0x12);
    assert_eq!(mem.read_u16(0xFFFF), 0x1234);

    mem.write_u16_zp(0xFF, 0xABCD);
    assert_eq!(mem.read_zp(0xFF), 0xCD);
    assert_eq!(mem.read_zp(0x00), 0xAB);
    assert_eq!(mem.read(0x0100), 0x00);
    mem.write_zp(0x20, 7);
    mem.write(0x21, 8);
    assert_eq!(mem.read_u16_zp(0x20), 0x0807);

    assert_eq!(mem.bulk_write(0xFFFE, &[1, 2]), Ok(()));
    assert_eq!(mem.read(0xFFFF), 2);
    assert_eq!(mem.bulk_write(0xFFFE, &[1, 2, 3]), Err(ExecError::OutOfBounds));
    assert_eq!(mem.bulk_write_zp(0x30, &[4, 5]), Ok(()));
    assert_eq!(mem.read_zp(0x31), 5);
    assert_eq!(mem.bulk_write_zp(0xFF, &vec![0u8; 0x1_0000]), Err(ExecError::OutOfBounds));
    assert_eq!(mem.read_zp(0x31), 5);
}

#[test]
fn mapping_hands_back_what_it_wrote() {
    let mut map = MemoryMapping::new();
    assert_eq!(map.global().len(), 0x1_0000);
    assert_eq!(map.write(0x0010, 0x42), 0x42);
    assert_eq!(map.read(0x0010), 0x42);
    assert_eq!(map.write_u16(0xFFFF, 0xBEEF), 0xBEEF);
    assert_eq!(map.read(0xFFFF), 0xEF);
    assert_eq!(map.read(0x0000), 0xBE);
    assert_eq!(map.read_u16(0xFFFF), 0xBEEF);
    assert_eq!(map.bulk_write(0x2000, &[1, 2, 3]), Ok(3));
    assert_eq!(map.global()[0x2002], 3);
    assert_eq!(map.bulk_write(0xFFFF, &[1, 2]), Err(ExecError::OutOfBounds));
    assert_eq!(map.read(0xFFFF), 0xEF);
    assert_eq!(map.bulk_write(0x0000, &vec![9u8; 0x1_0000]), Ok(0x1_0000));

    let cells = map.global_mut();
    assert_eq!(cells.len(), 0x1_0000);
    cells[0x1234] = 0x56;
    cells[0xFFFF] = 0x78;
    assert_eq!(map.read(0x1234), 0x56);
    assert_eq!(map.read_u16(0xFFFF), 0x0978);
}

#[test]
fn records_of_instructions() {
    let table = OpcodeTable::new();
    let lda = decode(&table, 0xA9).unwrap();
    assert_eq!((lda.hex, lda.pc_offset), (0xA9, 1));
    assert_eq!(lda.opcode, OpcodeType::Lda);
    assert_eq!(lda.mode, AddressingMode::Immediate);

    let sta = decode(&table, 0x99).unwrap();
    assert_eq!((sta.hex, sta.pc_offset), (0x99, 2));
    assert_eq!(sta.opcode, OpcodeType::Sta);
    assert_eq!(sta.mode, AddressingMode::AbsoluteY);

    let tax = decode(&table, 0xAA).unwrap();
    assert_eq!((tax.hex, tax.pc_offset), (0xAA, 0));
    assert_eq!(tax.opcode, OpcodeType::Tax);

    let asl = decode(&table, 0x0A).unwrap();
    assert_eq!((asl.opcode, asl.pc_offset), (OpcodeType::Asl, 0));
    let asl_zp = decode(&table, 0x06).unwrap();
    assert_eq!((asl_zp.opcode, asl_zp.pc_offset, asl_zp.mode), (OpcodeType::Asl, 1, AddressingMode::ZeroPage));

    let beq = decode(&table, 0xF0).unwrap();
    assert_eq!((beq.opcode, beq.pc_offset, beq.mode), (OpcodeType::Beq, 1, AddressingMode::Immediate));

    assert!(decode(&table, 0x02).is_none());
    assert!(decode(&table, 0xFF).is_none());
    assert!(describe(0x00, emu::opcode::Opcode::Uninitialized).is_none());
    assert!(describe(0x00, emu::opcode::Opcode::Lda(emu::mem::AddrMode::Relative, 1)).is_none());
    assert!(describe(0x00, emu::opcode::Opcode::Lda(emu::mem::AddrMode::ZeroPage, 0)).is_none());

    let made = Opcode::new(0x85, 1, OpcodeType::Sta, AddressingMode::ZeroPage);
    assert_eq!((made.hex, made.pc_offset, made.opcode, made.mode), (0x85, 1, OpcodeType::Sta, AddressingMode::ZeroPage));
    let bare = Opcode::zero_offset(0xE8, OpcodeType::Inx);
    assert_eq!((bare.hex, bare.pc_offset, bare.opcode, bare.mode), (0xE8, 0, OpcodeType::Inx, AddressingMode::Immediate));
}

#[test]
fn load_points_the_reset_vector() {
    let mut cpu = NesCpu::new();
    cpu.regs.sp = 9;
    assert_eq!(cpu.load(&[0xA9, 0x05, 0x00]), Ok(()));
    assert_eq!(cpu.mem.read(LOAD_ADDRESS), 0xA9);
    assert_eq!(cpu.mem.read_u16(RESET_VECTOR), LOAD_ADDRESS);
    assert_eq!(cpu.regs.pc, 0);
    cpu.regs.x = 4;
    cpu.reset();
    assert_eq!(cpu.regs.pc, LOAD_ADDRESS);
    assert_eq!((cpu.regs.x, cpu.regs.sp), (0, 0));
    assert_eq!(cpu.fetch(), 0xA9);
    assert_eq!(cpu.regs.pc, LOAD_ADDRESS + 1);
    cpu.regs.pc = LOAD_ADDRESS;
    assert_eq!(cpu.fetch_u16(), 0x05A9);
    assert_eq!(cpu.regs.pc, LOAD_ADDRESS + 2);
}

#[test]
fn nes_program_that_does_not_fit_is_refused() {
    let mut cpu = NesCpu::new();
    cpu.regs.acc = 3;
    let image = vec![0xE8u8; 0x8001];
    assert_eq!(cpu.interpret(&image), Some(ExecError::OutOfBounds));
    assert_eq!(cpu.regs.acc, 3);
    assert_eq!(cpu.mem.read(LOAD_ADDRESS), 0);
    assert_eq!(cpu.mem.read_u16(RESET_VECTOR), 0);
    assert_eq!(cpu.load_reset(&image), Err(ExecError::OutOfBounds));
}

#[test]
fn nes_illegal_opcode_faults_and_stops() {
    let mut cpu = NesCpu::new();
    assert_eq!(
        cpu.interpret(&[0xA9, 0x07, 0x02, 0xA9, 0x01, 0x00]),
        Some(ExecError::InvalidInstruction)
    );
    assert_eq!(cpu.state, RunState::Faulted(ExecError::InvalidInstruction));
    assert_eq!(cpu.regs.acc, 0x07);
    assert_eq!(cpu.regs.pc, LOAD_ADDRESS + 3);
    assert_eq!(cpu.step(), Err(ExecError::InvalidInstruction));
    assert_eq!(cpu.regs.pc, LOAD_ADDRESS + 3);
    cpu.run();
    assert_eq!(cpu.regs.acc, 0x07);
}

#[test]
fn nes_add_shift_and_branch() {
    let mut cpu = NesCpu::new();
    assert_eq!(cpu.interpret(&[0xA9, 0x01, 0x69, 0xFF, 0x69, 0x01, 0x00]), None);
    assert_eq!(cpu.state, RunState::Halted);
    assert_eq!(cpu.regs.acc, 0x02);
    assert!(!cpu.status.by_index(CpuStatus::CARRY));

    let mut looping = NesCpu::new();
    assert_eq!(
        looping.interpret(&[0xA9, 0xFC, 0xAA, 0xA9, 0x00, 0x69, 0x01, 0xE8, 0xD0, 0xFB, 0x00]),
        None
    );
    assert_eq!(looping.regs.acc, 0x04);
    assert_eq!(looping.regs.x, 0x00);

    let mut shifting = NesCpu::new();
    shifting.mem.write(0xFA, 0x81);
    assert_eq!(shifting.interpret(&[0x06, 0xFA, 0xA9, 0x40, 0x0A, 0x29, 0xF0, 0xA8, 0x00]), None);
    assert_eq!(shifting.mem.read(0xFA), 0x02);
    assert_eq!(shifting.regs.acc, 0x80);
    assert_eq!(shifting.regs.y, 0x80);
    assert!(shifting.status.by_index(CpuStatus::NEGATIVE));
    assert!(!shifting.status.by_index(CpuStatus::CARRY));

    let mut overflowing = NesCpu::new();
    assert_eq!(overflowing.interpret(&[0xA9, 0x7F, 0x69, 0x01, 0x00]), None);
    assert_eq!(overflowing.regs.acc, 0x80);
    assert!(overflowing.status.by_index(CpuStatus::OVERFLOW));
    assert!(overflowing.status.by_index(CpuStatus::NEGATIVE));
}

#[test]
fn nes_steps_one_at_a_time() {
    let mut cpu = NesCpu::new();
    cpu.load_reset(&[0xE8, 0xB0, 0x02, 0x90, 0x01, 0x02, 0x00]).unwrap();
    assert_eq!(cpu.step(), Ok(ExecStatus::Executing));
    assert_eq!(cpu.regs.x, 1);
    assert_eq!(cpu.step(), Ok(ExecStatus::Executing));
    assert_eq!(cpu.regs.pc, LOAD_ADDRESS + 3);
    assert_eq!(cpu.step(), Ok(ExecStatus::Executing));
    assert_eq!(cpu.regs.pc, LOAD_ADDRESS + 6);
    assert_eq!(cpu.step(), Ok(ExecStatus::Exit));
    assert_eq!(cpu.step(), Ok(ExecStatus::Exit));
    assert_eq!(cpu.regs.pc, LOAD_ADDRESS + 7);

    let mut direct = NesCpu::new();
    direct.mem.write(0x0000, 0x80);
    direct.lda(AddressingMode::Immediate);
    assert_eq!(direct.regs.acc, 0x80);
    assert!(direct.status.by_index(CpuStatus::NEGATIVE));
    assert_eq!(direct.translate_addr(AddressingMode::ZeroPage), 0x0080);
    direct.regs.x = 0x90;
    assert_eq!(direct.translate_addr(AddressingMode::ZeroPageX), 0x0010);
}
