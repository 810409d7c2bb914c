use gameboy_core::cpu::structs::{
    AccumulatorAndFlags, BAndC, DAndE, Flags, HAndL, InterruptLines, InterruptMasterEnable,
    ProgramCounter, Registers, StackPointer,
};
use gameboy_core::cpu::{Cpu, Flag, HLMode, Register};
use gameboy_core::memory::{Memory, MemoryMap};

fn blank_registers() -> Registers {
    Registers {
        af: AccumulatorAndFlags { accumulator: 0, flags: Flags::new() },
        bc: BAndC { b: 0, c: 0 },
        de: DAndE { d: 0, e: 0 },
        hl: HAndL { h: 0, l: 0 },
        sp: StackPointer { stackpointer: 0 },
        pc: ProgramCounter { programcounter: 0 },
        ime: InterruptMasterEnable { ime: false, has_waited: false },
    }
}

#[test]
fn new_flags_are_clear() {
    let flags = Flags::new();
    assert_eq!(flags.bits, 0);
    assert!(!flags.get(Flag::Z));
    assert!(!flags.get(Flag::N));
    assert!(!flags.get(Flag::H));
    assert!(!flags.get(Flag::C));
    assert_eq!(Flags::default(), Flags::new());
}

#[test]
fn each_flag_has_its_bit() {
    let mut flags = Flags::new();
    flags.set(Flag::Z, true);
    assert_eq!(flags.bits, 0b1000_0000);
    flags.set(Flag::N, true);
    assert_eq!(flags.bits, 0b1100_0000);
    flags.set(Flag::H, true);
    assert_eq!(flags.bits, 0b1110_0000);
    flags.set(Flag::C, true);
    assert_eq!(flags.bits, 0b1111_0000);
    flags.set(Flag::N, false);
    assert_eq!(flags.bits, 0b1011_0000);
    flags.set(Flag::Z, false);
    assert_eq!(flags.bits, 0b0011_0000);
    flags.set(Flag::C, false);
    assert_eq!(flags.bits, 0b0010_0000);
    flags.set(Flag::H, false);
    assert_eq!(flags.bits, 0);
}

#[test]
fn get_reads_what_set_wrote() {
    let all = [Flag::Z, Flag::N, Flag::H, Flag::C];
    for start in 0..=255u8 {
        for (i, flag) in all.iter().enumerate() {
            for value in [false, true] {
                let mut flags = Flags { bits: start };
                let before: Vec<bool> = all.iter().map(|f| flags.get(*f)).collect();
                flags.set(*flag, value);
                for (j, other) in all.iter().enumerate() {
                    if i == j {
                        assert_eq!(flags.get(*other), value);
                    } else {
                        assert_eq!(flags.get(*other), before[j]);
                    }
                }
                assert_eq!(flags.bits & 0x0F, start & 0x0F);
            }
        }
    }
}

#[test]
fn setting_a_flag_twice_changes_nothing_more() {
    let mut flags = Flags { bits: 0b0101_0000 };
    flags.set(Flag::N, true);
    assert_eq!(flags.bits, 0b0101_0000);
    flags.set(Flag::Z, false);
    assert_eq!(flags.bits, 0b0101_0000);
}

#[test]
fn wide_and_narrow_selectors() {
    for register in [
        Register::AF,
        Register::BC,
        Register::DE,
        Register::HL(HLMode::Normal),
        Register::HL(HLMode::Increment),
        Register::HL(HLMode::Decrement),
        Register::SP,
        Register::PC,
    ] {
        assert!(register.is_wide());
    }
    for register in [
        Register::A,
        Register::F,
        Register::B,
        Register::C,
        Register::D,
        Register::E,
        Register::H,
        Register::L,
    ] {
        assert!(!register.is_wide());
    }
}

#[test]
fn write_then_read_gives_the_value_back() {
    let pairs = [
        Register::BC,
        Register::DE,
        Register::HL(HLMode::Normal),
        Register::SP,
        Register::PC,
    ];
    for register in pairs {
        for value in 0..=0xFFFFu16 {
            let mut registers = blank_registers();
            registers.write_u16(register, value);
            assert_eq!(registers.read_u16(register), value);
        }
    }
}

#[test]
fn accumulator_and_flags_come_back_masked() {
    for value in 0..=0xFFFFu16 {
        let mut registers = blank_registers();
        registers.write_u16(Register::AF, value);
        assert_eq!(registers.read_u16(Register::AF), value & 0xFFF0);
    }
    let mut registers = blank_registers();
    registers.write_u16(Register::AF, 0x12FF);
    assert_eq!(registers.af.accumulator, 0x12);
    assert_eq!(registers.af.flags.bits, 0xF0);
    assert_eq!(registers.read_u16(Register::AF), 0x12F0);
}

#[test]
fn write_splits_high_and_low_byte() {
    let mut registers = blank_registers();
    registers.write_u16(Register::BC, 0xABCD);
    assert_eq!(registers.bc, BAndC { b: 0xAB, c: 0xCD });
    registers.write_u16(Register::DE, 0x0102);
    assert_eq!(registers.de, DAndE { d: 0x01, e: 0x02 });
    registers.write_u16(Register::HL(HLMode::Increment), 0xFF00);
    assert_eq!(registers.hl, HAndL { h: 0xFF, l: 0x00 });
    registers.write_u16(Register::SP, 0xFFFE);
    assert_eq!(registers.sp.stackpointer, 0xFFFE);
    registers.write_u16(Register::PC, 0x0100);
    assert_eq!(registers.pc.programcounter, 0x0100);
    assert_eq!(registers.bc, BAndC { b: 0xAB, c: 0xCD });
    assert_eq!(registers.de, DAndE { d: 0x01, e: 0x02 });
    assert_eq!(registers.af.accumulator, 0);
    assert_eq!(registers.af.flags.bits, 0);
    assert_eq!(registers.ime, InterruptMasterEnable { ime: false, has_waited: false });
}

#[test]
fn read_composes_high_and_low_byte() {
    let mut registers = blank_registers();
    registers.af = AccumulatorAndFlags { accumulator: 0x9A, flags: Flags { bits: 0xB0 } };
    registers.bc = BAndC { b: 0x12, c: 0x34 };
    registers.de = DAndE { d: 0x56, e: 0x78 };
    registers.hl = HAndL { h: 0xDE, l: 0xF0 };
    assert_eq!(registers.read_u16(Register::AF), 0x9AB0);
    assert_eq!(registers.read_u16(Register::BC), 0x1234);
    assert_eq!(registers.read_u16(Register::DE), 0x5678);
    assert_eq!(registers.read_u16(Register::HL(HLMode::Normal)), 0xDEF0);
}

#[test]
fn plain_reads_change_nothing() {
    let mut registers = blank_registers();
    registers.write_u16(Register::BC, 0x1111);
    registers.write_u16(Register::HL(HLMode::Normal), 0x2222);
    let before = registers;
    for register in [
        Register::AF,
        Register::BC,
        Register::DE,
        Register::HL(HLMode::Normal),
        Register::SP,
        Register::PC,
    ] {
        registers.read_u16(register);
        assert_eq!(registers, before);
    }
}

#[test]
fn increment_wraps_inside_the_low_byte() {
    let mut registers = blank_registers();
    registers.hl = HAndL { h: 0x12, l: 0xFF };
    assert_eq!(registers.read_u16(Register::HL(HLMode::Increment)), 0x12FF);
    assert_eq!(registers.read_u16(Register::HL(HLMode::Normal)), 0x1200);
    assert_eq!(registers.hl, HAndL { h: 0x12, l: 0x00 });
}

#[test]
fn increment_steps_the_low_byte() {
    let mut registers = blank_registers();
    registers.hl = HAndL { h: 0x12, l: 0x34 };
    assert_eq!(registers.read_u16(Register::HL(HLMode::Increment)), 0x1234);
    assert_eq!(registers.read_u16(Register::HL(HLMode::Increment)), 0x1235);
    assert_eq!(registers.read_u16(Register::HL(HLMode::Normal)), 0x1236);
}

#[test]
fn decrement_wraps_inside_the_low_byte() {
    let mut registers = blank_registers();
    registers.hl = HAndL { h: 0x12, l: 0x00 };
    assert_eq!(registers.read_u16(Register::HL(HLMode::Decrement)), 0x1200);
    assert_eq!(registers.read_u16(Register::HL(HLMode::Normal)), 0x12FF);
    assert_eq!(registers.read_u16(Register::HL(HLMode::Decrement)), 0x12FF);
    assert_eq!(registers.read_u16(Register::HL(HLMode::Normal)), 0x12FE);
}

#[test]
fn stepping_leaves_the_other_registers_alone() {
    let mut registers = blank_registers();
    registers.write_u16(Register::AF, 0x1230);
    registers.write_u16(Register::BC, 0x4567);
    registers.write_u16(Register::DE, 0x89AB);
    registers.write_u16(Register::SP, 0xCDEF);
    registers.write_u16(Register::PC, 0x0246);
    registers.read_u16(Register::HL(HLMode::Increment));
    registers.read_u16(Register::HL(HLMode::Decrement));
    registers.read_u16(Register::HL(HLMode::Decrement));
    assert_eq!(registers.read_u16(Register::AF), 0x1230);
    assert_eq!(registers.read_u16(Register::BC), 0x4567);
    assert_eq!(registers.read_u16(Register::DE), 0x89AB);
    assert_eq!(registers.read_u16(Register::SP), 0xCDEF);
    assert_eq!(registers.read_u16(Register::PC), 0x0246);
    assert_eq!(registers.hl, HAndL { h: 0x00, l: 0xFF });
}

#[test]
fn interrupt_byte_decomposes_into_five_lines() {
    let lines = InterruptLines::classify(0b0001_0101);
    assert_eq!(
        lines,
        InterruptLines { joypad: true, serial: false, timer: true, lcd: false, vblank: true }
    );
}

#[test]
fn each_interrupt_line_has_its_bit() {
    let none = InterruptLines {
        joypad: false,
        serial: false,
        timer: false,
        lcd: false,
        vblank: false,
    };
    assert_eq!(InterruptLines::classify(0), none);
    assert_eq!(InterruptLines::classify(0b0000_0001), InterruptLines { vblank: true, ..none });
    assert_eq!(InterruptLines::classify(0b0000_0010), InterruptLines { lcd: true, ..none });
    assert_eq!(InterruptLines::classify(0b0000_0100), InterruptLines { timer: true, ..none });
    assert_eq!(InterruptLines::classify(0b0000_1000), InterruptLines { serial: true, ..none });
    assert_eq!(InterruptLines::classify(0b0001_0000), InterruptLines { joypad: true, ..none });
    assert_eq!(InterruptLines::classify(0b1110_0000), none);
    assert_eq!(
        InterruptLines::classify(0xFF),
        InterruptLines { joypad: true, serial: true, timer: true, lcd: true, vblank: true }
    );
}

#[test]
fn check_interrupts_reads_the_enable_byte() {
    let mut cpu = Cpu { registers: blank_registers() };
    let mut memory = MemoryMap::new();
    memory.write(0xFFFF, 0b0001_0101);
    memory.write(0xFF0F, 0b0000_1010);
    let cpu_before = cpu;
    let memory_before = memory;
    let lines = InterruptMasterEnable::check_interrupts(&mut cpu, &mut memory);
    assert_eq!(
        lines,
        InterruptLines { joypad: true, serial: false, timer: true, lcd: false, vblank: true }
    );
    assert_eq!(cpu, cpu_before);
    assert!(memory == memory_before);
}
