use eater::isa::Opcode;
use eater::{EaterCycle, EaterError, EaterSim, EaterVm, Flags, Inst3};

/// A memory image that is zero but for the cells given.
fn image(cells: &[(usize, u8)]) -> [u8; 16] {
    let mut mem = [0u8; 16];
    for &(addr, value) in cells {
        mem[addr] = value;
    }
    mem
}

#[test]
fn load_refuses_a_short_image() {
    let mut sim = EaterSim::new();
    assert_eq!(sim.load(&[0xf0; 15]), Err(EaterError::ImageLength(15)));
    assert_eq!(sim.mem(), [0; 16]);

    let mut vm = EaterVm::new();
    assert_eq!(vm.load(&[]), Err(EaterError::ImageLength(0)));
    assert_eq!(vm.mem(), [0; 16]);
}

#[test]
fn load_refuses_a_long_image() {
    let mut sim = EaterSim::new();
    sim.load(&[0x11; 16]).unwrap();
    assert_eq!(sim.load(&[0xf0; 17]), Err(EaterError::ImageLength(17)));
    assert_eq!(sim.mem(), [0x11; 16]);

    let mut vm = EaterVm::new();
    vm.load(&[0x11; 16]).unwrap();
    assert_eq!(vm.load(&[0xf0; 32]), Err(EaterError::ImageLength(32)));
    assert_eq!(vm.mem(), [0x11; 16]);
}

#[test]
fn load_accepts_sixteen_bytes() {
    let program: Vec<u8> = (0u8..16).collect();
    let mut sim = EaterSim::new();
    assert_eq!(sim.load(&program), Ok(()));
    assert_eq!(sim.mem().to_vec(), program);
}

#[test]
fn interpreter_reports_every_unknown_opcode() {
    for nibble in 0x9u8..=0xd {
        let byte = (nibble << 4) | 0x7;
        let mut vm = EaterVm::new();
        vm.load(&image(&[(0, 0x57), (1, byte)])).unwrap();
        assert_eq!(vm.step(), Ok(false));
        assert_eq!(vm.step(), Err(EaterError::UnknownOpcode(byte)));
        // Nothing has moved, and the same byte is refused again.
        assert_eq!(vm.pc(), 1);
        assert_eq!(vm.a(), 7);
        assert_eq!(vm.flags(), Flags::Clear);
        assert!(!vm.halt());
        assert_eq!(vm.step(), Err(EaterError::UnknownOpcode(byte)));
        assert_eq!(vm.pc(), 1);
    }
}

#[test]
fn simulator_reports_every_unknown_opcode() {
    for nibble in 0x9u8..=0xd {
        let byte = nibble << 4;
        let mut sim = EaterSim::new();
        sim.load(&image(&[(0, byte)])).unwrap();
        assert_eq!(sim.step(), Ok(false));
        assert_eq!(sim.cycle(), EaterCycle::Fetch(0));
        assert_eq!(sim.step(), Err(EaterError::UnknownOpcode(byte)));
        // Nothing has moved, and the same byte is refused again.
        assert_eq!(sim.cycle(), EaterCycle::Fetch(0));
        assert_eq!(sim.pc(), 0);
        assert!(!sim.halt());
        assert_eq!(sim.step(), Err(EaterError::UnknownOpcode(byte)));
        assert_eq!(sim.cycle(), EaterCycle::Fetch(0));
        assert_eq!(sim.pc(), 0);
    }
}

#[test]
fn run_returns_the_unknown_opcode() {
    let mut sim = EaterSim::new();
    sim.load(&image(&[(0, 0x53), (1, 0xe0), (2, 0xb4)])).unwrap();
    assert_eq!(sim.run(), Err(EaterError::UnknownOpcode(0xb4)));
    assert_eq!(sim.output(), [3]);
    assert_eq!(sim.a(), 3);
    assert_eq!(sim.pc(), 2);
    assert_eq!(sim.cycle(), EaterCycle::Fetch(2));
    assert!(!sim.halt());
}

#[test]
fn a_refused_machine_can_be_mended_and_go_on() {
    let mut sim = EaterSim::new();
    sim.load(&image(&[(0, 0xa0)])).unwrap();
    assert_eq!(sim.run(), Err(EaterError::UnknownOpcode(0xa0)));
    sim.load(&image(&[(0, 0x5c), (1, 0xf0)])).unwrap();
    assert_eq!(sim.run(), Ok(()));
    assert_eq!(sim.a(), 0xc);
    assert_eq!(sim.pc(), 2);
}

#[test]
fn opcode_decodes_every_byte() {
    for byte in 0u8..=255 {
        let expected = match byte >> 4 {
            0x0 => Ok(Opcode::Nop),
            0x1 => Ok(Opcode::Lda),
            0x2 => Ok(Opcode::Add),
            0x3 => Ok(Opcode::Sub),
            0x4 => Ok(Opcode::Sta),
            0x5 => Ok(Opcode::Ldi),
            0x6 => Ok(Opcode::Jmp),
            0x7 => Ok(Opcode::Jc),
            0x8 => Ok(Opcode::Jz),
            0xe => Ok(Opcode::Out),
            0xf => Ok(Opcode::Hlt),
            _ => Err(EaterError::UnknownOpcode(byte)),
        };
        assert_eq!(Opcode::decode(byte), expected);
    }
}

#[test]
fn nibbles_split_a_byte() {
    assert_eq!(eater::isa::high_nibble(0xa7), 0xa);
    assert_eq!(eater::isa::low_nibble(0xa7), 0x7);
    assert_eq!(eater::isa::high_nibble(0x0f), 0);
    assert_eq!(eater::isa::low_nibble(0xf0), 0);
    for byte in 0u8..=255 {
        assert_eq!(eater::isa::high_nibble(byte), byte / 16);
        assert_eq!(eater::isa::low_nibble(byte), byte % 16);
    }
}

#[test]
fn instructions_enter_execution_with_their_raw_operand() {
    assert_eq!(Inst3::decode(0x07), Ok(Inst3::Nop));
    assert_eq!(Inst3::decode(0x1f), Ok(Inst3::Lda(0xf)));
    assert_eq!(Inst3::decode(0x2e), Ok(Inst3::Add(0xe)));
    assert_eq!(Inst3::decode(0x3d), Ok(Inst3::Sub(0xd)));
    assert_eq!(Inst3::decode(0x4c), Ok(Inst3::Sta(0xc)));
    assert_eq!(Inst3::decode(0x5b), Ok(Inst3::Ldi(0xb)));
    assert_eq!(Inst3::decode(0x6a), Ok(Inst3::Jmp(0xa)));
    assert_eq!(Inst3::decode(0x79), Ok(Inst3::Jc(0x9)));
    assert_eq!(Inst3::decode(0x88), Ok(Inst3::Jz(0x8)));
    assert_eq!(Inst3::decode(0xe5), Ok(Inst3::Out));
    assert_eq!(Inst3::decode(0xf4), Ok(Inst3::Hlt));
    assert_eq!(Inst3::decode(0x90), Err(EaterError::UnknownOpcode(0x90)));
    assert_eq!(Inst3::decode(0xdf), Err(EaterError::UnknownOpcode(0xdf)));
}
