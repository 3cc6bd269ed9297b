use eater::{EaterVm, Flags};

/// A memory image that is zero but for the cells given.
fn image(cells: &[(usize, u8)]) -> [u8; 16] {
    let mut mem = [0u8; 16];
    for &(addr, value) in cells {
        mem[addr] = value;
    }
    mem
}

#[test]
fn interp_test_vm_nop() {
    let mut vm = EaterVm::new();

    vm.step().unwrap();
    assert_eq!(vm.pc(), 1);
    assert_eq!(vm.a(), 0);
    assert_eq!(vm.flags(), Flags::Clear);
    assert_eq!(vm.mem(), [0; 16]);
}

#[test]
fn interp_test_vm_lda() {
    let mut vm = EaterVm::new();

    vm.load(&image(&[
        (0, 0x1a), // LDA 10
        (10, 0xa5), // This is the value loaded
    ]))
    .unwrap();

    vm.step().unwrap();
    assert_eq!(vm.pc(), 1);
    assert_eq!(vm.a(), 0xa5);
    assert_eq!(vm.flags(), Flags::Clear);
    assert_eq!(
        vm.mem(),
        [0x1a, 0, 0, 0, 0, 0, 0, 0, 0, 0, 0xa5, 0, 0, 0, 0, 0]
    );
}

#[test]
fn test_vm_add_carry() {
    let mut vm = EaterVm::new();

    vm.load(&image(&[
        (0, 0x2f), // ADD 15
        (1, 0x2f), // ADD 15
        (15, 0xff), // This is the value added
    ]))
    .unwrap();

    // Step the interpreter twice to check the flags
    vm.step().unwrap();
    vm.step().unwrap();

    assert_eq!(vm.pc(), 2);
    assert_eq!(vm.a(), 0xfe);
    assert_eq!(vm.flags(), Flags::Carry);
    assert_eq!(
        vm.mem(),
        [0x2f, 0x2f, 0, 0, 0, 0, 0, 0, 0, 0, 0, 0, 0, 0, 0, 0xff]
    );
}

#[test]
fn test_vm_add_zero() {
    let mut vm = EaterVm::new();

    vm.load(&image(&[
        (0, 0x2f), // ADD 15
        (1, 0x2f), // ADD 15
        (15, 0), // This is the value added
    ]))
    .unwrap();

    // Step the interpreter twice to check the flags
    vm.step().unwrap();
    vm.step().unwrap();

    assert_eq!(vm.pc(), 2);
    assert_eq!(vm.a(), 0);
    assert_eq!(vm.flags(), Flags::Zero);
    assert_eq!(
        vm.mem(),
        [0x2f, 0x2f, 0, 0, 0, 0, 0, 0, 0, 0, 0, 0, 0, 0, 0, 0]
    );
}

#[test]
fn interp_test_vm_add() {
    let mut vm = EaterVm::new();

    vm.load(&image(&[
        (0, 0x2f), // ADD 15
        (1, 0x2f), // ADD 15
        (15, 1), // This is the value added
    ]))
    .unwrap();

    // Step the interpreter twice to check the flags
    vm.step().unwrap();
    vm.step().unwrap();

    assert_eq!(vm.pc(), 2);
    assert_eq!(vm.a(), 2);
    assert_eq!(vm.flags(), Flags::Clear);
    assert_eq!(
        vm.mem(),
        [0x2f, 0x2f, 0, 0, 0, 0, 0, 0, 0, 0, 0, 0, 0, 0, 0, 1]
    );
}

#[test]
fn test_vm_sub_carry() {
    let mut vm = EaterVm::new();

    vm.load(&image(&[
        (0, 0x3f), // SUB 15
        (1, 0x3f), // SUB 15
        (15, 0xff), // This is the value added
    ]))
    .unwrap();

    // Step the interpreter twice to check the flags
    vm.step().unwrap();
    vm.step().unwrap();

    assert_eq!(vm.pc(), 2);
    assert_eq!(vm.a(), 2);
    assert_eq!(vm.flags(), Flags::Carry);
    assert_eq!(
        vm.mem(),
        [0x3f, 0x3f, 0, 0, 0, 0, 0, 0, 0, 0, 0, 0, 0, 0, 0, 0xff]
    );
}

#[test]
fn test_vm_sub_zero() {
    let mut vm = EaterVm::new();

    vm.load(&image(&[
        (0, 0x3f), // SUB 15
        (1, 0x3f), // SUB 15
        (15, 0), // This is the value added
    ]))
    .unwrap();

    // Step the interpreter twice to check the flags
    vm.step().unwrap();
    vm.step().unwrap();

    assert_eq!(vm.pc(), 2);
    assert_eq!(vm.a(), 0);
    assert_eq!(vm.flags(), Flags::Zero);
    assert_eq!(
        vm.mem(),
        [0x3f, 0x3f, 0, 0, 0, 0, 0, 0, 0, 0, 0, 0, 0, 0, 0, 0]
    );
}

#[test]
fn interp_test_vm_sub() {
    let mut vm = EaterVm::new();

    vm.load(&image(&[
        (0, 0x3f), // SUB 15
        (1, 0x3f), // SUB 15
        (15, 1), // This is the value added
    ]))
    .unwrap();

    // Step the interpreter twice to check the flags
    vm.step().unwrap();
    vm.step().unwrap();

    assert_eq!(vm.pc(), 2);
    assert_eq!(vm.a(), 0xfe);
    assert_eq!(vm.flags(), Flags::Clear);
    assert_eq!(
        vm.mem(),
        [0x3f, 0x3f, 0, 0, 0, 0, 0, 0, 0, 0, 0, 0, 0, 0, 0, 1]
    );
}

#[test]
fn interp_test_vm_sta() {
    let mut vm = EaterVm::new();

    vm.load(&image(&[
        (0, 0x53), // LDI 3
        (1, 0x4a), // STA 10
    ]))
    .unwrap();

    vm.step().unwrap();
    vm.step().unwrap();

    assert_eq!(vm.pc(), 2);
    assert_eq!(vm.a(), 3);
    assert_eq!(vm.flags(), Flags::Clear);
    assert_eq!(
        vm.mem(),
        [0x53, 0x4a, 0, 0, 0, 0, 0, 0, 0, 0, 3, 0, 0, 0, 0, 0]
    );
}

#[test]
fn interp_test_vm_ldi() {
    let mut vm = EaterVm::new();

    vm.load(&image(&[
        (0, 0x5a), // LDI 10
    ]))
    .unwrap();

    vm.step().unwrap();
    assert_eq!(vm.pc(), 1);
    assert_eq!(vm.a(), 10);
    assert_eq!(vm.flags(), Flags::Clear);
    assert_eq!(vm.mem(), [0x5a, 0, 0, 0, 0, 0, 0, 0, 0, 0, 0, 0, 0, 0, 0, 0]);
}

#[test]
fn interp_test_vm_jmp() {
    let mut vm = EaterVm::new();

    vm.load(&image(&[
        (0, 0x6a), // JMP 10
    ]))
    .unwrap();

    vm.step().unwrap();
    assert_eq!(vm.pc(), 10);
    assert_eq!(vm.a(), 0);
    assert_eq!(vm.flags(), Flags::Clear);
    assert_eq!(vm.mem(), [0x6a, 0, 0, 0, 0, 0, 0, 0, 0, 0, 0, 0, 0, 0, 0, 0]);
}

#[test]
fn interp_test_vm_jc() {
    let mut vm = EaterVm::new();

    vm.load(&image(&[
        (0, 0x7a), // JC 10
        (1, 0x52), // LDI 2
        (2, 0x2f), // ADD 15
        (3, 0x7a), // JC 10
        (15, 0xff),
    ]))
    .unwrap();

    for _ in 0..4 {
        vm.step().unwrap();
    }

    assert_eq!(vm.pc(), 10);
    assert_eq!(vm.a(), 1);
    assert_eq!(vm.flags(), Flags::Carry);
    assert_eq!(
        vm.mem(),
        [0x7a, 0x52, 0x2f, 0x7a, 0, 0, 0, 0, 0, 0, 0, 0, 0, 0, 0, 0xff]
    );
}

#[test]
fn interp_test_vm_jz() {
    let mut vm = EaterVm::new();

    vm.load(&image(&[
        (0, 0x8a), // JZ 10
        (1, 0x2f), // ADD 15
        (2, 0x8a), // JZ 10
    ]))
    .unwrap();

    for _ in 0..3 {
        vm.step().unwrap();
    }

    assert_eq!(vm.pc(), 10);
    assert_eq!(vm.a(), 0);
    assert_eq!(vm.flags(), Flags::Zero);
    assert_eq!(
        vm.mem(),
        [0x8a, 0x2f, 0x8a, 0, 0, 0, 0, 0, 0, 0, 0, 0, 0, 0, 0, 0]
    );
}

#[test]
fn interp_test_vm_hlt() {
    let mut vm = EaterVm::new();

    vm.load(&image(&[
        (0, 0xf0), // HLT
    ]))
    .unwrap();

    for _ in 0..3 {
        vm.step().unwrap();
    }

    assert_eq!(vm.pc(), 1);
    assert_eq!(vm.a(), 0);
    assert_eq!(vm.flags(), Flags::Clear);
    assert_eq!(vm.mem(), [0xf0, 0, 0, 0, 0, 0, 0, 0, 0, 0, 0, 0, 0, 0, 0, 0]);
}
