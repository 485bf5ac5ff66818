use asmgen::arch::{Arch, Bit, Target, OS};

fn assert_fully_populated(t: Target) {
    let rt = t.regs().expect("a recognized triple must resolve");
    assert!(!rt.mov.is_empty());
    assert!(!rt.string_reg.is_empty());
    assert!(!rt.dest_index.is_empty());
    assert!(!rt.syscall_write.is_empty());
    assert!(!rt.syscall.is_empty());
    assert!(!rt.reg_i32.is_empty());
    assert!(!rt.reg_i64.is_empty());
    assert!(!rt.reg_f32.is_empty());
    assert!(!rt.reg_f64.is_empty());
    assert!(!rt.rsi.is_empty());
    assert!(!rt.rdi.is_empty());
    assert!(!rt.rsp.is_empty());
    assert!(!rt.rbp.is_empty());
    assert!(!rt.rax.is_empty());
    assert!(!rt.rbx.is_empty());
    assert!(!rt.rcx.is_empty());
    assert!(!rt.rdx.is_empty());
    assert!(!rt.exit_num.is_empty());
}

#[test]
fn resolve_supported_triples() {
    let bits = vec![Bit::X32, Bit::X64];
    let arches = vec![Arch::X86, Arch::Arm];
    let systems = vec![OS::Linux, OS::Windows];
    for b in &bits {
        for a in &arches {
            for o in &systems {
                let t = Target::new(*b, *a, *o);
                assert!(t.supported());
                assert_fully_populated(t);
            }
        }
    }
}

#[test]
fn resolve_unsupported_triples() {
    let bits = vec![Bit::X32, Bit::X64];
    let arches = vec![Arch::X86, Arch::Arm];
    for b in &bits {
        for a in &arches {
            let t = Target::new(*b, *a, OS::Mac);
            assert!(!t.supported());
            assert!(t.regs().is_none());
        }
    }
}

#[test]
fn linux_syscall_numbers() {
    let x64 = Target::new(Bit::X64, Arch::X86, OS::Linux).regs().unwrap();
    assert_eq!(x64.syscall_write, "1");
    assert_eq!(x64.exit_num, "60");
    assert_eq!(x64.syscall, "syscall");

    let arm64 = Target::new(Bit::X64, Arch::Arm, OS::Linux).regs().unwrap();
    assert_eq!(arm64.syscall_write, "64");
    assert_eq!(arm64.exit_num, "60");
    assert_eq!(arm64.syscall, "svc 0");

    let arm32 = Target::new(Bit::X32, Arch::Arm, OS::Linux).regs().unwrap();
    assert_eq!(arm32.syscall_write, "4");
    assert_eq!(arm32.exit_num, "1");
}

#[test]
fn width_degradation_on_x86_linux() {
    let wide = Target::new(Bit::X64, Arch::X86, OS::Linux).regs().unwrap();
    let narrow = Target::new(Bit::X32, Arch::X86, OS::Linux).regs().unwrap();
    assert_ne!(wide.reg_i64, narrow.reg_i64);
    assert_eq!(wide.reg_i64, "rbx");
    assert_eq!(narrow.reg_i64, "ebx");
    assert_ne!(wide.rsi, narrow.rsi);
    assert_ne!(wide.rdi, narrow.rdi);
    assert_ne!(wide.rax, narrow.rax);
    assert_ne!(wide.rdx, narrow.rdx);
    assert_ne!(wide.string_reg, narrow.string_reg);
}

#[test]
fn arm_targets_use_arm_names() {
    let arm64 = Target::new(Bit::X64, Arch::Arm, OS::Linux).regs().unwrap();
    assert_eq!(arm64.string_reg, "x0");
    assert_eq!(arm64.rax, "x8");
    assert_eq!(arm64.reg_i32, "w1");
    let win_arm = Target::new(Bit::X32, Arch::Arm, OS::Windows).regs().unwrap();
    assert_eq!(win_arm.string_reg, "r0");
    assert_eq!(win_arm.rax, "r7");
}
