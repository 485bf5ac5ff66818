//! Target descriptor: the supported (pointer width, instruction set,
//! operating system) triples, and for each the table mapping abstract roles
//! (move mnemonic, syscall argument registers, syscall numbers) to the
//! concrete strings of that target.

use vstd::prelude::*;

verus! {

/// Pointer width of the target.
#[derive(Clone, Copy, PartialEq, Eq, Structural, Debug)]
pub enum Bit {
    X32,
    X64,
}

/// Instruction-set family of the target.
#[derive(Clone, Copy, PartialEq, Eq, Structural, Debug)]
pub enum Arch {
    X86,
    Arm,
}

/// Operating system of the target.
#[derive(Clone, Copy, PartialEq, Eq, Structural, Debug)]
pub enum OS {
    Linux,
    Windows,
    Mac,
}

/// A target triple. It selects exactly one role table, or none.
#[derive(Clone, Copy, PartialEq, Eq, Structural, Debug)]
pub struct Target {
    pub bit: Bit,
    pub arch: Arch,
    pub os: OS,
}

/// The mathematical model of a role table: one concrete string per role.
///
/// The register roles are named after the x86-64 registers they stand for on
/// that architecture; on ARM targets they resolve to ARM register names.
pub struct RoleTableV {
    /// Move-instruction mnemonic.
    pub mov: Seq<char>,
    /// Register carrying the address of the bytes to write (first syscall argument).
    pub string_reg: Seq<char>,
    /// Register carrying the write-syscall number (second slot of the sequence).
    pub dest_index: Seq<char>,
    /// The write-syscall number.
    pub syscall_write: Seq<char>,
    /// Syscall-instruction mnemonic.
    pub syscall: Seq<char>,
    /// Result register for a 32-bit integer variable.
    pub reg_i32: Seq<char>,
    /// Result register for a 64-bit integer variable.
    pub reg_i64: Seq<char>,
    /// Result register for a 32-bit floating variable.
    pub reg_f32: Seq<char>,
    /// Result register for a 64-bit floating variable.
    pub reg_f64: Seq<char>,
    pub rsi: Seq<char>,
    pub rdi: Seq<char>,
    pub rsp: Seq<char>,
    pub rbp: Seq<char>,
    pub rax: Seq<char>,
    pub rbx: Seq<char>,
    pub rcx: Seq<char>,
    pub rdx: Seq<char>,
    /// The exit-syscall number.
    pub exit_num: Seq<char>,
}

/// The resolved role table for one target triple.
pub struct RoleTable {
    pub mov: String,
    pub string_reg: String,
    pub dest_index: String,
    pub syscall_write: String,
    pub syscall: String,
    pub reg_i32: String,
    pub reg_i64: String,
    pub reg_f32: String,
    pub reg_f64: String,
    pub rsi: String,
    pub rdi: String,
    pub rsp: String,
    pub rbp: String,
    pub rax: String,
    pub rbx: String,
    pub rcx: String,
    pub rdx: String,
    pub exit_num: String,
}

impl View for RoleTable {
    type V = RoleTableV;

    open spec fn view(&self) -> RoleTableV {
        RoleTableV {
            mov: self.mov@,
            string_reg: self.string_reg@,
            dest_index: self.dest_index@,
            syscall_write: self.syscall_write@,
            syscall: self.syscall@,
            reg_i32: self.reg_i32@,
            reg_i64: self.reg_i64@,
            reg_f32: self.reg_f32@,
            reg_f64: self.reg_f64@,
            rsi: self.rsi@,
            rdi: self.rdi@,
            rsp: self.rsp@,
            rbp: self.rbp@,
            rax: self.rax@,
            rbx: self.rbx@,
            rcx: self.rcx@,
            rdx: self.rdx@,
            exit_num: self.exit_num@,
        }
    }
}

pub open spec fn table_linux_x86_64() -> RoleTableV {
    RoleTableV {
        mov: "mov"@,
        string_reg: "rsi"@,
        dest_index: "rbx"@,
        syscall_write: "1"@,
        syscall: "syscall"@,
        reg_i32: "ebx"@,
        reg_i64: "rbx"@,
        reg_f32: "xmm0"@,
        reg_f64: "xmm1"@,
        rsi: "rsi"@,
        rdi: "rdi"@,
        rsp: "rsp"@,
        rbp: "rbp"@,
        rax: "rax"@,
        rbx: "rbx"@,
        rcx: "rcx"@,
        rdx: "rdx"@,
        exit_num: "60"@,
    }
}

pub open spec fn table_linux_x86_32() -> RoleTableV {
    RoleTableV {
        mov: "mov"@,
        string_reg: "esi"@,
        dest_index: "ebx"@,
        syscall_write: "1"@,
        syscall: "syscall"@,
        reg_i32: "ebx"@,
        reg_i64: "ebx"@,
        reg_f32: "xmm0"@,
        reg_f64: "xmm1"@,
        rsi: "esi"@,
        rdi: "edi"@,
        rsp: "esp"@,
        rbp: "ebp"@,
        rax: "eax"@,
        rbx: "ebx"@,
        rcx: "ecx"@,
        rdx: "edx"@,
        exit_num: "1"@,
    }
}

pub open spec fn table_linux_arm_64() -> RoleTableV {
    RoleTableV {
        mov: "mov"@,
        string_reg: "x0"@,
        dest_index: "x1"@,
        syscall_write: "64"@,
        syscall: "svc 0"@,
        reg_i32: "w1"@,
        reg_i64: "x1"@,
        reg_f32: "s0"@,
        reg_f64: "d0"@,
        rsi: "x0"@,
        rdi: "x1"@,
        rsp: "sp"@,
        rbp: "fp"@,
        rax: "x8"@,
        rbx: "x1"@,
        rcx: "x3"@,
        rdx: "x2"@,
        exit_num: "60"@,
    }
}

pub open spec fn table_linux_arm_32() -> RoleTableV {
    RoleTableV {
        mov: "mov"@,
        string_reg: "r0"@,
        dest_index: "r1"@,
        syscall_write: "4"@,
        syscall: "svc 0"@,
        reg_i32: "r1"@,
        reg_i64: "r2"@,
        reg_f32: "s0"@,
        reg_f64: "d0"@,
        rsi: "r0"@,
        rdi: "r1"@,
        rsp: "sp"@,
        rbp: "fp"@,
        rax: "r7"@,
        rbx: "r3"@,
        rcx: "r3"@,
        rdx: "r2"@,
        exit_num: "1"@,
    }
}

pub open spec fn table_windows_x86_64() -> RoleTableV {
    RoleTableV {
        mov: "mov"@,
        string_reg: "rsi"@,
        dest_index: "rbx"@,
        syscall_write: "0x80"@,
        syscall: "syscall"@,
        reg_i32: "ebx"@,
        reg_i64: "rbx"@,
        reg_f32: "xmm0"@,
        reg_f64: "xmm1"@,
        rsi: "rsi"@,
        rdi: "rdi"@,
        rsp: "rsp"@,
        rbp: "rbp"@,
        rax: "rax"@,
        rbx: "rbx"@,
        rcx: "rcx"@,
        rdx: "rdx"@,
        exit_num: "0x0"@,
    }
}

pub open spec fn table_windows_x86_32() -> RoleTableV {
    RoleTableV {
        mov: "mov"@,
        string_reg: "esi"@,
        dest_index: "ebx"@,
        syscall_write: "0x80"@,
        syscall: "syscall"@,
        reg_i32: "ebx"@,
        reg_i64: "ebx"@,
        reg_f32: "xmm0"@,
        reg_f64: "xmm1"@,
        rsi: "esi"@,
        rdi: "edi"@,
        rsp: "esp"@,
        rbp: "ebp"@,
        rax: "eax"@,
        rbx: "ebx"@,
        rcx: "ecx"@,
        rdx: "edx"@,
        exit_num: "0x0"@,
    }
}

pub open spec fn table_windows_arm() -> RoleTableV {
    RoleTableV {
        mov: "mov"@,
        string_reg: "r0"@,
        dest_index: "r1"@,
        syscall_write: "0x80"@,
        syscall: "svc 0"@,
        reg_i32: "r1"@,
        reg_i64: "r2"@,
        reg_f32: "s0"@,
        reg_f64: "d0"@,
        rsi: "r0"@,
        rdi: "r1"@,
        rsp: "sp"@,
        rbp: "fp"@,
        rax: "r7"@,
        rbx: "r3"@,
        rcx: "r3"@,
        rdx: "r2"@,
        exit_num: "0x1"@,
    }
}

/// The role table selected by a triple, or `None` for an unrecognized triple.
///
/// The Windows tables reuse Linux-style syscall numbering and instructions as
/// placeholders: no native Windows calling convention is modeled.
pub open spec fn spec_regs(t: Target) -> Option<RoleTableV> {
    match (t.os, t.arch, t.bit) {
        (OS::Linux, Arch::X86, Bit::X64) => Some(table_linux_x86_64()),
        (OS::Linux, Arch::X86, Bit::X32) => Some(table_linux_x86_32()),
        (OS::Linux, Arch::Arm, Bit::X64) => Some(table_linux_arm_64()),
        (OS::Linux, Arch::Arm, Bit::X32) => Some(table_linux_arm_32()),
        (OS::Windows, Arch::X86, Bit::X64) => Some(table_windows_x86_64()),
        (OS::Windows, Arch::X86, Bit::X32) => Some(table_windows_x86_32()),
        (OS::Windows, Arch::Arm, Bit::X64) => Some(table_windows_arm()),
        (OS::Windows, Arch::Arm, Bit::X32) => Some(table_windows_arm()),
        (OS::Mac, _, _) => None,
    }
}

/// Whether a triple selects a role table.
pub open spec fn spec_supported(t: Target) -> bool {
    spec_regs(t) is Some
}

/// Every role of a table carries a non-empty value.
pub open spec fn table_populated(rt: RoleTableV) -> bool {
    &&& rt.mov.len() > 0
    &&& rt.string_reg.len() > 0
    &&& rt.dest_index.len() > 0
    &&& rt.syscall_write.len() > 0
    &&& rt.syscall.len() > 0
    &&& rt.reg_i32.len() > 0
    &&& rt.reg_i64.len() > 0
    &&& rt.reg_f32.len() > 0
    &&& rt.reg_f64.len() > 0
    &&& rt.rsi.len() > 0
    &&& rt.rdi.len() > 0
    &&& rt.rsp.len() > 0
    &&& rt.rbp.len() > 0
    &&& rt.rax.len() > 0
    &&& rt.rbx.len() > 0
    &&& rt.rcx.len() > 0
    &&& rt.rdx.len() > 0
    &&& rt.exit_num.len() > 0
}

/// Resolution is total over the recognized triples and closed outside them:
/// a triple resolves exactly when its operating system is not `Mac`, and a
/// resolved table carries a non-empty value for every required role.
pub proof fn lemma_resolve_closed_world(t: Target)
    ensures
        spec_supported(t) <==> !(t.os is Mac),
        spec_regs(t) matches Some(rt) ==> table_populated(rt),
{
    reveal_strlit("mov");
    reveal_strlit("rsi");
    reveal_strlit("rbx");
    reveal_strlit("1");
    reveal_strlit("syscall");
    reveal_strlit("ebx");
    reveal_strlit("xmm0");
    reveal_strlit("xmm1");
    reveal_strlit("rdi");
    reveal_strlit("rsp");
    reveal_strlit("rbp");
    reveal_strlit("rax");
    reveal_strlit("rcx");
    reveal_strlit("rdx");
    reveal_strlit("60");
    reveal_strlit("esi");
    reveal_strlit("edi");
    reveal_strlit("esp");
    reveal_strlit("ebp");
    reveal_strlit("eax");
    reveal_strlit("ecx");
    reveal_strlit("edx");
    reveal_strlit("x0");
    reveal_strlit("x1");
    reveal_strlit("64");
    reveal_strlit("svc 0");
    reveal_strlit("w1");
    reveal_strlit("s0");
    reveal_strlit("d0");
    reveal_strlit("sp");
    reveal_strlit("fp");
    reveal_strlit("x8");
    reveal_strlit("x2");
    reveal_strlit("x3");
    reveal_strlit("r0");
    reveal_strlit("r1");
    reveal_strlit("4");
    reveal_strlit("r2");
    reveal_strlit("r7");
    reveal_strlit("r3");
    reveal_strlit("0x80");
    reveal_strlit("0x0");
    reveal_strlit("0x1");
}

impl Target {
    /// A triple from its three components.
    pub fn new(bit: Bit, arch: Arch, os: OS) -> (t: Self)
        ensures
            t == (Target { bit, arch, os }),
    {
        Target { bit, arch, os }
    }

    /// Resolves this triple to its role table, or `None` for an
    /// unrecognized triple.
    pub fn regs(&self) -> (r: Option<RoleTable>)
        ensures
            match r {
                Some(rt) => spec_regs(*self) == Some(rt@),
                None => spec_regs(*self) is None,
            },
    {
        match (self.os, self.arch, self.bit) {
            (OS::Linux, Arch::X86, Bit::X64) => Some(RoleTable {
                mov: "mov".to_owned(),
                string_reg: "rsi".to_owned(),
                dest_index: "rbx".to_owned(),
                syscall_write: "1".to_owned(),
                syscall: "syscall".to_owned(),
                reg_i32: "ebx".to_owned(),
                reg_i64: "rbx".to_owned(),
                reg_f32: "xmm0".to_owned(),
                reg_f64: "xmm1".to_owned(),
                rsi: "rsi".to_owned(),
                rdi: "rdi".to_owned(),
                rsp: "rsp".to_owned(),
                rbp: "rbp".to_owned(),
                rax: "rax".to_owned(),
                rbx: "rbx".to_owned(),
                rcx: "rcx".to_owned(),
                rdx: "rdx".to_owned(),
                exit_num: "60".to_owned(),
            }),
            (OS::Linux, Arch::X86, Bit::X32) => Some(RoleTable {
                mov: "mov".to_owned(),
                string_reg: "esi".to_owned(),
                dest_index: "ebx".to_owned(),
                syscall_write: "1".to_owned(),
                syscall: "syscall".to_owned(),
                reg_i32: "ebx".to_owned(),
                reg_i64: "ebx".to_owned(),
                reg_f32: "xmm0".to_owned(),
                reg_f64: "xmm1".to_owned(),
                rsi: "esi".to_owned(),
                rdi: "edi".to_owned(),
                rsp: "esp".to_owned(),
                rbp: "ebp".to_owned(),
                rax: "eax".to_owned(),
                rbx: "ebx".to_owned(),
                rcx: "ecx".to_owned(),
                rdx: "edx".to_owned(),
                exit_num: "1".to_owned(),
            }),
            (OS::Linux, Arch::Arm, Bit::X64) => Some(RoleTable {
                mov: "mov".to_owned(),
                string_reg: "x0".to_owned(),
                dest_index: "x1".to_owned(),
                syscall_write: "64".to_owned(),
                syscall: "svc 0".to_owned(),
                reg_i32: "w1".to_owned(),
                reg_i64: "x1".to_owned(),
                reg_f32: "s0".to_owned(),
                reg_f64: "d0".to_owned(),
                rsi: "x0".to_owned(),
                rdi: "x1".to_owned(),
                rsp: "sp".to_owned(),
                rbp: "fp".to_owned(),
                rax: "x8".to_owned(),
                rbx: "x1".to_owned(),
                rcx: "x3".to_owned(),
                rdx: "x2".to_owned(),
                exit_num: "60".to_owned(),
            }),
            (OS::Linux, Arch::Arm, Bit::X32) => Some(RoleTable {
                mov: "mov".to_owned(),
                string_reg: "r0".to_owned(),
                dest_index: "r1".to_owned(),
                syscall_write: "4".to_owned(),
                syscall: "svc 0".to_owned(),
                reg_i32: "r1".to_owned(),
                reg_i64: "r2".to_owned(),
                reg_f32: "s0".to_owned(),
                reg_f64: "d0".to_owned(),
                rsi: "r0".to_owned(),
                rdi: "r1".to_owned(),
                rsp: "sp".to_owned(),
                rbp: "fp".to_owned(),
                rax: "r7".to_owned(),
                rbx: "r3".to_owned(),
                rcx: "r3".to_owned(),
                rdx: "r2".to_owned(),
                exit_num: "1".to_owned(),
            }),
            (OS::Windows, Arch::X86, Bit::X64) => Some(RoleTable {
                mov: "mov".to_owned(),
                string_reg: "rsi".to_owned(),
                dest_index: "rbx".to_owned(),
                syscall_write: "0x80".to_owned(),
                syscall: "syscall".to_owned(),
                reg_i32: "ebx".to_owned(),
                reg_i64: "rbx".to_owned(),
                reg_f32: "xmm0".to_owned(),
                reg_f64: "xmm1".to_owned(),
                rsi: "rsi".to_owned(),
                rdi: "rdi".to_owned(),
                rsp: "rsp".to_owned(),
                rbp: "rbp".to_owned(),
                rax: "rax".to_owned(),
                rbx: "rbx".to_owned(),
                rcx: "rcx".to_owned(),
                rdx: "rdx".to_owned(),
                exit_num: "0x0".to_owned(),
            }),
            (OS::Windows, Arch::X86, Bit::X32) => Some(RoleTable {
                mov: "mov".to_owned(),
                string_reg: "esi".to_owned(),
                dest_index: "ebx".to_owned(),
                syscall_write: "0x80".to_owned(),
                syscall: "syscall".to_owned(),
                reg_i32: "ebx".to_owned(),
                reg_i64: "ebx".to_owned(),
                reg_f32: "xmm0".to_owned(),
                reg_f64: "xmm1".to_owned(),
                rsi: "esi".to_owned(),
                rdi: "edi".to_owned(),
                rsp: "esp".to_owned(),
                rbp: "ebp".to_owned(),
                rax: "eax".to_owned(),
                rbx: "ebx".to_owned(),
                rcx: "ecx".to_owned(),
                rdx: "edx".to_owned(),
                exit_num: "0x0".to_owned(),
            }),
            (OS::Windows, Arch::Arm, _) => Some(RoleTable {
                mov: "mov".to_owned(),
                string_reg: "r0".to_owned(),
                dest_index: "r1".to_owned(),
                syscall_write: "0x80".to_owned(),
                syscall: "svc 0".to_owned(),
                reg_i32: "r1".to_owned(),
                reg_i64: "r2".to_owned(),
                reg_f32: "s0".to_owned(),
                reg_f64: "d0".to_owned(),
                rsi: "r0".to_owned(),
                rdi: "r1".to_owned(),
                rsp: "sp".to_owned(),
                rbp: "fp".to_owned(),
                rax: "r7".to_owned(),
                rbx: "r3".to_owned(),
                rcx: "r3".to_owned(),
                rdx: "r2".to_owned(),
                exit_num: "0x1".to_owned(),
            }),
            (OS::Mac, _, _) => None,
        }
    }

    /// Whether this triple resolves to a role table.
    pub fn supported(&self) -> (b: bool)
        ensures
            b == spec_supported(*self),
    {
        match self.os {
            OS::Mac => false,
            _ => true,
        }
    }
}

} // verus!
