use asmgen::arch::{Arch, Bit, Target, OS};
use asmgen::coreasm::{CoreAsm, PrintToken, Print, Types, VarValue};
use asmgen::maker::{emit, emit_strict, has_dangling_reference, maker, EmitError};

fn linux_x64() -> Target {
    Target::new(Bit::X64, Arch::X86, OS::Linux)
}

#[test]
fn golden_demo_windows_x64() {
    let mut prog = CoreAsm::new();
    prog.data.mkvar(
        "name".to_string(),
        Types::String,
        VarValue::String("joy".to_string()),
    );
    let mut print = Print::new();
    print.tokens.push(PrintToken::Text("Hello ".to_string()));
    print.tokens.push(PrintToken::Variable("name".to_string()));
    print.tokens.push(PrintToken::Text("!".to_string()));
    print.tokens.push(PrintToken::Newline);
    prog.prints.push(print);
    prog.exit(true);
    let out = maker(&prog, Target::new(Bit::X64, Arch::X86, OS::Windows));
    let expected = "SECTION .data\n\
                    \x20    jnl: db 0x0A\n\
                    \x20    name db \"joy\"\n\
                    \x20    str_556 db \"Hello \"\n\
                    \x20    str_557 db \"!\"\n\
                    SECTION .text\n\
                    \x20     global _start\n\
                    _start:\n\
                    \x20    mov rsi, str_556\n\
                    \x20    mov rbx, 0x80\n\
                    \x20    mov rdx, 6\n\
                    \x20    mov rax, 0x80\n\
                    \x20    syscall\n\
                    \x20    mov rsi, name\n\
                    \x20    mov rbx, 0x80\n\
                    \x20    mov rdx, 3\n\
                    \x20    mov rax, 0x80\n\
                    \x20    syscall\n\
                    \x20    mov rsi, str_557\n\
                    \x20    mov rbx, 0x80\n\
                    \x20    mov rdx, 1\n\
                    \x20    mov rax, 0x80\n\
                    \x20    syscall\n\
                    \x20    mov rbx, 0x80\n\
                    \x20    mov rsi, jnl\n\
                    \x20    mov rdx, 1\n\
                    \x20    mov rax, 0x80\n\
                    \x20    syscall\n\
                    \x20    mov rax, 0x0\n\
                    \x20    mov rdi, 0\n\
                    \x20    syscall\n";
    assert_eq!(out, expected);
}

#[test]
fn data_variable_lines() {
    let mut prog = CoreAsm::new();
    prog.data.mkvar("x".to_string(), Types::I64, VarValue::I64(42));
    prog.data.mkvar(
        "name".to_string(),
        Types::String,
        VarValue::String("joy".to_string()),
    );
    prog.data.mkvar("c".to_string(), Types::I32, VarValue::I32(-5));
    prog.data
        .mkvar("ratio".to_string(), Types::F32, VarValue::F32("2.5".to_string()));
    let rt = linux_x64().regs().unwrap();
    let out = emit(&prog, &rt);
    assert!(out.contains("     jnl: db 0x0A\n"));
    assert!(out.contains("     x dq 42\n"));
    assert!(out.contains("     name db \"joy\"\n"));
    assert!(out.contains("     c dd -5\n"));
    assert!(out.contains("     ratio dd 2.5\n"));
}

#[test]
fn text_token_uses_literal_byte_length() {
    let mut prog = CoreAsm::new();
    prog.add_print();
    prog.add_text_to_last_print("Hello ".to_string());
    let rt = linux_x64().regs().unwrap();
    let out = emit(&prog, &rt);
    assert!(out.contains("     mov rsi, str_556\n"));
    assert!(out.contains("     mov rdx, 6\n"));
    assert!(out.contains("     str_556 db \"Hello \"\n"));
}

#[test]
fn newline_block_is_fixed() {
    let mut prog = CoreAsm::new();
    prog.add_print();
    prog.add_text_to_last_print("a".to_string());
    prog.add_print();
    prog.add_newline_to_last_print();
    let rt = linux_x64().regs().unwrap();
    let out = emit(&prog, &rt);
    let block = "     mov rbx, 1\n\
                 \x20    mov rsi, jnl\n\
                 \x20    mov rdx, 1\n\
                 \x20    mov rax, 1\n\
                 \x20    syscall\n";
    assert!(out.contains(block));
}

#[test]
fn exit_epilogue_appended_exactly_when_asked() {
    let mut prog = CoreAsm::new();
    prog.add_print();
    prog.add_text_to_last_print("hi".to_string());
    let rt = linux_x64().regs().unwrap();
    let without = emit(&prog, &rt);
    prog.exit(true);
    let with = emit(&prog, &rt);
    let epilogue = "     mov rax, 60\n     mov rdi, 0\n     syscall\n";
    assert!(with.ends_with(epilogue));
    assert_eq!(with, format!("{}{}", without, epilogue));
    assert!(!without.contains("mov rdi, 0"));
}

#[test]
fn dangling_reference_emits_nothing() {
    let mut with_dangling = CoreAsm::new();
    with_dangling.add_print();
    with_dangling.add_var_to_last_print("missing".to_string());
    let bare = CoreAsm::new();
    let rt = linux_x64().regs().unwrap();
    assert_eq!(emit(&with_dangling, &rt), emit(&bare, &rt));
}

#[test]
fn dangling_reference_does_not_stop_emission() {
    let mut prog = CoreAsm::new();
    prog.add_print();
    prog.add_var_to_last_print("missing".to_string());
    prog.add_print();
    prog.add_newline_to_last_print();
    let rt = linux_x64().regs().unwrap();
    let out = emit(&prog, &rt);
    assert!(out.contains("     mov rsi, jnl\n"));
}

#[test]
fn variable_reference_uses_typed_register_and_raw_length() {
    let mut prog = CoreAsm::new();
    prog.data.mkvar("n".to_string(), Types::I64, VarValue::I64(42));
    prog.add_print();
    prog.add_var_to_last_print("n".to_string());
    let rt = linux_x64().regs().unwrap();
    let out = emit(&prog, &rt);
    assert!(out.contains("     mov rbx, n\n"));
    assert!(out.contains("     mov rdx, 2\n"));
}

#[test]
fn labels_number_by_counter_and_print_index() {
    let mut prog = CoreAsm::new();
    prog.add_print();
    prog.add_text_to_last_print("A".to_string());
    prog.add_text_to_last_print("B".to_string());
    prog.add_print();
    prog.add_text_to_last_print("C".to_string());
    let rt = linux_x64().regs().unwrap();
    let out = emit(&prog, &rt);
    assert!(out.contains("     str_556 db \"A\"\n"));
    assert!(out.contains("     str_557 db \"B\"\n"));
    assert!(out.contains("     str_559 db \"C\"\n"));
}

#[test]
fn emission_is_deterministic() {
    let mut prog = CoreAsm::new();
    prog.data.mkvar("x".to_string(), Types::I64, VarValue::I64(7));
    prog.add_print();
    prog.add_text_to_last_print("x is ".to_string());
    prog.add_var_to_last_print("x".to_string());
    prog.add_newline_to_last_print();
    prog.exit(true);
    let rt = linux_x64().regs().unwrap();
    assert_eq!(emit(&prog, &rt), emit(&prog, &rt));
}

#[test]
fn strict_mode_accepts_a_clean_program() {
    let mut prog = CoreAsm::new();
    prog.data.mkvar("x".to_string(), Types::I64, VarValue::I64(7));
    prog.add_print();
    prog.add_var_to_last_print("x".to_string());
    assert!(!has_dangling_reference(&prog));
    let t = linux_x64();
    let rt = t.regs().unwrap();
    assert_eq!(emit_strict(&prog, t), Ok(emit(&prog, &rt)));
}

#[test]
fn strict_mode_refuses_an_unrecognized_triple() {
    let prog = CoreAsm::new();
    let t = Target::new(Bit::X64, Arch::X86, OS::Mac);
    assert_eq!(emit_strict(&prog, t), Err(EmitError::UnsupportedTarget));
}

#[test]
fn strict_mode_refuses_a_dangling_reference() {
    let mut prog = CoreAsm::new();
    prog.add_print();
    prog.add_text_to_last_print("ok".to_string());
    prog.add_var_to_last_print("missing".to_string());
    assert!(has_dangling_reference(&prog));
    assert_eq!(emit_strict(&prog, linux_x64()), Err(EmitError::DanglingReference));
}

#[test]
fn maker_resolves_then_emits() {
    let mut prog = CoreAsm::new();
    prog.add_print();
    prog.add_text_to_last_print("hi".to_string());
    let t = linux_x64();
    let rt = t.regs().unwrap();
    assert_eq!(maker(&prog, t), emit(&prog, &rt));
}
