use asmgen::coreasm::{CoreAsm, Data, Entry, Print, PrintToken, Types, VarValue};

#[test]
fn mkvar_declares_in_order() {
    let mut d = Data::new();
    d.mkvar("a".to_string(), Types::I32, VarValue::I32(1));
    d.mkvar("b".to_string(), Types::I64, VarValue::I64(2));
    assert_eq!(d.variables.len(), 2);
    assert_eq!(d.variables[0].name, "a");
    assert_eq!(d.variables[1].name, "b");
}

#[test]
fn mkvar_overwrites_in_place() {
    let mut d = Data::new();
    d.mkvar("x".to_string(), Types::I64, VarValue::I64(42));
    d.mkvar("y".to_string(), Types::I32, VarValue::I32(5));
    d.mkvar("x".to_string(), Types::I32, VarValue::I32(7));
    assert_eq!(d.variables.len(), 2);
    assert_eq!(d.variables[0].name, "x");
    assert!(matches!(d.variables[0].var_type, Types::I32));
    assert!(matches!(d.variables[0].value, VarValue::I32(7)));
    assert_eq!(d.variables[1].name, "y");
}

#[test]
fn lookup_finds_declared_names_only() {
    let mut d = Data::new();
    d.mkvar("x".to_string(), Types::I64, VarValue::I64(42));
    assert!(d.lookup(&"x".to_string()).is_some());
    assert!(d.lookup(&"y".to_string()).is_none());
}

#[test]
fn print_collects_tokens_in_order() {
    let mut p = Print::new();
    assert_eq!(p.tokens.len(), 0);
    p.add_token(PrintToken::Text("hi".to_string()));
    p.add_token(PrintToken::Variable("x".to_string()));
    p.add_token(PrintToken::Newline);
    assert_eq!(p.tokens.len(), 3);
    assert!(matches!(&p.tokens[0], PrintToken::Text(t) if t == "hi"));
    assert!(matches!(&p.tokens[1], PrintToken::Variable(n) if n == "x"));
    assert!(matches!(&p.tokens[2], PrintToken::Newline));
}

#[test]
fn tokens_without_a_print_are_dropped() {
    let mut prog = CoreAsm::new();
    prog.add_text_to_last_print("hi".to_string());
    prog.add_var_to_last_print("x".to_string());
    prog.add_newline_to_last_print();
    assert_eq!(prog.prints.len(), 0);
}

#[test]
fn tokens_append_to_last_print() {
    let mut prog = CoreAsm::new();
    prog.add_print();
    prog.add_text_to_last_print("one".to_string());
    prog.add_print();
    prog.add_text_to_last_print("two".to_string());
    prog.add_newline_to_last_print();
    assert_eq!(prog.prints.len(), 2);
    assert_eq!(prog.prints[0].tokens.len(), 1);
    assert_eq!(prog.prints[1].tokens.len(), 2);
    assert!(matches!(&prog.prints[1].tokens[0], PrintToken::Text(t) if t == "two"));
}

#[test]
fn exit_flag_toggles() {
    let mut prog = CoreAsm::new();
    assert!(!prog.exit);
    prog.exit(true);
    assert!(prog.exit);
    prog.exit(false);
    assert!(!prog.exit);
}

#[test]
fn entry_accumulates_code_lines() {
    let mut e = Entry::new();
    assert_eq!(e.code.len(), 0);
    e.push_code("mov rax, 1".to_string());
    e.push_code("syscall".to_string());
    assert_eq!(e.code, vec!["mov rax, 1".to_string(), "syscall".to_string()]);
}
