//! Emitter: one pure pass from a program model and a resolved role table to
//! the final assembly text, specified character by character.

use vstd::prelude::*;
use vstd::string::StringExecFns;
use vstd::string::StringSliceAdditionalSpecFns;

use crate::arch::{spec_regs, spec_supported, RoleTable, RoleTableV, Target};
use crate::coreasm::{
    spec_find, CoreAsm, CoreAsmV, TokenV, Types, Var, VarV, VarValue, VarValueV, PrintToken,
};
use crate::numtext::{dec_digits, dec_int};

verus! {

/// The UTF-8 byte length of a text, which is what the write syscall is
/// handed (`str::len` counts bytes, not characters).
pub open spec fn byte_len(s: Seq<char>) -> nat {
    vstd::utf8::encode_utf8(s).len()
}

/// The storage directive for a variable type: `dd` for 32-bit numerics,
/// `dq` for 64-bit numerics, `db` for strings.
pub open spec fn spec_directive(t: Types) -> Seq<char> {
    match t {
        Types::I32 => "dd"@,
        Types::I64 => "dq"@,
        Types::F32 => "dd"@,
        Types::F64 => "dq"@,
        Types::String => "db"@,
    }
}

/// The unquoted rendering of a value: the decimal numeral of an integer,
/// the carried text of a floating value, the raw text of a string.
pub open spec fn spec_unquoted_text(v: VarValueV) -> Seq<char> {
    match v {
        VarValueV::I32(i) => dec_int(i),
        VarValueV::I64(i) => dec_int(i),
        VarValueV::F32(s) => s,
        VarValueV::F64(s) => s,
        VarValueV::String(s) => s,
    }
}

/// The literal as it stands in the data section: the unquoted rendering,
/// quote-wrapped for strings.
pub open spec fn spec_value_text(v: VarValueV) -> Seq<char> {
    match v {
        VarValueV::String(s) => "\""@ + s + "\""@,
        _ => spec_unquoted_text(v),
    }
}

/// The byte count handed to the write syscall for a referenced variable:
/// the byte length of the value's unquoted rendering.
pub open spec fn spec_write_len(v: VarValueV) -> nat {
    byte_len(spec_unquoted_text(v))
}

/// The result register for a referenced variable, by its declared type.
pub open spec fn spec_type_reg(rt: RoleTableV, t: Types) -> Seq<char> {
    match t {
        Types::I32 => rt.reg_i32,
        Types::I64 => rt.reg_i64,
        Types::F32 => rt.reg_f32,
        Types::F64 => rt.reg_f64,
        Types::String => rt.string_reg,
    }
}

/// One move instruction: `<mnemonic> <register>, <operand>`.
pub open spec fn spec_mov_line(mov: Seq<char>, reg: Seq<char>, operand: Seq<char>) -> Seq<char> {
    mov + " "@ + reg + ", "@ + operand
}

/// The data-section line declaring one variable.
pub open spec fn spec_var_line(v: VarV) -> Seq<char> {
    v.name + " "@ + spec_directive(v.var_type) + " "@ + spec_value_text(v.value)
}

/// The five-instruction write sequence: source operand into its register,
/// the write-syscall number into the dest-index register, the byte count
/// into the `rdx` role register, the write-syscall number into the `rax`
/// role register, then the syscall instruction.
pub open spec fn spec_write_seq(
    rt: RoleTableV,
    reg: Seq<char>,
    operand: Seq<char>,
    len_text: Seq<char>,
) -> Seq<Seq<char>> {
    seq![
        spec_mov_line(rt.mov, reg, operand),
        spec_mov_line(rt.mov, rt.dest_index, rt.syscall_write),
        spec_mov_line(rt.mov, rt.rdx, len_text),
        spec_mov_line(rt.mov, rt.rax, rt.syscall_write),
        rt.syscall,
    ]
}

/// The five-instruction write of the shared newline constant `jnl`, always
/// of length 1, in the order the emitter writes it.
pub open spec fn spec_newline_seq(rt: RoleTableV) -> Seq<Seq<char>> {
    seq![
        spec_mov_line(rt.mov, rt.dest_index, rt.syscall_write),
        spec_mov_line(rt.mov, rt.rsi, "jnl"@),
        spec_mov_line(rt.mov, rt.rdx, "1"@),
        spec_mov_line(rt.mov, rt.rax, rt.syscall_write),
        rt.syscall,
    ]
}

/// The synthesized data label for a text token: `str_` followed by the
/// decimal numeral of the counter value.
pub open spec fn spec_label(n: int) -> Seq<char> {
    "str_"@ + dec_digits(n as nat)
}

/// What one emission pass has accumulated: data-section lines, entry-section
/// lines, and the running label counter.
pub struct EmitAcc {
    pub data: Seq<Seq<char>>,
    pub entry: Seq<Seq<char>>,
    pub counter: int,
}

/// What one token adds to the accumulation. `pindex` is the one-based index
/// of the print statement being processed; a text label is numbered by the
/// running counter plus `pindex`, and each text token advances the counter.
pub open spec fn spec_token_step(
    acc: EmitAcc,
    tok: TokenV,
    vars: Seq<VarV>,
    rt: RoleTableV,
    pindex: int,
) -> EmitAcc {
    match tok {
        TokenV::Text(s) => (EmitAcc {
            data: acc.data.push(spec_label(acc.counter + pindex) + " db \""@ + s + "\""@),
            entry: acc.entry + spec_write_seq(
                rt,
                rt.string_reg,
                spec_label(acc.counter + pindex),
                dec_digits(byte_len(s)),
            ),
            counter: acc.counter + 1,
        }),
        TokenV::Variable(nm) => match spec_find(vars, nm) {
            None => acc,
            Some(v) => (EmitAcc {
                data: acc.data,
                entry: acc.entry + spec_write_seq(
                    rt,
                    spec_type_reg(rt, v.var_type),
                    nm,
                    dec_digits(spec_write_len(v.value)),
                ),
                counter: acc.counter,
            }),
        },
        TokenV::Newline => (EmitAcc {
            data: acc.data,
            entry: acc.entry + spec_newline_seq(rt),
            counter: acc.counter,
        }),
    }
}

/// The accumulation after the tokens of one print statement, in order.
pub open spec fn spec_tokens_emit(
    acc: EmitAcc,
    toks: Seq<TokenV>,
    vars: Seq<VarV>,
    rt: RoleTableV,
    pindex: int,
) -> EmitAcc
    decreases toks.len(),
{
    if toks.len() == 0 {
        acc
    } else {
        spec_token_step(
            spec_tokens_emit(acc, toks.drop_last(), vars, rt, pindex),
            toks.last(),
            vars,
            rt,
            pindex,
        )
    }
}

/// The accumulation after a sequence of print statements, in order; the
/// print at position `i` (zero-based) is processed with `pindex == i + 1`.
pub open spec fn spec_prints_emit(
    acc: EmitAcc,
    prints: Seq<Seq<TokenV>>,
    vars: Seq<VarV>,
    rt: RoleTableV,
) -> EmitAcc
    decreases prints.len(),
{
    if prints.len() == 0 {
        acc
    } else {
        spec_tokens_emit(
            spec_prints_emit(acc, prints.drop_last(), vars, rt),
            prints.last(),
            vars,
            rt,
            prints.len() as int,
        )
    }
}

/// The accumulation before any print statement: the fixed newline constant,
/// then one data line per declared variable in declaration order, and the
/// label counter at its seed.
pub open spec fn spec_init_acc(vars: Seq<VarV>) -> EmitAcc {
    EmitAcc {
        data: seq!["jnl: db 0x0A"@] + vars.map_values(|v: VarV| spec_var_line(v)),
        entry: Seq::<Seq<char>>::empty(),
        counter: 555,
    }
}

/// A block of lines, each indented by five spaces and newline-terminated.
pub open spec fn spec_indent_lines(lines: Seq<Seq<char>>) -> Seq<char>
    decreases lines.len(),
{
    if lines.len() == 0 {
        Seq::<char>::empty()
    } else {
        spec_indent_lines(lines.drop_last()) + "     "@ + lines.last() + "\n"@
    }
}

/// The three-line exit epilogue: the exit-syscall number into the `rax`
/// role register, a literal zero exit code into the `rdi` role register,
/// then the syscall instruction.
pub open spec fn spec_exit_lines(rt: RoleTableV) -> Seq<char> {
    "     "@ + spec_mov_line(rt.mov, rt.rax, rt.exit_num) + "\n"@ + "     "@ + spec_mov_line(
        rt.mov,
        rt.rdi,
        "0"@,
    ) + "\n"@ + "     "@ + rt.syscall + "\n"@
}

/// The complete emitted text: the data section, the text section with its
/// entry label, and the exit epilogue when the program asks for it.
pub open spec fn spec_emit(prog: CoreAsmV, rt: RoleTableV) -> Seq<char> {
    let acc = spec_prints_emit(spec_init_acc(prog.vars), prog.prints, prog.vars, rt);
    "SECTION .data\n"@ + spec_indent_lines(acc.data) + "SECTION .text\n      global _start\n_start:\n"@
        + spec_indent_lines(acc.entry) + if prog.exit {
        spec_exit_lines(rt)
    } else {
        Seq::<char>::empty()
    }
}

/// The views of a sequence of strings.
pub open spec fn lines_view(v: Seq<String>) -> Seq<Seq<char>> {
    v.map_values(|s: String| s@)
}

proof fn lemma_lines_view_push(v: Seq<String>, s: String)
    ensures
        lines_view(v.push(s)) == lines_view(v).push(s@),
{
    assert(lines_view(v.push(s)) =~= lines_view(v).push(s@));
}

/// The UTF-8 byte length of a string.
fn str_byte_len(s: &String) -> (n: usize)
    ensures
        n == byte_len(s@),
{
    let r = s.as_str();
    let b = r.as_bytes();
    let n = b.len();
    proof {
        assert(r.spec_bytes() == vstd::utf8::encode_utf8(r@));
        vstd::slice::axiom_spec_len::<u8>(b);
    }
    n
}

/// One move instruction as text.
fn mov_line(mov: &String, reg: &String, operand: &str) -> (r: String)
    ensures
        r@ == spec_mov_line(mov@, reg@, operand@),
{
    let mut s = String::new();
    s.append(mov.as_str());
    s.append(" ");
    s.append(reg.as_str());
    s.append(", ");
    s.append(operand);
    proof {
        assert(s@ =~= spec_mov_line(mov@, reg@, operand@));
    }
    s
}

/// The unquoted rendering of a value.
fn unquoted_text(v: &VarValue) -> (r: String)
    ensures
        r@ == spec_unquoted_text(v@),
{
    match v {
        VarValue::I32(i) => crate::numtext::i32_to_dec(*i),
        VarValue::I64(i) => crate::numtext::i64_to_dec(*i),
        VarValue::F32(s) => s.clone(),
        VarValue::F64(s) => s.clone(),
        VarValue::String(s) => s.clone(),
    }
}

/// The data-section line declaring one variable.
fn var_line(v: &Var) -> (r: String)
    ensures
        r@ == spec_var_line(v@),
{
    let mut s = String::new();
    s.append(v.name.as_str());
    s.append(" ");
    match v.var_type {
        Types::I32 => s.append("dd"),
        Types::I64 => s.append("dq"),
        Types::F32 => s.append("dd"),
        Types::F64 => s.append("dq"),
        Types::String => s.append("db"),
    }
    s.append(" ");
    match &v.value {
        VarValue::String(txt) => {
            s.append("\"");
            s.append(txt.as_str());
            s.append("\"");
        },
        _ => {
            let t = unquoted_text(&v.value);
            s.append(t.as_str());
        },
    }
    proof {
        assert(s@ =~= spec_var_line(v@));
    }
    s
}

/// Appends the five-instruction write sequence to the entry lines.
fn push_write_seq(
    entry: &mut Vec<String>,
    rt: &RoleTable,
    reg: &String,
    operand: &str,
    len_text: &str,
)
    ensures
        lines_view(final(entry)@) == lines_view(old(entry)@) + spec_write_seq(
            rt@,
            reg@,
            operand@,
            len_text@,
        ),
{
    entry.push(mov_line(&rt.mov, reg, operand));
    entry.push(mov_line(&rt.mov, &rt.dest_index, rt.syscall_write.as_str()));
    entry.push(mov_line(&rt.mov, &rt.rdx, len_text));
    entry.push(mov_line(&rt.mov, &rt.rax, rt.syscall_write.as_str()));
    entry.push(rt.syscall.clone());
    proof {
        assert(lines_view(entry@) =~= lines_view(old(entry)@) + spec_write_seq(
            rt@,
            reg@,
            operand@,
            len_text@,
        ));
    }
}

/// Appends the five-instruction newline write to the entry lines.
fn push_newline_seq(entry: &mut Vec<String>, rt: &RoleTable)
    ensures
        lines_view(final(entry)@) == lines_view(old(entry)@) + spec_newline_seq(rt@),
{
    entry.push(mov_line(&rt.mov, &rt.dest_index, rt.syscall_write.as_str()));
    entry.push(mov_line(&rt.mov, &rt.rsi, "jnl"));
    entry.push(mov_line(&rt.mov, &rt.rdx, "1"));
    entry.push(mov_line(&rt.mov, &rt.rax, rt.syscall_write.as_str()));
    entry.push(rt.syscall.clone());
    proof {
        assert(lines_view(entry@) =~= lines_view(old(entry)@) + spec_newline_seq(rt@));
    }
}

/// Emits the complete assembly text for a program against a resolved role
/// table: one deterministic pass that never mutates its inputs.
pub fn emit(prog: &CoreAsm, rt: &RoleTable) -> (r: String)
    ensures
        r@ == spec_emit(prog@, rt@),
{
    let ghost vars_m = prog@.vars;
    let ghost prints_m = prog@.prints;
    let ghost rtm = rt@;
    let ghost acc0 = spec_init_acc(vars_m);

    let mut data_lines: Vec<String> = Vec::new();
    data_lines.push("jnl: db 0x0A".to_owned());
    let nv = prog.data.variables.len();
    proof {
        assert(vars_m.len() == nv as int);
        assert(lines_view(data_lines@) =~= seq!["jnl: db 0x0A"@] + vars_m.take(0).map_values(
            |v: VarV| spec_var_line(v),
        ));
    }
    let mut vi: usize = 0;
    while vi < nv
        invariant
            nv == prog.data.variables.len(),
            vi <= nv,
            vars_m == prog@.vars,
            lines_view(data_lines@) == seq!["jnl: db 0x0A"@] + vars_m.take(vi as int).map_values(
                |v: VarV| spec_var_line(v),
            ),
        decreases nv - vi,
    {
        let v = &prog.data.variables[vi];
        proof {
            assert(vars_m[vi as int] == prog.data.variables@[vi as int]@);
        }
        let line = var_line(v);
        let ghost pre = data_lines@;
        data_lines.push(line);
        proof {
            lemma_lines_view_push(pre, line);
            assert(vars_m.take(vi as int + 1) =~= vars_m.take(vi as int).push(vars_m[vi as int]));
            assert(vars_m.take(vi as int + 1).map_values(|v: VarV| spec_var_line(v)) =~= vars_m.take(
                vi as int,
            ).map_values(|v: VarV| spec_var_line(v)).push(spec_var_line(vars_m[vi as int])));
            assert(lines_view(data_lines@) =~= seq!["jnl: db 0x0A"@] + vars_m.take(
                vi as int + 1,
            ).map_values(|v: VarV| spec_var_line(v)));
        }
        vi += 1;
    }
    proof {
        assert(vars_m.take(nv as int) =~= vars_m);
        assert(lines_view(data_lines@) == acc0.data);
    }

    let mut entry_lines: Vec<String> = Vec::new();
    let mut counter: u128 = 555;
    let np = prog.prints.len();
    proof {
        assert(prints_m.len() == np as int);
        assert(lines_view(entry_lines@) =~= acc0.entry);
        assert(spec_prints_emit(acc0, prints_m.take(0), vars_m, rtm) == acc0);
    }
    let mut i: usize = 0;
    while i < np
        invariant
            np == prog.prints.len(),
            i <= np,
            np as int == prints_m.len(),
            vars_m == prog@.vars,
            prints_m == prog@.prints,
            rtm == rt@,
            acc0 == spec_init_acc(vars_m),
            ({
                let a = spec_prints_emit(acc0, prints_m.take(i as int), vars_m, rtm);
                lines_view(data_lines@) == a.data && lines_view(entry_lines@) == a.entry
                    && counter as int == a.counter
            }),
            counter as int <= 555 + (i as int) * 0xFFFF_FFFF_FFFF_FFFF,
        decreases np - i,
    {
        let print_ref = &prog.prints[i];
        proof {
            assert(prints_m[i as int] == prog.prints@[i as int]@);
        }
        let ghost base = spec_prints_emit(acc0, prints_m.take(i as int), vars_m, rtm);
        let ghost toks_m = prints_m[i as int];
        let ghost pind = i as int + 1;
        let pi: u128 = (i as u128) + 1;
        let nt = print_ref.tokens.len();
        proof {
            assert(toks_m.len() == nt as int);
            assert(spec_tokens_emit(base, toks_m.take(0), vars_m, rtm, pind) == base);
        }
        let mut j: usize = 0;
        while j < nt
            invariant
                nt == print_ref.tokens.len(),
                j <= nt,
                i < np,
                np as int == prints_m.len(),
                vars_m == prog@.vars,
                rtm == rt@,
                toks_m == print_ref@,
                nt as int == toks_m.len(),
                pind == i as int + 1,
                pi as int == pind,
                base == spec_prints_emit(acc0, prints_m.take(i as int), vars_m, rtm),
                ({
                    let a = spec_tokens_emit(base, toks_m.take(j as int), vars_m, rtm, pind);
                    lines_view(data_lines@) == a.data && lines_view(entry_lines@) == a.entry
                        && counter as int == a.counter
                }),
                counter as int <= 555 + (i as int) * 0xFFFF_FFFF_FFFF_FFFF + (j as int),
            decreases nt - j,
        {
            let tok = &print_ref.tokens[j];
            proof {
                assert(toks_m[j as int] == print_ref.tokens@[j as int]@);
            }
            let ghost aj = spec_tokens_emit(base, toks_m.take(j as int), vars_m, rtm, pind);
            proof {
                assert(toks_m.take(j as int + 1).drop_last() =~= toks_m.take(j as int));
                assert(toks_m.take(j as int + 1).last() == toks_m[j as int]);
                assert((i as int) * 0xFFFF_FFFF_FFFF_FFFF <= (0xFFFF_FFFF_FFFF_FFFF - 1)
                    * 0xFFFF_FFFF_FFFF_FFFF) by (nonlinear_arith)
                    requires
                        i as int <= 0xFFFF_FFFF_FFFF_FFFF - 1,
                ;
            }
            match tok {
                PrintToken::Text(text) => {
                    let lab_num: u128 = counter + pi;
                    let mut lbl = "str_".to_owned();
                    crate::numtext::push_dec_u128(lab_num, &mut lbl);
                    proof {
                        assert(lbl@ =~= spec_label(aj.counter + pind));
                    }
                    let mut dl = String::new();
                    dl.append(lbl.as_str());
                    dl.append(" db \"");
                    dl.append(text.as_str());
                    dl.append("\"");
                    data_lines.push(dl);
                    let bl = str_byte_len(text);
                    let len_txt = crate::numtext::usize_to_dec(bl);
                    push_write_seq(
                        &mut entry_lines,
                        rt,
                        &rt.string_reg,
                        lbl.as_str(),
                        len_txt.as_str(),
                    );
                    counter = counter + 1;
                    proof {
                        assert(dl@ =~= spec_label(aj.counter + pind) + " db \""@ + text@ + "\""@);
                        assert(lines_view(data_lines@) =~= aj.data.push(dl@));
                        let a1 = spec_tokens_emit(base, toks_m.take(j as int + 1), vars_m, rtm, pind);
                        assert(a1 == spec_token_step(aj, toks_m[j as int], vars_m, rtm, pind));
                        assert(lines_view(data_lines@) == a1.data);
                        assert(lines_view(entry_lines@) == a1.entry);
                        assert(counter as int == a1.counter);
                    }
                },
                PrintToken::Variable(nm) => {
                    match prog.data.lookup(nm) {
                        Some(var) => {
                            let reg = match var.var_type {
                                Types::I32 => &rt.reg_i32,
                                Types::I64 => &rt.reg_i64,
                                Types::F32 => &rt.reg_f32,
                                Types::F64 => &rt.reg_f64,
                                Types::String => &rt.string_reg,
                            };
                            proof {
                                assert(reg@ == spec_type_reg(rtm, var@.var_type));
                            }
                            let ut = unquoted_text(&var.value);
                            let bl = str_byte_len(&ut);
                            let len_txt = crate::numtext::usize_to_dec(bl);
                            push_write_seq(
                                &mut entry_lines,
                                rt,
                                reg,
                                nm.as_str(),
                                len_txt.as_str(),
                            );
                        },
                        None => {},
                    }
                    proof {
                        let a1 = spec_tokens_emit(base, toks_m.take(j as int + 1), vars_m, rtm, pind);
                        assert(a1 == spec_token_step(aj, toks_m[j as int], vars_m, rtm, pind));
                        assert(lines_view(data_lines@) == a1.data);
                        assert(lines_view(entry_lines@) == a1.entry);
                        assert(counter as int == a1.counter);
                    }
                },
                PrintToken::Newline => {
                    push_newline_seq(&mut entry_lines, rt);
                    proof {
                        let a1 = spec_tokens_emit(base, toks_m.take(j as int + 1), vars_m, rtm, pind);
                        assert(a1 == spec_token_step(aj, toks_m[j as int], vars_m, rtm, pind));
                        assert(lines_view(data_lines@) == a1.data);
                        assert(lines_view(entry_lines@) == a1.entry);
                        assert(counter as int == a1.counter);
                    }
                },
            }
            j += 1;
        }
        proof {
            assert(toks_m.take(nt as int) =~= toks_m);
            assert(prints_m.take(i as int + 1).drop_last() =~= prints_m.take(i as int));
            assert(prints_m.take(i as int + 1).last() == prints_m[i as int]);
            assert(prints_m.take(i as int + 1).len() == i as int + 1);
            let a1 = spec_prints_emit(acc0, prints_m.take(i as int + 1), vars_m, rtm);
            assert(a1 == spec_tokens_emit(base, toks_m, vars_m, rtm, pind));
            assert(lines_view(data_lines@) == a1.data);
            assert(lines_view(entry_lines@) == a1.entry);
            assert(counter as int == a1.counter);
        }
        i += 1;
    }
    proof {
        assert(prints_m.take(np as int) =~= prints_m);
    }
    let ghost accn = spec_prints_emit(acc0, prints_m, vars_m, rtm);
    let ghost dfinal = accn.data;
    let ghost efinal = accn.entry;

    let mut out = String::new();
    out.append("SECTION .data\n");
    let nd = data_lines.len();
    proof {
        assert(dfinal.len() == nd as int);
        assert(out@ =~= "SECTION .data\n"@ + spec_indent_lines(dfinal.take(0)));
    }
    let mut k: usize = 0;
    while k < nd
        invariant
            nd == data_lines.len(),
            k <= nd,
            dfinal == lines_view(data_lines@),
            out@ == "SECTION .data\n"@ + spec_indent_lines(dfinal.take(k as int)),
        decreases nd - k,
    {
        out.append("     ");
        out.append(data_lines[k].as_str());
        out.append("\n");
        proof {
            assert(dfinal[k as int] == data_lines@[k as int]@);
            assert(dfinal.take(k as int + 1).drop_last() =~= dfinal.take(k as int));
            assert(dfinal.take(k as int + 1).last() == dfinal[k as int]);
            assert(out@ =~= "SECTION .data\n"@ + spec_indent_lines(dfinal.take(k as int + 1)));
        }
        k += 1;
    }
    proof {
        assert(dfinal.take(nd as int) =~= dfinal);
    }
    out.append("SECTION .text\n      global _start\n_start:\n");
    let ghost head = "SECTION .data\n"@ + spec_indent_lines(dfinal)
        + "SECTION .text\n      global _start\n_start:\n"@;
    proof {
        assert(out@ =~= head + spec_indent_lines(efinal.take(0)));
    }
    let ne = entry_lines.len();
    proof {
        assert(efinal.len() == ne as int);
    }
    let mut k2: usize = 0;
    while k2 < ne
        invariant
            ne == entry_lines.len(),
            k2 <= ne,
            efinal == lines_view(entry_lines@),
            head == "SECTION .data\n"@ + spec_indent_lines(dfinal)
                + "SECTION .text\n      global _start\n_start:\n"@,
            out@ == head + spec_indent_lines(efinal.take(k2 as int)),
        decreases ne - k2,
    {
        out.append("     ");
        out.append(entry_lines[k2].as_str());
        out.append("\n");
        proof {
            assert(efinal[k2 as int] == entry_lines@[k2 as int]@);
            assert(efinal.take(k2 as int + 1).drop_last() =~= efinal.take(k2 as int));
            assert(efinal.take(k2 as int + 1).last() == efinal[k2 as int]);
            assert(out@ =~= head + spec_indent_lines(efinal.take(k2 as int + 1)));
        }
        k2 += 1;
    }
    proof {
        assert(efinal.take(ne as int) =~= efinal);
    }
    if prog.exit {
        let l1 = mov_line(&rt.mov, &rt.rax, rt.exit_num.as_str());
        out.append("     ");
        out.append(l1.as_str());
        out.append("\n");
        let l2 = mov_line(&rt.mov, &rt.rdi, "0");
        out.append("     ");
        out.append(l2.as_str());
        out.append("\n");
        out.append("     ");
        out.append(rt.syscall.as_str());
        out.append("\n");
        proof {
            assert(out@ =~= head + spec_indent_lines(efinal) + spec_exit_lines(rtm));
        }
    }
    proof {
        assert(out@ =~= spec_emit(prog@, rt@));
    }
    out
}

/// Whether a token references a variable that is not declared.
pub open spec fn spec_dangling_token(vars: Seq<VarV>, t: TokenV) -> bool {
    match t {
        TokenV::Variable(n) => spec_find(vars, n) is None,
        _ => false,
    }
}

/// Whether any print statement references an undeclared variable.
pub open spec fn spec_has_dangling(prog: CoreAsmV) -> bool {
    exists|i: int, j: int|
        0 <= i < prog.prints.len() && 0 <= j < prog.prints[i].len() && #[trigger] spec_dangling_token(
            prog.vars,
            prog.prints[i][j],
        )
}

/// Reports whether the program holds a reference to an undeclared variable
/// — the references that the lenient emitter silently drops.
pub fn has_dangling_reference(prog: &CoreAsm) -> (b: bool)
    ensures
        b == spec_has_dangling(prog@),
{
    let np = prog.prints.len();
    let mut i: usize = 0;
    while i < np
        invariant
            np == prog.prints.len(),
            i <= np,
            forall|a: int, c: int|
                0 <= a < i && 0 <= c < prog@.prints[a].len() ==> !spec_dangling_token(
                    prog@.vars,
                    #[trigger] prog@.prints[a][c],
                ),
        decreases np - i,
    {
        let pr = &prog.prints[i];
        proof {
            assert(prog@.prints[i as int] == prog.prints@[i as int]@);
        }
        let nt = pr.tokens.len();
        let mut j: usize = 0;
        while j < nt
            invariant
                np == prog.prints.len(),
                i < np,
                nt == pr.tokens.len(),
                j <= nt,
                pr@ == prog@.prints[i as int],
                nt as int == prog@.prints[i as int].len(),
                forall|a: int, c: int|
                    0 <= a < i && 0 <= c < prog@.prints[a].len() ==> !spec_dangling_token(
                        prog@.vars,
                        #[trigger] prog@.prints[a][c],
                    ),
                forall|c: int|
                    0 <= c < j ==> !spec_dangling_token(
                        prog@.vars,
                        #[trigger] prog@.prints[i as int][c],
                    ),
            decreases nt - j,
        {
            let tok = &pr.tokens[j];
            proof {
                assert(prog@.prints[i as int][j as int] == pr.tokens@[j as int]@);
            }
            match tok {
                PrintToken::Variable(nm) => {
                    if prog.data.lookup(nm).is_none() {
                        proof {
                            assert(spec_dangling_token(
                                prog@.vars,
                                prog@.prints[i as int][j as int],
                            ));
                        }
                        return true;
                    }
                },
                _ => {},
            }
            j += 1;
        }
        i += 1;
    }
    false
}

/// The failures of strict-mode emission.
#[derive(Clone, Copy, PartialEq, Eq, Structural, Debug)]
pub enum EmitError {
    /// The target triple selects no role table.
    UnsupportedTarget,
    /// A print statement references an undeclared variable.
    DanglingReference,
}

/// Strict-mode front end: emits exactly what [`maker`] would, but refuses an
/// unrecognized triple, and refuses a program with a dangling variable
/// reference instead of silently dropping the print.
pub fn emit_strict(prog: &CoreAsm, target: Target) -> (r: Result<String, EmitError>)
    ensures
        match r {
            Ok(s) => spec_supported(target) && !spec_has_dangling(prog@) && s@ == spec_emit(
                prog@,
                spec_regs(target).unwrap(),
            ),
            Err(e) => (e == EmitError::UnsupportedTarget && !spec_supported(target)) || (e
                == EmitError::DanglingReference && spec_supported(target) && spec_has_dangling(
                prog@,
            )),
        },
{
    match target.regs() {
        None => Err(EmitError::UnsupportedTarget),
        Some(rt) => {
            if has_dangling_reference(prog) {
                Err(EmitError::DanglingReference)
            } else {
                Ok(emit(prog, &rt))
            }
        },
    }
}

/// Emission is deterministic: the emitted text is a function of the program
/// and the role table alone, so two emissions of identical inputs produce
/// identical output.
pub proof fn lemma_emit_deterministic(
    prog: CoreAsmV,
    rt: RoleTableV,
    r1: Seq<char>,
    r2: Seq<char>,
)
    requires
        r1 == spec_emit(prog, rt),
        r2 == spec_emit(prog, rt),
    ensures
        r1 == r2,
{
}

/// A text token's write sequence carries the literal byte length of the
/// text — no quote adjustment — and the token adds exactly one data line,
/// binding the fresh label it is numbered with.
pub proof fn lemma_text_token(
    acc: EmitAcc,
    toks: Seq<TokenV>,
    s: Seq<char>,
    vars: Seq<VarV>,
    rt: RoleTableV,
    pindex: int,
)
    ensures
        ({
            let before = spec_tokens_emit(acc, toks, vars, rt, pindex);
            let after = spec_tokens_emit(acc, toks.push(TokenV::Text(s)), vars, rt, pindex);
            &&& after.entry == before.entry + spec_write_seq(
                rt,
                rt.string_reg,
                spec_label(before.counter + pindex),
                dec_digits(byte_len(s)),
            )
            &&& after.data == before.data.push(
                spec_label(before.counter + pindex) + " db \""@ + s + "\""@,
            )
            &&& after.counter == before.counter + 1
        }),
{
    assert(toks.push(TokenV::Text(s)).drop_last() =~= toks);
}

/// A newline token always appends exactly the five-line write of length `1`
/// against the shared `jnl` label, whatever prints or tokens came before it,
/// and leaves the data section and the label counter alone.
pub proof fn lemma_newline_token(
    acc: EmitAcc,
    toks: Seq<TokenV>,
    vars: Seq<VarV>,
    rt: RoleTableV,
    pindex: int,
)
    ensures
        ({
            let before = spec_tokens_emit(acc, toks, vars, rt, pindex);
            let after = spec_tokens_emit(acc, toks.push(TokenV::Newline), vars, rt, pindex);
            &&& after.entry == before.entry + seq![
                spec_mov_line(rt.mov, rt.dest_index, rt.syscall_write),
                spec_mov_line(rt.mov, rt.rsi, "jnl"@),
                spec_mov_line(rt.mov, rt.rdx, "1"@),
                spec_mov_line(rt.mov, rt.rax, rt.syscall_write),
                rt.syscall,
            ]
            &&& after.data == before.data
            &&& after.counter == before.counter
        }),
{
    assert(toks.push(TokenV::Newline).drop_last() =~= toks);
}

/// A reference to an undeclared variable emits nothing at all: the token
/// changes neither section nor the counter, so emission of what follows
/// goes on from the same state.
pub proof fn lemma_dangling_reference(
    acc: EmitAcc,
    toks: Seq<TokenV>,
    name: Seq<char>,
    vars: Seq<VarV>,
    rt: RoleTableV,
    pindex: int,
)
    requires
        spec_find(vars, name) is None,
    ensures
        spec_tokens_emit(acc, toks.push(TokenV::Variable(name)), vars, rt, pindex)
            == spec_tokens_emit(acc, toks, vars, rt, pindex),
{
    assert(toks.push(TokenV::Variable(name)).drop_last() =~= toks);
}

/// A print statement holding only a reference to an undeclared variable
/// contributes zero instructions: the accumulated emission is exactly what
/// it was without that statement.
pub proof fn lemma_dangling_print(
    acc: EmitAcc,
    prints: Seq<Seq<TokenV>>,
    name: Seq<char>,
    vars: Seq<VarV>,
    rt: RoleTableV,
)
    requires
        spec_find(vars, name) is None,
    ensures
        spec_prints_emit(acc, prints.push(seq![TokenV::Variable(name)]), vars, rt)
            == spec_prints_emit(acc, prints, vars, rt),
{
    let stmt = seq![TokenV::Variable(name)];
    let pind = prints.len() as int + 1;
    let prev = spec_prints_emit(acc, prints, vars, rt);
    assert(prints.push(stmt).drop_last() =~= prints);
    assert(prints.push(stmt).last() == stmt);
    assert(stmt.drop_last() =~= Seq::<TokenV>::empty());
    assert(stmt.last() == TokenV::Variable(name));
    assert(spec_tokens_emit(prev, Seq::<TokenV>::empty(), vars, rt, pind) == prev);
    assert(spec_tokens_emit(prev, stmt, vars, rt, pind) == spec_token_step(
        prev,
        TokenV::Variable(name),
        vars,
        rt,
        pind,
    ));
    assert(spec_token_step(prev, TokenV::Variable(name), vars, rt, pind) == prev);
}

/// Processing tokens only appends: whatever lines an accumulation already
/// holds stay in place, in both sections.
pub proof fn lemma_tokens_emit_appends(
    acc: EmitAcc,
    toks: Seq<TokenV>,
    vars: Seq<VarV>,
    rt: RoleTableV,
    pindex: int,
)
    ensures
        ({
            let a = spec_tokens_emit(acc, toks, vars, rt, pindex);
            &&& a.data.len() >= acc.data.len()
            &&& a.data.take(acc.data.len() as int) == acc.data
            &&& a.entry.len() >= acc.entry.len()
            &&& a.entry.take(acc.entry.len() as int) == acc.entry
        }),
    decreases toks.len(),
{
    if toks.len() == 0 {
        let a = spec_tokens_emit(acc, toks, vars, rt, pindex);
        assert(a.data.take(acc.data.len() as int) =~= acc.data);
        assert(a.entry.take(acc.entry.len() as int) =~= acc.entry);
    } else {
        lemma_tokens_emit_appends(acc, toks.drop_last(), vars, rt, pindex);
        let prev = spec_tokens_emit(acc, toks.drop_last(), vars, rt, pindex);
        let a = spec_tokens_emit(acc, toks, vars, rt, pindex);
        assert(a.data.take(acc.data.len() as int) =~= prev.data.take(acc.data.len() as int));
        assert(a.entry.take(acc.entry.len() as int) =~= prev.entry.take(acc.entry.len() as int));
    }
}

/// Processing print statements only appends: whatever lines an accumulation
/// already holds stay in place, in both sections.
pub proof fn lemma_prints_emit_appends(
    acc: EmitAcc,
    prints: Seq<Seq<TokenV>>,
    vars: Seq<VarV>,
    rt: RoleTableV,
)
    ensures
        ({
            let a = spec_prints_emit(acc, prints, vars, rt);
            &&& a.data.len() >= acc.data.len()
            &&& a.data.take(acc.data.len() as int) == acc.data
            &&& a.entry.len() >= acc.entry.len()
            &&& a.entry.take(acc.entry.len() as int) == acc.entry
        }),
    decreases prints.len(),
{
    if prints.len() == 0 {
        let a = spec_prints_emit(acc, prints, vars, rt);
        assert(a.data.take(acc.data.len() as int) =~= acc.data);
        assert(a.entry.take(acc.entry.len() as int) =~= acc.entry);
    } else {
        lemma_prints_emit_appends(acc, prints.drop_last(), vars, rt);
        let prev = spec_prints_emit(acc, prints.drop_last(), vars, rt);
        lemma_tokens_emit_appends(prev, prints.last(), vars, rt, prints.len() as int);
        let a = spec_prints_emit(acc, prints, vars, rt);
        assert(a.data.take(acc.data.len() as int) =~= prev.data.take(acc.data.len() as int));
        assert(a.entry.take(acc.entry.len() as int) =~= prev.entry.take(acc.entry.len() as int));
    }
}

/// Every declared variable's data line stands in the final data section at
/// its declaration position, one line after the fixed newline constant,
/// whatever the prints do.
pub proof fn lemma_variable_lines_present(prog: CoreAsmV, rt: RoleTableV, k: int)
    requires
        0 <= k < prog.vars.len(),
    ensures
        ({
            let a = spec_prints_emit(spec_init_acc(prog.vars), prog.prints, prog.vars, rt);
            &&& k + 1 < a.data.len()
            &&& a.data[k + 1] == spec_var_line(prog.vars[k])
        }),
{
    let acc0 = spec_init_acc(prog.vars);
    lemma_prints_emit_appends(acc0, prog.prints, prog.vars, rt);
    let a = spec_prints_emit(acc0, prog.prints, prog.vars, rt);
    assert(acc0.data[k + 1] == spec_var_line(prog.vars[k]));
    assert(a.data.take(acc0.data.len() as int)[k + 1] == a.data[k + 1]);
}

/// With the exit flag set, the emitted text is exactly the flag-off text
/// followed by the three-line exit epilogue — the exit-syscall number into
/// the `rax` role register, a literal `0` into the `rdi` role register,
/// then the syscall instruction; with the flag clear that epilogue is not
/// appended.
pub proof fn lemma_exit_epilogue(prog: CoreAsmV, rt: RoleTableV)
    ensures
        spec_emit((CoreAsmV { exit: true, ..prog }), rt) == spec_emit(
            (CoreAsmV { exit: false, ..prog }),
            rt,
        ) + spec_exit_lines(rt),
{
    assert(spec_emit((CoreAsmV { exit: true, ..prog }), rt) =~= spec_emit(
        (CoreAsmV { exit: false, ..prog }),
        rt,
    ) + spec_exit_lines(rt));
}

/// Resolves the target triple and emits the program against its role table.
/// The caller must pick a supported triple; `Target::supported` or
/// `Target::regs` tells it apart beforehand.
pub fn maker(core_asm: &CoreAsm, arch: Target) -> (r: String)
    requires
        spec_supported(arch),
    ensures
        r@ == spec_emit(core_asm@, spec_regs(arch).unwrap()),
{
    let rt = arch.regs().unwrap();
    emit(core_asm, &rt)
}

} // verus!
