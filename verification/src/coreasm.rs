//! Program model: typed variables with literal values, ordered print
//! statements made of tokens, and the exit-epilogue flag.

use vstd::prelude::*;

verus! {

/// The variable types of the model.
#[derive(Clone, Copy, PartialEq, Eq, Structural, Debug)]
pub enum Types {
    I32,
    I64,
    F32,
    F64,
    String,
}

/// A literal value matching a declared type.
///
/// Floating values are carried as their already-rendered decimal text: the
/// emitter only ever copies that text into the data section, so the model
/// holds the text itself rather than a floating-point number.
pub enum VarValue {
    I32(i32),
    I64(i64),
    F32(String),
    F64(String),
    String(String),
}

/// The mathematical model of a [`VarValue`].
pub enum VarValueV {
    I32(int),
    I64(int),
    F32(Seq<char>),
    F64(Seq<char>),
    String(Seq<char>),
}

impl View for VarValue {
    type V = VarValueV;

    open spec fn view(&self) -> VarValueV {
        match self {
            VarValue::I32(i) => VarValueV::I32(*i as int),
            VarValue::I64(i) => VarValueV::I64(*i as int),
            VarValue::F32(s) => VarValueV::F32(s@),
            VarValue::F64(s) => VarValueV::F64(s@),
            VarValue::String(s) => VarValueV::String(s@),
        }
    }
}

/// A declared variable: its name is the key, its type picks the storage
/// directive and the result register, its value is rendered verbatim.
pub struct Var {
    pub name: String,
    pub var_type: Types,
    pub value: VarValue,
}

/// The mathematical model of a [`Var`].
pub struct VarV {
    pub name: Seq<char>,
    pub var_type: Types,
    pub value: VarValueV,
}

impl View for Var {
    type V = VarV;

    open spec fn view(&self) -> VarV {
        VarV { name: self.name@, var_type: self.var_type, value: self.value@ }
    }
}

/// The declared variables, in declaration order. The name is the key: a
/// redeclaration overwrites the variable in place, keeping its position.
/// An ordered list, not an unordered map, so that the emitted data section
/// is reproducible.
pub struct Data {
    pub variables: Vec<Var>,
}

impl View for Data {
    type V = Seq<VarV>;

    open spec fn view(&self) -> Seq<VarV> {
        self.variables@.map_values(|v: Var| v@)
    }
}

/// The first declared variable of that name, if any.
pub open spec fn spec_find(vars: Seq<VarV>, name: Seq<char>) -> Option<VarV>
    decreases vars.len(),
{
    if vars.len() == 0 {
        None
    } else if vars[0].name == name {
        Some(vars[0])
    } else {
        spec_find(vars.drop_first(), name)
    }
}

/// Declaration with overwrite: replaces the first variable named like `v`,
/// or appends `v` when the name is new.
pub open spec fn spec_mkvar(vars: Seq<VarV>, v: VarV) -> Seq<VarV>
    decreases vars.len(),
{
    if vars.len() == 0 {
        seq![v]
    } else if vars[0].name == v.name {
        seq![v] + vars.drop_first()
    } else {
        seq![vars[0]] + spec_mkvar(vars.drop_first(), v)
    }
}

/// When `name` first occurs at position `j`, finding it yields the variable
/// stored there.
pub proof fn lemma_find_first(vars: Seq<VarV>, name: Seq<char>, j: int)
    requires
        0 <= j < vars.len(),
        vars[j].name == name,
        forall|k: int| 0 <= k < j ==> vars[k].name != name,
    ensures
        spec_find(vars, name) == Some(vars[j]),
    decreases j,
{
    if j > 0 {
        lemma_find_first(vars.drop_first(), name, j - 1);
    }
}

/// When no variable carries `name`, finding it yields nothing.
pub proof fn lemma_find_absent(vars: Seq<VarV>, name: Seq<char>)
    requires
        forall|k: int| 0 <= k < vars.len() ==> vars[k].name != name,
    ensures
        spec_find(vars, name) is None,
    decreases vars.len(),
{
    if vars.len() > 0 {
        lemma_find_absent(vars.drop_first(), name);
    }
}

/// When the name of `v` first occurs at position `j`, declaring `v`
/// overwrites that position and nothing else.
pub proof fn lemma_mkvar_hit(vars: Seq<VarV>, v: VarV, j: int)
    requires
        0 <= j < vars.len(),
        vars[j].name == v.name,
        forall|k: int| 0 <= k < j ==> vars[k].name != v.name,
    ensures
        spec_mkvar(vars, v) == vars.update(j, v),
    decreases j,
{
    if j == 0 {
        assert(spec_mkvar(vars, v) =~= vars.update(0, v));
    } else {
        lemma_mkvar_hit(vars.drop_first(), v, j - 1);
        assert(spec_mkvar(vars, v) =~= vars.update(j, v));
    }
}

/// When the name of `v` is new, declaring `v` appends it.
pub proof fn lemma_mkvar_fresh(vars: Seq<VarV>, v: VarV)
    requires
        forall|k: int| 0 <= k < vars.len() ==> vars[k].name != v.name,
    ensures
        spec_mkvar(vars, v) == vars.push(v),
    decreases vars.len(),
{
    if vars.len() == 0 {
        assert(spec_mkvar(vars, v) =~= vars.push(v));
    } else {
        lemma_mkvar_fresh(vars.drop_first(), v);
        assert(spec_mkvar(vars, v) =~= vars.push(v));
    }
}

impl Data {
    /// An empty variable store.
    pub fn new() -> (d: Self)
        ensures
            d@ == Seq::<VarV>::empty(),
    {
        let d = Data { variables: Vec::new() };
        proof {
            assert(d@ =~= Seq::<VarV>::empty());
        }
        d
    }

    /// Declares a variable, overwriting any earlier one of the same name.
    pub fn mkvar(&mut self, name: String, var_type: Types, value: VarValue)
        ensures
            final(self)@ == spec_mkvar(
                old(self)@,
                (VarV { name: name@, var_type, value: value@ }),
            ),
    {
        let ghost target = VarV { name: name@, var_type, value: value@ };
        let n = self.variables.len();
        let mut i: usize = 0;
        while i < n
            invariant
                n == self.variables.len(),
                0 <= i <= n,
                *self == *old(self),
                target == (VarV { name: name@, var_type, value: value@ }),
                forall|k: int| 0 <= k < i ==> #[trigger] old(self)@[k].name != name@,
            decreases n - i,
        {
            if self.variables[i].name == name {
                proof {
                    assert(old(self)@[i as int] == old(self).variables@[i as int]@);
                }
                let var = Var { name, var_type, value };
                self.variables.set(i, var);
                proof {
                    lemma_mkvar_hit(old(self)@, target, i as int);
                    assert forall|k: int| 0 <= k < self@.len() implies self@[k] == old(self)@.update(
                        i as int,
                        target,
                    )[k] by {
                        assert(self@[k] == self.variables@[k]@);
                        assert(old(self)@[k] == old(self).variables@[k]@);
                    }
                    assert(self@ =~= old(self)@.update(i as int, target));
                }
                return ;
            }
            proof {
                assert(old(self)@[i as int] == old(self).variables@[i as int]@);
            }
            i += 1;
        }
        let var = Var { name, var_type, value };
        self.variables.push(var);
        proof {
            lemma_mkvar_fresh(old(self)@, target);
            assert forall|k: int| 0 <= k < self@.len() implies self@[k] == old(self)@.push(
                target,
            )[k] by {
                assert(self@[k] == self.variables@[k]@);
                if k < old(self)@.len() {
                    assert(old(self)@[k] == old(self).variables@[k]@);
                }
            }
            assert(self@ =~= old(self)@.push(target));
        }
    }

    /// Looks up the first declared variable of that name.
    pub fn lookup(&self, name: &String) -> (r: Option<&Var>)
        ensures
            match r {
                Some(v) => spec_find(self@, name@) == Some(v@),
                None => spec_find(self@, name@) is None,
            },
    {
        let n = self.variables.len();
        let mut i: usize = 0;
        while i < n
            invariant
                n == self.variables.len(),
                0 <= i <= n,
                forall|k: int| 0 <= k < i ==> #[trigger] self@[k].name != name@,
            decreases n - i,
        {
            let v = &self.variables[i];
            proof {
                assert(self@[i as int] == self.variables@[i as int]@);
            }
            if v.name == *name {
                proof {
                    lemma_find_first(self@, name@, i as int);
                }
                return Some(v);
            }
            i += 1;
        }
        proof {
            lemma_find_absent(self@, name@);
        }
        None
    }
}

/// One token of a print statement.
pub enum PrintToken {
    /// Literal text, written byte for byte.
    Text(String),
    /// A reference to a declared variable, written from its storage.
    Variable(String),
    /// The shared newline constant.
    Newline,
}

/// The mathematical model of a [`PrintToken`].
pub enum TokenV {
    Text(Seq<char>),
    Variable(Seq<char>),
    Newline,
}

impl View for PrintToken {
    type V = TokenV;

    open spec fn view(&self) -> TokenV {
        match self {
            PrintToken::Text(s) => TokenV::Text(s@),
            PrintToken::Variable(s) => TokenV::Variable(s@),
            PrintToken::Newline => TokenV::Newline,
        }
    }
}

/// One print statement: an ordered sequence of tokens.
pub struct Print {
    pub tokens: Vec<PrintToken>,
}

impl View for Print {
    type V = Seq<TokenV>;

    open spec fn view(&self) -> Seq<TokenV> {
        self.tokens@.map_values(|t: PrintToken| t@)
    }
}

impl Print {
    /// An empty print statement.
    pub fn new() -> (p: Self)
        ensures
            p@ == Seq::<TokenV>::empty(),
    {
        let p = Print { tokens: Vec::new() };
        proof {
            assert(p@ =~= Seq::<TokenV>::empty());
        }
        p
    }

    /// Appends a token; order is emission order.
    pub fn add_token(&mut self, token: PrintToken)
        ensures
            final(self)@ == old(self)@.push(token@),
    {
        self.tokens.push(token);
        proof {
            assert(self@ =~= old(self)@.push(token@));
        }
    }
}

/// The whole program model: variables, print statements, exit flag.
pub struct CoreAsm {
    pub data: Data,
    pub prints: Vec<Print>,
    pub exit: bool,
}

/// The mathematical model of a [`CoreAsm`].
pub struct CoreAsmV {
    pub vars: Seq<VarV>,
    pub prints: Seq<Seq<TokenV>>,
    pub exit: bool,
}

impl View for CoreAsm {
    type V = CoreAsmV;

    open spec fn view(&self) -> CoreAsmV {
        CoreAsmV {
            vars: self.data@,
            prints: self.prints@.map_values(|p: Print| p@),
            exit: self.exit,
        }
    }
}

impl CoreAsm {
    /// An empty program: no variables, no prints, no exit epilogue.
    pub fn new() -> (a: Self)
        ensures
            a@ == (CoreAsmV {
                vars: Seq::<VarV>::empty(),
                prints: Seq::<Seq<TokenV>>::empty(),
                exit: false,
            }),
    {
        let a = CoreAsm { data: Data::new(), prints: Vec::new(), exit: false };
        proof {
            assert(a@.prints =~= Seq::<Seq<TokenV>>::empty());
        }
        a
    }

    /// Sets whether the normal-exit epilogue is emitted.
    pub fn exit(&mut self, exit: bool)
        ensures
            final(self)@ == (CoreAsmV { exit, ..old(self)@ }),
    {
        self.exit = exit;
    }

    /// Begins a new, empty print statement; later tokens append to it.
    pub fn add_print(&mut self)
        ensures
            final(self)@ == (CoreAsmV {
                prints: old(self)@.prints.push(Seq::<TokenV>::empty()),
                ..old(self)@
            }),
    {
        let print = Print::new();
        self.prints.push(print);
        proof {
            assert(self@.prints =~= old(self)@.prints.push(Seq::<TokenV>::empty()));
        }
    }

    /// Appends a token to the most recently begun print statement; with no
    /// print statement yet, the program is unchanged.
    fn add_token_to_last_print(&mut self, token: PrintToken)
        ensures
            old(self)@.prints.len() == 0 ==> final(self)@ == old(self)@,
            old(self)@.prints.len() > 0 ==> final(self)@ == (CoreAsmV {
                prints: old(self)@.prints.update(
                    old(self)@.prints.len() - 1,
                    old(self)@.prints.last().push(token@),
                ),
                ..old(self)@
            }),
    {
        let n = self.prints.len();
        if n == 0 {
            return ;
        }
        let mut print = self.prints.pop().unwrap();
        print.add_token(token);
        self.prints.push(print);
        proof {
            assert(self@.prints =~= old(self)@.prints.update(
                old(self)@.prints.len() - 1,
                old(self)@.prints.last().push(token@),
            ));
        }
    }

    /// Appends literal text to the most recently begun print statement.
    pub fn add_text_to_last_print(&mut self, text: String)
        ensures
            old(self)@.prints.len() == 0 ==> final(self)@ == old(self)@,
            old(self)@.prints.len() > 0 ==> final(self)@ == (CoreAsmV {
                prints: old(self)@.prints.update(
                    old(self)@.prints.len() - 1,
                    old(self)@.prints.last().push(TokenV::Text(text@)),
                ),
                ..old(self)@
            }),
    {
        self.add_token_to_last_print(PrintToken::Text(text));
    }

    /// Appends a variable reference to the most recently begun print
    /// statement.
    pub fn add_var_to_last_print(&mut self, var_name: String)
        ensures
            old(self)@.prints.len() == 0 ==> final(self)@ == old(self)@,
            old(self)@.prints.len() > 0 ==> final(self)@ == (CoreAsmV {
                prints: old(self)@.prints.update(
                    old(self)@.prints.len() - 1,
                    old(self)@.prints.last().push(TokenV::Variable(var_name@)),
                ),
                ..old(self)@
            }),
    {
        self.add_token_to_last_print(PrintToken::Variable(var_name));
    }

    /// Appends a newline token to the most recently begun print statement.
    pub fn add_newline_to_last_print(&mut self)
        ensures
            old(self)@.prints.len() == 0 ==> final(self)@ == old(self)@,
            old(self)@.prints.len() > 0 ==> final(self)@ == (CoreAsmV {
                prints: old(self)@.prints.update(
                    old(self)@.prints.len() - 1,
                    old(self)@.prints.last().push(TokenV::Newline),
                ),
                ..old(self)@
            }),
    {
        self.add_token_to_last_print(PrintToken::Newline);
    }
}

/// The accumulated entry-section code lines.
pub struct Entry {
    pub code: Vec<String>,
}

impl View for Entry {
    type V = Seq<Seq<char>>;

    open spec fn view(&self) -> Seq<Seq<char>> {
        self.code@.map_values(|s: String| s@)
    }
}

impl Entry {
    /// An empty entry section.
    pub fn new() -> (e: Self)
        ensures
            e@ == Seq::<Seq<char>>::empty(),
    {
        let e = Entry { code: Vec::new() };
        proof {
            assert(e@ =~= Seq::<Seq<char>>::empty());
        }
        e
    }

    /// Appends one code line.
    pub fn push_code(&mut self, code: String)
        ensures
            final(self)@ == old(self)@.push(code@),
    {
        self.code.push(code);
        proof {
            assert(self@ =~= old(self)@.push(code@));
        }
    }
}

} // verus!
