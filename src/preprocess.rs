//! The shader preprocessor: a table of named symbols, emitted as WGSL
//! constants, and `// #if NAME` ... `// #endif` blocks kept or dropped by
//! the symbol they name.

use vstd::prelude::*;

use crate::text::{
    append_chars, append_str, chars_of, decimal, has_prefix, push_decimal, push_signed_decimal,
    signed_decimal, space, starts_with, string_of, suffix_from, trim_end, trim_start, trimmed_end,
    trimmed_start,
};

verus! {

/// One component of a vector constant.
#[derive(Clone, Copy, Debug, PartialEq, Eq, Structural)]
pub enum Scalar {
    Bool(bool),
    I32(i32),
    U32(u32),
}

/// The value of a preprocessor symbol.
///
/// `Null` defines a bare flag: it enables the blocks that name it and
/// emits no constant. `Bool(false)` is the one value that disables them.
#[derive(Clone, Debug)]
pub enum Data {
    Bool(bool),
    I32(i32),
    U32(u32),
    Vec(Vec<Scalar>),
    Null,
}

/// Why a shader could not be assembled.
#[derive(Clone, Debug)]
pub enum ShaderAssemblyError {
    /// The template does not open with the per-cell `tick` function that a
    /// user-supplied body replaces, or has no line break after it.
    MissingExtensionPoint,
    /// An `#if` names a symbol that the table does not define.
    UndefinedSymbol(String),
    /// An `#if` block runs to the end of the input without an `#endif`.
    UnterminatedBlock,
}

/// `ShaderAssemblyError` with its symbol name as characters.
pub enum AssemblyFault {
    MissingExtensionPoint,
    UndefinedSymbol(Seq<char>),
    UnterminatedBlock,
}

impl View for ShaderAssemblyError {
    type V = AssemblyFault;

    open spec fn view(&self) -> AssemblyFault {
        match self {
            ShaderAssemblyError::MissingExtensionPoint => AssemblyFault::MissingExtensionPoint,
            ShaderAssemblyError::UndefinedSymbol(s) => AssemblyFault::UndefinedSymbol(s@),
            ShaderAssemblyError::UnterminatedBlock => AssemblyFault::UnterminatedBlock,
        }
    }
}

/// A result of the preprocessor with its text and error as characters.
pub open spec fn outcome(r: &Result<String, ShaderAssemblyError>) -> Result<Seq<char>, AssemblyFault> {
    match r {
        Ok(s) => Ok(s@),
        Err(e) => Err(e@),
    }
}

/// Whether a symbol with this value keeps the blocks that name it.
pub open spec fn enabled(d: Data) -> bool {
    !(d matches Data::Bool(false))
}

/// The WGSL type of a vector component.
pub open spec fn scalar_type(s: Scalar) -> Seq<char> {
    match s {
        Scalar::Bool(_) => "bool"@,
        Scalar::I32(_) => "i32"@,
        Scalar::U32(_) => "u32"@,
    }
}

/// The WGSL literal of a vector component.
pub open spec fn scalar_value(s: Scalar) -> Seq<char> {
    match s {
        Scalar::Bool(b) => if b {
            "true"@
        } else {
            "false"@
        },
        Scalar::I32(x) => signed_decimal(x as int),
        Scalar::U32(x) => decimal(x as nat),
    }
}

/// The components' values separated by `", "`.
pub open spec fn joined_values(v: Seq<Scalar>) -> Seq<char>
    decreases v.len(),
{
    if v.len() == 0 {
        seq![]
    } else if v.len() == 1 {
        scalar_value(v[0])
    } else {
        joined_values(v.drop_last()) + ", "@ + scalar_value(v.last())
    }
}

/// The WGSL type of a value: a vector takes its component type from its
/// first component.
pub open spec fn type_text(d: Data) -> Seq<char> {
    match d {
        Data::Bool(_) => "bool"@,
        Data::I32(_) => "i32"@,
        Data::U32(_) => "u32"@,
        Data::Vec(v) => "vec"@ + decimal(v@.len()) + "<"@ + (if v@.len() > 0 {
            scalar_type(v@[0])
        } else {
            seq![]
        }) + ">"@,
        Data::Null => seq![],
    }
}

/// The WGSL expression of a value.
pub open spec fn value_text(d: Data) -> Seq<char> {
    match d {
        Data::Bool(b) => scalar_value(Scalar::Bool(b)),
        Data::I32(x) => scalar_value(Scalar::I32(x)),
        Data::U32(x) => scalar_value(Scalar::U32(x)),
        Data::Vec(v) => "vec"@ + decimal(v@.len()) + "("@ + joined_values(v@) + ")"@,
        Data::Null => seq![],
    }
}

/// `const NAME: TYPE = VALUE;` and a line break.
pub open spec fn constant_line(name: Seq<char>, d: Data) -> Seq<char> {
    "const "@ + name + ": "@ + type_text(d) + " = "@ + value_text(d) + ";\n"@
}

/// The constant declarations of a symbol table, in its order, skipping
/// bare flags.
pub open spec fn constants(defs: Seq<(Seq<char>, Data)>) -> Seq<char>
    decreases defs.len(),
{
    if defs.len() == 0 {
        seq![]
    } else {
        constants(defs.drop_last()) + if defs.last().1 is Null {
            seq![]
        } else {
            constant_line(defs.last().0, defs.last().1)
        }
    }
}

/// Index of the entry named `name`, or -1.
pub open spec fn position(defs: Seq<(Seq<char>, Data)>, name: Seq<char>) -> int
    decreases defs.len(),
{
    if defs.len() == 0 {
        -1
    } else if defs.last().0 == name {
        defs.len() - 1
    } else {
        position(defs.drop_last(), name)
    }
}

/// The value that the table gives `name`.
pub open spec fn lookup(defs: Seq<(Seq<char>, Data)>, name: Seq<char>) -> Option<Data> {
    let p = position(defs, name);
    if p >= 0 {
        Some(defs[p].1)
    } else {
        None
    }
}

/// The table after defining `name` as `d`: an existing entry keeps its
/// place and takes the new value, a new name goes last.
pub open spec fn with_definition(defs: Seq<(Seq<char>, Data)>, name: Seq<char>, d: Data) -> Seq<
    (Seq<char>, Data),
> {
    let p = position(defs, name);
    if p >= 0 {
        defs.update(p, (name, d))
    } else {
        defs.push((name, d))
    }
}

/// `position` is -1 or the index of an entry with that name.
pub proof fn lemma_position_bounds(defs: Seq<(Seq<char>, Data)>, name: Seq<char>)
    ensures
        -1 <= position(defs, name) < defs.len(),
        position(defs, name) >= 0 ==> defs[position(defs, name)].0 == name,
        position(defs, name) < 0 ==> forall|i: int| 0 <= i < defs.len() ==> defs[i].0 != name,
    decreases defs.len(),
{
    if defs.len() > 0 {
        lemma_position_bounds(defs.drop_last(), name);
        if position(defs, name) < 0 {
            assert forall|i: int| 0 <= i < defs.len() implies defs[i].0 != name by {
                if i < defs.len() - 1 {
                    assert(defs[i] == defs.drop_last()[i]);
                }
            }
        }
    }
}

/// The lines of `s` as `str::lines` gives them: split at `\n`, a `\r`
/// before the `\n` dropped, no empty line after a final line break.
pub open spec fn lines(s: Seq<char>) -> Seq<Seq<char>> {
    let (done, cur) = line_scan(s);
    if cur.len() == 0 {
        done
    } else {
        done.push(cur)
    }
}

/// The complete lines of `s` and the unfinished one after them.
pub open spec fn line_scan(s: Seq<char>) -> (Seq<Seq<char>>, Seq<char>)
    decreases s.len(),
{
    if s.len() == 0 {
        (seq![], seq![])
    } else {
        let (done, cur) = line_scan(s.drop_last());
        if s.last() == '\n' {
            (done.push(strip_cr(cur)), seq![])
        } else {
            (done, cur.push(s.last()))
        }
    }
}

/// `l` without a final carriage return.
pub open spec fn strip_cr(l: Seq<char>) -> Seq<char> {
    if l.len() > 0 && l.last() == '\r' {
        l.drop_last()
    } else {
        l
    }
}

/// What an `#if` line starts with, after its indentation.
pub open spec fn if_mark() -> Seq<char> {
    "// #if "@
}

/// What an `#endif` line starts with, after its indentation.
pub open spec fn endif_mark() -> Seq<char> {
    "// #endif"@
}

/// Whether a line opens a block.
pub open spec fn is_if_line(l: Seq<char>) -> bool {
    starts_with(trim_start(l), if_mark())
}

/// Whether a line closes a block.
pub open spec fn is_endif_line(l: Seq<char>) -> bool {
    starts_with(trim_start(l), endif_mark())
}

/// The symbol that an `#if` line names, white space trimmed.
pub open spec fn if_symbol(l: Seq<char>) -> Seq<char> {
    trim_end(trim_start(l).skip(if_mark().len() as int))
}

/// Where the scan of the input stands between two lines.
#[derive(Clone, Copy, Debug, PartialEq, Eq, Structural)]
pub enum Mode {
    /// Outside any block: lines are copied.
    Text,
    /// Inside a block: lines are copied when `keep`; `empty` until the
    /// block has had a line.
    Block { keep: bool, empty: bool },
}

/// One line of input applied to the output so far.
pub open spec fn scan_line(
    st: Result<(Seq<char>, Mode), AssemblyFault>,
    line: Seq<char>,
    defs: Seq<(Seq<char>, Data)>,
) -> Result<(Seq<char>, Mode), AssemblyFault> {
    match st {
        Err(e) => Err(e),
        Ok((out, mode)) => match mode {
            Mode::Text => if is_if_line(line) {
                match lookup(defs, if_symbol(line)) {
                    None => Err(AssemblyFault::UndefinedSymbol(if_symbol(line))),
                    Some(d) => Ok((out, Mode::Block { keep: enabled(d), empty: true })),
                }
            } else {
                Ok((out + line.push('\n'), Mode::Text))
            },
            Mode::Block { keep, empty } => if is_endif_line(line) {
                Ok(
                    (
                        if keep && empty {
                            out.push('\n')
                        } else {
                            out
                        },
                        Mode::Text,
                    ),
                )
            } else {
                Ok(
                    (
                        if keep {
                            out + line.push('\n')
                        } else {
                            out
                        },
                        Mode::Block { keep, empty: false },
                    ),
                )
            },
        },
    }
}

/// The lines applied one by one to an empty output, outside any block.
pub open spec fn scan_lines(ls: Seq<Seq<char>>, defs: Seq<(Seq<char>, Data)>) -> Result<
    (Seq<char>, Mode),
    AssemblyFault,
>
    decreases ls.len(),
{
    if ls.len() == 0 {
        Ok((seq![], Mode::Text))
    } else {
        scan_line(scan_lines(ls.drop_last(), defs), ls.last(), defs)
    }
}

/// The preprocessed text: the constants, then the input with its blocks
/// resolved, each line ending in `\n`.
pub open spec fn processed(defs: Seq<(Seq<char>, Data)>, input: Seq<char>) -> Result<
    Seq<char>,
    AssemblyFault,
> {
    match scan_lines(lines(input), defs) {
        Err(e) => Err(e),
        Ok((body, mode)) => match mode {
            Mode::Text => Ok(constants(defs) + body),
            Mode::Block { .. } => Err(AssemblyFault::UnterminatedBlock),
        },
    }
}

/// The characters of each line.
pub open spec fn views(v: Seq<Vec<char>>) -> Seq<Seq<char>> {
    v.map_values(|l: Vec<char>| l@)
}

/// Whether `a` and `b` hold the same characters.
fn same_chars(a: &Vec<char>, b: &Vec<char>) -> (r: bool)
    ensures
        r == (a@ == b@),
{
    if a.len() != b.len() {
        return false;
    }
    let mut i: usize = 0;
    while i < a.len()
        invariant
            a.len() == b.len(),
            i <= a.len(),
            forall|j: int| 0 <= j < i ==> a@[j] == b@[j],
        decreases a.len() - i,
    {
        if a[i] != b[i] {
            return false;
        }
        i = i + 1;
    }
    assert(a@ == b@);
    true
}

/// The lines of `text`, as `lines` states them.
fn lines_of(text: &Vec<char>) -> (r: Vec<Vec<char>>)
    ensures
        views(r@) == lines(text@),
{
    let mut done: Vec<Vec<char>> = Vec::new();
    let mut cur: Vec<char> = Vec::new();
    let mut i: usize = 0;
    while i < text.len()
        invariant
            i <= text.len(),
            (views(done@), cur@) == line_scan(text@.take(i as int)),
        decreases text.len() - i,
    {
        let c = text[i];
        proof {
            assert(text@.take(i + 1 as int).drop_last() == text@.take(i as int));
            assert(text@.take(i + 1 as int).last() == c);
        }
        if c == '\n' {
            if cur.len() > 0 && cur[cur.len() - 1] == '\r' {
                cur.pop();
            }
            let line = cur;
            done.push(line);
            cur = Vec::new();
            assert(views(done@) == line_scan(text@.take(i + 1 as int)).0);
        } else {
            cur.push(c);
        }
        i = i + 1;
    }
    assert(text@.take(text.len() as int) == text@);
    if cur.len() > 0 {
        done.push(cur);
        assert(views(done@) == lines(text@));
    }
    done
}

fn push_scalar_type(s: Scalar, out: &mut Vec<char>)
    ensures
        final(out)@ == old(out)@ + scalar_type(s),
{
    match s {
        Scalar::Bool(_) => append_str(out, "bool"),
        Scalar::I32(_) => append_str(out, "i32"),
        Scalar::U32(_) => append_str(out, "u32"),
    }
}

fn push_scalar_value(s: Scalar, out: &mut Vec<char>)
    ensures
        final(out)@ == old(out)@ + scalar_value(s),
{
    match s {
        Scalar::Bool(b) => if b {
            append_str(out, "true")
        } else {
            append_str(out, "false")
        },
        Scalar::I32(x) => push_signed_decimal(out, x as i64),
        Scalar::U32(x) => push_decimal(out, x as u64),
    }
}

fn push_joined_values(v: &Vec<Scalar>, out: &mut Vec<char>)
    ensures
        final(out)@ == old(out)@ + joined_values(v@),
{
    let mut i: usize = 0;
    while i < v.len()
        invariant
            i <= v.len(),
            out@ == old(out)@ + joined_values(v@.take(i as int)),
        decreases v.len() - i,
    {
        assert(v@.take(i + 1 as int).drop_last() == v@.take(i as int));
        if i > 0 {
            append_str(out, ", ");
        }
        push_scalar_value(v[i], out);
        i = i + 1;
        assert(out@ == old(out)@ + joined_values(v@.take(i as int)));
    }
    assert(v@.take(v.len() as int) == v@);
}

impl Data {
    /// A two-component vector constant.
    pub fn vec2(x: Scalar, y: Scalar) -> (r: Data)
        ensures
            r matches Data::Vec(v) && v@ == seq![x, y],
    {
        let mut v: Vec<Scalar> = Vec::new();
        v.push(x);
        v.push(y);
        Data::Vec(v)
    }

    fn push_type(&self, out: &mut Vec<char>)
        ensures
            final(out)@ == old(out)@ + type_text(*self),
    {
        match self {
            Data::Bool(_) => append_str(out, "bool"),
            Data::I32(_) => append_str(out, "i32"),
            Data::U32(_) => append_str(out, "u32"),
            Data::Vec(v) => {
                append_str(out, "vec");
                push_decimal(out, v.len() as u64);
                append_str(out, "<");
                if v.len() > 0 {
                    push_scalar_type(v[0], out);
                }
                append_str(out, ">");
            },
            Data::Null => {},
        }
    }

    fn push_value(&self, out: &mut Vec<char>)
        ensures
            final(out)@ == old(out)@ + value_text(*self),
    {
        match self {
            Data::Bool(b) => push_scalar_value(Scalar::Bool(*b), out),
            Data::I32(x) => push_scalar_value(Scalar::I32(*x), out),
            Data::U32(x) => push_scalar_value(Scalar::U32(*x), out),
            Data::Vec(v) => {
                append_str(out, "vec");
                push_decimal(out, v.len() as u64);
                append_str(out, "(");
                push_joined_values(v, out);
                append_str(out, ")");
            },
            Data::Null => {},
        }
    }

    /// The WGSL type of the value.
    pub fn as_type(&self) -> (r: String)
        ensures
            r@ == type_text(*self),
    {
        let mut out: Vec<char> = Vec::new();
        self.push_type(&mut out);
        string_of(&out)
    }

    /// The WGSL expression of the value.
    pub fn as_value(&self) -> (r: String)
        ensures
            r@ == value_text(*self),
    {
        let mut out: Vec<char> = Vec::new();
        self.push_value(&mut out);
        string_of(&out)
    }
}

/// A symbol table for the shader preprocessor, in the order of definition.
pub struct Preprocessor {
    defined: Vec<(String, Data)>,
}

impl Preprocessor {
    /// The entries, names as characters.
    pub closed spec fn entries(&self) -> Seq<(Seq<char>, Data)> {
        self.defined@.map_values(|e: (String, Data)| (e.0@, e.1))
    }

    /// No name is defined twice.
    pub open spec fn wf(&self) -> bool {
        forall|i: int, j: int|
            0 <= i < j < self.entries().len() ==> #[trigger] self.entries()[i].0
                != #[trigger] self.entries()[j].0
    }

    /// An empty table.
    pub fn new() -> (r: Self)
        ensures
            r.wf(),
            r.entries() == Seq::<(Seq<char>, Data)>::empty(),
    {
        let r = Preprocessor { defined: Vec::new() };
        assert(r.entries() =~= Seq::<(Seq<char>, Data)>::empty());
        r
    }

    /// The index of the entry named `name`.
    fn position_of(&self, name: &Vec<char>) -> (r: Option<usize>)
        ensures
            match r {
                Some(p) => position(self.entries(), name@) == p,
                None => position(self.entries(), name@) == -1,
            },
    {
        let ghost e = self.entries();
        let mut i: usize = self.defined.len();
        assert(e.take(i as int) == e);
        while i > 0
            invariant
                i <= self.defined.len(),
                e == self.entries(),
                e.len() == self.defined.len(),
                position(e, name@) == position(e.take(i as int), name@),
            decreases i,
        {
            let key = chars_of(self.defined[i - 1].0.as_str());
            assert(e.take(i as int).drop_last() == e.take(i - 1 as int));
            assert(e.take(i as int).last() == e[i - 1]);
            if same_chars(&key, name) {
                return Some(i - 1);
            }
            i = i - 1;
        }
        None
    }

    /// Defines `name` as `data`, replacing an earlier value in its place.
    pub fn define(self, name: &str, data: Data) -> (r: Self)
        requires
            self.wf(),
        ensures
            r.wf(),
            r.entries() == with_definition(self.entries(), name@, data),
    {
        let ghost e = self.entries();
        let mut this = self;
        let key = chars_of(name);
        let found = this.position_of(&key);
        proof {
            lemma_position_bounds(e, name@);
        }
        let owned = name.to_owned();
        match found {
            Some(p) => {
                this.defined[p] = (owned, data);
                assert(this.entries() =~= e.update(p as int, (name@, data)));
            },
            None => {
                this.defined.push((owned, data));
                assert(this.entries() =~= e.push((name@, data)));
            },
        }
        this
    }

    /// The value that `name` is defined as.
    pub fn get(&self, name: &str) -> (r: Option<&Data>)
        ensures
            match r {
                Some(d) => lookup(self.entries(), name@) == Some(*d),
                None => lookup(self.entries(), name@) is None,
            },
    {
        let key = chars_of(name);
        proof {
            lemma_position_bounds(self.entries(), name@);
        }
        match self.position_of(&key) {
            Some(p) => Some(&self.defined[p].1),
            None => None,
        }
    }

    fn push_constants(&self, out: &mut Vec<char>)
        ensures
            final(out)@ == old(out)@ + constants(self.entries()),
    {
        let ghost e = self.entries();
        let mut i: usize = 0;
        while i < self.defined.len()
            invariant
                i <= self.defined.len(),
                e == self.entries(),
                e.len() == self.defined.len(),
                out@ == old(out)@ + constants(e.take(i as int)),
            decreases self.defined.len() - i,
        {
            assert(e.take(i + 1 as int).drop_last() == e.take(i as int));
            assert(e.take(i + 1 as int).last() == e[i as int]);
            let entry = &self.defined[i];
            match &entry.1 {
                Data::Null => {},
                d => {
                    append_str(out, "const ");
                    append_str(out, entry.0.as_str());
                    append_str(out, ": ");
                    d.push_type(out);
                    append_str(out, " = ");
                    d.push_value(out);
                    append_str(out, ";\n");
                },
            }
            i = i + 1;
        }
        assert(e.take(e.len() as int) == e);
    }
}

proof fn lemma_scan_error_stays(ls: Seq<Seq<char>>, k: int, defs: Seq<(Seq<char>, Data)>)
    requires
        0 <= k <= ls.len(),
        scan_lines(ls.take(k), defs) is Err,
    ensures
        scan_lines(ls, defs) == scan_lines(ls.take(k), defs),
    decreases ls.len() - k,
{
    if k < ls.len() {
        assert(ls.take(k + 1).drop_last() == ls.take(k));
        lemma_scan_error_stays(ls, k + 1, defs);
    } else {
        assert(ls.take(k) == ls);
    }
}

impl Preprocessor {
    /// Preprocesses `input`: the constant declarations of the table, then
    /// each line of the input followed by `\n`, where an `#if NAME` line
    /// and its block up to the `#endif` line are replaced by the block's
    /// lines when `NAME` is enabled and by nothing when it is not. A block
    /// with no line at all leaves one empty line when it is kept.
    pub fn process(&self, input: &str) -> (r: Result<String, ShaderAssemblyError>)
        ensures
            outcome(&r) == processed(self.entries(), input@),
    {
        let ghost defs = self.entries();
        let text = chars_of(input);
        let rows = lines_of(&text);
        let ghost ls = views(rows@);
        let if_text = chars_of("// #if ");
        let endif_text = chars_of("// #endif");
        let mut body: Vec<char> = Vec::new();
        let mut mode = Mode::Text;
        let mut i: usize = 0;
        assert(ls.take(0) == Seq::<Seq<char>>::empty());
        while i < rows.len()
            invariant
                i <= rows.len(),
                ls == views(rows@),
                ls == lines(input@),
                ls.len() == rows.len(),
                defs == self.entries(),
                if_text@ == if_mark(),
                endif_text@ == endif_mark(),
                scan_lines(ls.take(i as int), defs) == Ok::<(Seq<char>, Mode), AssemblyFault>(
                    (body@, mode),
                ),
            decreases rows.len() - i,
        {
            proof {
                assert(ls.take(i + 1 as int).drop_last() == ls.take(i as int));
                assert(ls.take(i + 1 as int).last() == rows@[i as int]@);
            }
            let line = &rows[i];
            let t = trimmed_start(line);
            match mode {
                Mode::Text => {
                    if has_prefix(&t, &if_text) {
                        let sym = trimmed_end(&suffix_from(&t, if_text.len()));
                        match self.position_of(&sym) {
                            None => {
                                proof {
                                    assert(ls[i as int] == line@);
                                    assert(is_if_line(line@));
                                    assert(if_symbol(line@) == sym@);
                                    assert(lookup(defs, sym@) is None);
                                    assert(scan_lines(ls.take(i + 1 as int), defs) == Err::<
                                        (Seq<char>, Mode),
                                        AssemblyFault,
                                    >(AssemblyFault::UndefinedSymbol(sym@)));
                                    lemma_scan_error_stays(ls, i + 1, defs);
                                }
                                let err = ShaderAssemblyError::UndefinedSymbol(string_of(&sym));
                                assert(lines(input@) == ls);
                                assert(processed(defs, input@) == Err::<Seq<char>, AssemblyFault>(
                                    err@,
                                ));
                                return Err(err);
                            },
                            Some(p) => {
                                proof {
                                    lemma_position_bounds(defs, sym@);
                                }
                                let keep = match &self.defined[p].1 {
                                    Data::Bool(false) => false,
                                    _ => true,
                                };
                                mode = Mode::Block { keep, empty: true };
                            },
                        }
                    } else {
                        append_chars(&mut body, line);
                        body.push('\n');
                    }
                },
                Mode::Block { keep, empty } => {
                    if has_prefix(&t, &endif_text) {
                        if keep && empty {
                            body.push('\n');
                        }
                        mode = Mode::Text;
                    } else {
                        if keep {
                            append_chars(&mut body, line);
                            body.push('\n');
                        }
                        mode = Mode::Block { keep, empty: false };
                    }
                },
            }
            i = i + 1;
        }
        assert(ls.take(rows.len() as int) == ls);
        match mode {
            Mode::Text => {
                let mut out: Vec<char> = Vec::new();
                self.push_constants(&mut out);
                append_chars(&mut out, &body);
                Ok(string_of(&out))
            },
            Mode::Block { .. } => Err(ShaderAssemblyError::UnterminatedBlock),
        }
    }
}

/// The header of the per-cell update function. A template opens with this
/// function on its first line; a user-supplied body replaces that line.
pub const TICK_SIGNATURE: &'static str = "fn tick(x: u32, y: u32, mul: ptr<function, f32>, distance: ptr<function, f32>, c: ptr<function, f32>)";

/// Index of the first `\n` of `s`, or its length when it has none.
pub open spec fn first_newline(s: Seq<char>) -> int
    decreases s.len(),
{
    if s.len() == 0 {
        0
    } else if s[0] == '\n' {
        0
    } else {
        1 + first_newline(s.drop_first())
    }
}

/// The template opens with the `tick` function and has a line after it.
pub open spec fn has_extension_point(template: Seq<char>) -> bool {
    starts_with(template, TICK_SIGNATURE@) && first_newline(template) < template.len()
}

/// The template with its first line replaced by a `tick` function whose
/// body is `body`.
pub open spec fn with_tick_body(template: Seq<char>, body: Seq<char>) -> Seq<char> {
    TICK_SIGNATURE@ + " {\n"@ + body + "\n}"@ + template.skip(first_newline(template))
}

/// The kernel source assembled from a template, an optional `tick` body
/// and a symbol table.
pub open spec fn assembled(
    template: Seq<char>,
    body: Option<Seq<char>>,
    defs: Seq<(Seq<char>, Data)>,
) -> Result<Seq<char>, AssemblyFault> {
    if !has_extension_point(template) {
        Err(AssemblyFault::MissingExtensionPoint)
    } else {
        match body {
            Some(b) => processed(defs, with_tick_body(template, b)),
            None => processed(defs, template),
        }
    }
}

/// The characters of an optional text.
pub open spec fn text_of(b: Option<&str>) -> Option<Seq<char>> {
    match b {
        Some(x) => Some(x@),
        None => None,
    }
}

proof fn lemma_first_newline_skip(s: Seq<char>, i: int)
    requires
        0 <= i <= s.len(),
        forall|j: int| 0 <= j < i ==> #[trigger] s[j] != '\n',
    ensures
        first_newline(s) == i + first_newline(s.skip(i)),
    decreases i,
{
    if i > 0 {
        assert(s.drop_first().skip(i - 1) == s.skip(i));
        lemma_first_newline_skip(s.drop_first(), i - 1);
    } else {
        assert(s.skip(0) == s);
    }
}

fn find_newline(s: &Vec<char>) -> (r: usize)
    ensures
        r == first_newline(s@),
{
    let mut i: usize = 0;
    while i < s.len() && s[i] != '\n'
        invariant
            i <= s.len(),
            forall|j: int| 0 <= j < i ==> #[trigger] s@[j] != '\n',
        decreases s.len() - i,
    {
        i = i + 1;
    }
    proof {
        lemma_first_newline_skip(s@, i as int);
    }
    i
}

/// Assembles the kernel source: checks that `template` has its extension
/// point, puts `tick_body` in place of the default `tick` function when one
/// is given, and preprocesses the result with `symbols`.
pub fn assemble_shader(template: &str, tick_body: Option<&str>, symbols: &Preprocessor) -> (r:
    Result<String, ShaderAssemblyError>)
    ensures
        outcome(&r) == assembled(template@, text_of(tick_body), symbols.entries()),
{
    let t = chars_of(template);
    let signature = chars_of(TICK_SIGNATURE);
    let k = find_newline(&t);
    if !has_prefix(&t, &signature) || k >= t.len() {
        return Err(ShaderAssemblyError::MissingExtensionPoint);
    }
    match tick_body {
        Some(b) => {
            let mut source = signature;
            append_str(&mut source, " {\n");
            append_str(&mut source, b);
            append_str(&mut source, "\n}");
            let rest = suffix_from(&t, k);
            append_chars(&mut source, &rest);
            let text = string_of(&source);
            symbols.process(text.as_str())
        },
        None => symbols.process(template),
    }
}

/// Assembling twice from the same template, `tick` body and symbol table
/// gives the same outcome: the same source text, character for character,
/// or the same error.
pub proof fn assembly_is_deterministic(
    template: &str,
    tick_body: Option<&str>,
    symbols: Preprocessor,
    first: Result<String, ShaderAssemblyError>,
    second: Result<String, ShaderAssemblyError>,
)
    requires
        outcome(&first) == assembled(template@, text_of(tick_body), symbols.entries()),
        outcome(&second) == assembled(template@, text_of(tick_body), symbols.entries()),
    ensures
        outcome(&first) == outcome(&second),
        first is Ok <==> second is Ok,
        first is Ok ==> first->Ok_0@ == second->Ok_0@,
{
}

} // verus!
