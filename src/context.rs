//! The state that one translation run threads through every rule: the records
//! and enumerations declared so far, the import tables, and the transient
//! flags of the statement or function being translated.
use vstd::prelude::*;
use crate::error::{fail, Rule, TranspileError};
use crate::text::{joined, key_lt, less_than, owned, same, views, join_with};

verus! {

/// How a function's `return` values are wrapped, decided by its return type.
#[derive(Clone, Copy, Debug, PartialEq, Eq, Structural)]
pub enum Promotion {
    /// Values are returned as they are.
    Plain,
    /// The function returns an optional: values are converted with `.into()`.
    Into,
    /// The function returns a foreign array: values are handed out with
    /// `.into_pyarray(py)`.
    IntoPyArray,
}

/// An import table: member name and optional rename, ordered by name, names
/// unique.
pub type Table = Vec<(String, Option<String>)>;

/// The view of an import table.
pub type TableView = Seq<(Seq<char>, Option<Seq<char>>)>;

pub open spec fn opt_view(o: Option<String>) -> Option<Seq<char>> {
    match o {
        Some(s) => Some(s@),
        None => None,
    }
}

pub open spec fn table_view(t: Seq<(String, Option<String>)>) -> TableView {
    t.map_values(|e: (String, Option<String>)| (e.0@, opt_view(e.1)))
}

/// Names strictly increasing in code-point order.
pub open spec fn table_sorted(t: TableView) -> bool {
    forall|i: int, j: int| 0 <= i < j < t.len() ==> key_lt(#[trigger] t[i].0, #[trigger] t[j].0)
}

/// The table after recording `name` with `rename`. An existing entry keeps its
/// rename when `rename` is `None`, unless `overwrite` is set.
pub open spec fn upsert(t: TableView, name: Seq<char>, rename: Option<Seq<char>>, overwrite: bool) -> TableView
    decreases t.len(),
{
    if t.len() == 0 {
        seq![(name, rename)]
    } else if t[0].0 == name {
        seq![(name, if rename is Some || overwrite { rename } else { t[0].1 })] + t.drop_first()
    } else if key_lt(name, t[0].0) {
        seq![(name, rename)] + t
    } else {
        seq![t[0]] + upsert(t.drop_first(), name, rename, overwrite)
    }
}

/// Every name of the table after an upsert is the recorded name or a name
/// that was there before.
proof fn lemma_upsert_names(t: TableView, name: Seq<char>, rename: Option<Seq<char>>, overwrite: bool, j: int)
    requires
        0 <= j < upsert(t, name, rename, overwrite).len(),
    ensures
        upsert(t, name, rename, overwrite)[j].0 == name || exists|i: int|
            0 <= i < t.len() && t[i].0 == #[trigger] upsert(t, name, rename, overwrite)[j].0,
    decreases t.len(),
{
    let u = upsert(t, name, rename, overwrite);
    if t.len() > 0 && t[0].0 != name && !key_lt(name, t[0].0) {
        if j > 0 {
            lemma_upsert_names(t.drop_first(), name, rename, overwrite, j - 1);
            let w = upsert(t.drop_first(), name, rename, overwrite);
            assert(u[j] == w[j - 1]);
            if w[j - 1].0 != name {
                let i = choose|i: int| 0 <= i < t.drop_first().len() && t.drop_first()[i].0 == w[j - 1].0;
                assert(t[i + 1].0 == u[j].0);
            }
        } else {
            assert(t[0].0 == u[j].0);
        }
    } else if t.len() > 0 && t[0].0 == name {
        if j > 0 {
            assert(t[j].0 == u[j].0);
        }
    } else if t.len() > 0 {
        if j > 0 {
            assert(t[j - 1].0 == u[j].0);
        }
    }
}

/// Recording a name keeps a table's names strictly increasing.
pub proof fn lemma_upsert_sorted(t: TableView, name: Seq<char>, rename: Option<Seq<char>>, overwrite: bool)
    requires
        table_sorted(t),
    ensures
        table_sorted(upsert(t, name, rename, overwrite)),
    decreases t.len(),
{
    let u = upsert(t, name, rename, overwrite);
    if t.len() == 0 {
    } else if t[0].0 == name {
        assert forall|i: int, j: int| 0 <= i < j < u.len() implies key_lt(#[trigger] u[i].0, #[trigger] u[j].0) by {
            assert(u[i].0 == t[i].0 && u[j].0 == t[j].0);
        }
    } else if key_lt(name, t[0].0) {
        assert forall|i: int, j: int| 0 <= i < j < u.len() implies key_lt(#[trigger] u[i].0, #[trigger] u[j].0) by {
            if i == 0 {
                if j > 1 {
                    crate::text::lemma_key_lt_transitive(name, t[0].0, t[j - 1].0);
                }
            } else {
                assert(u[i].0 == t[i - 1].0 && u[j].0 == t[j - 1].0);
            }
        }
    } else {
        crate::text::lemma_key_lt_total(name, t[0].0);
        let rest = t.drop_first();
        assert(table_sorted(rest)) by {
            assert forall|i: int, j: int| 0 <= i < j < rest.len() implies key_lt(#[trigger] rest[i].0, #[trigger] rest[j].0) by {
                assert(rest[i] == t[i + 1] && rest[j] == t[j + 1]);
            }
        }
        lemma_upsert_sorted(rest, name, rename, overwrite);
        let w = upsert(rest, name, rename, overwrite);
        assert forall|i: int, j: int| 0 <= i < j < u.len() implies key_lt(#[trigger] u[i].0, #[trigger] u[j].0) by {
            if i == 0 {
                lemma_upsert_names(rest, name, rename, overwrite, j - 1);
                assert(u[j] == w[j - 1]);
                if w[j - 1].0 != name {
                    let k = choose|k: int| 0 <= k < rest.len() && rest[k].0 == w[j - 1].0;
                    assert(rest[k] == t[k + 1]);
                }
            } else {
                assert(u[i] == w[i - 1] && u[j] == w[j - 1]);
            }
        }
    }
}

/// Whether a table holds an entry for `n`.
pub closed spec fn has_name(t: TableView, n: Seq<char>) -> bool {
    exists|i: int| 0 <= i < t.len() && t[i].0 == n
}

/// Every name of `t0` is still in `t1`.
pub open spec fn names_kept(t0: TableView, t1: TableView) -> bool {
    forall|n: Seq<char>| #[trigger] has_name(t0, n) ==> has_name(t1, n)
}

/// Recording a name keeps every name that was there.
pub proof fn lemma_upsert_keeps_names(t: TableView, name: Seq<char>, rename: Option<Seq<char>>, overwrite: bool)
    ensures
        names_kept(t, upsert(t, name, rename, overwrite)),
    decreases t.len(),
{
    let u = upsert(t, name, rename, overwrite);
    if t.len() > 0 && t[0].0 != name && !key_lt(name, t[0].0) {
        lemma_upsert_keeps_names(t.drop_first(), name, rename, overwrite);
    }
    assert forall|n: Seq<char>| #[trigger] has_name(t, n) implies has_name(u, n) by {
        let i = choose|i: int| 0 <= i < t.len() && t[i].0 == n;
        if t[0].0 == name {
            assert(u[i].0 == n);
        } else if key_lt(name, t[0].0) {
            assert(u[i + 1].0 == n);
        } else if i == 0 {
            assert(u[0].0 == n);
        } else {
            let rest = t.drop_first();
            assert(rest[i - 1].0 == n);
            assert(has_name(rest, n));
            let w = upsert(rest, name, rename, overwrite);
            assert(has_name(w, n));
            let j = choose|j: int| 0 <= j < w.len() && w[j].0 == n;
            assert(u[j + 1].0 == n);
        }
    }
}

/// Record `name` with `rename` in a table, keeping it ordered by name.
pub fn table_upsert(t: &mut Table, name: &str, rename: Option<String>, overwrite: bool)
    ensures
        table_view(final(t)@) == upsert(table_view(old(t)@), name@, opt_view(rename), overwrite),
        table_sorted(table_view(old(t)@)) ==> table_sorted(table_view(final(t)@)),
        names_kept(table_view(old(t)@), table_view(final(t)@)),
{
    proof {
        lemma_upsert_keeps_names(table_view(t@), name@, opt_view(rename), overwrite);
        if table_sorted(table_view(t@)) {
            lemma_upsert_sorted(table_view(t@), name@, opt_view(rename), overwrite);
        }
    }
    let ghost t0 = table_view(t@);
    let mut i: usize = 0;
    assert(t0.skip(0) =~= t0);
    assert(t0.take(0) + t0.skip(0) =~= t0);
    while i < t.len() && !same(t[i].0.as_str(), name) && !less_than(name, t[i].0.as_str())
        invariant
            i <= t@.len(),
            t0 == table_view(t@),
            upsert(t0, name@, opt_view(rename), overwrite) == t0.take(i as int) + upsert(
                t0.skip(i as int),
                name@,
                opt_view(rename),
                overwrite,
            ),
        decreases t.len() - i,
    {
        let ghost rest = t0.skip(i as int);
        assert(rest.drop_first() =~= t0.skip(i + 1));
        assert(t0.take(i + 1) =~= t0.take(i as int).push(t0[i as int]));
        assert(t0.take(i as int) + (seq![t0[i as int]] + upsert(rest.drop_first(), name@, opt_view(rename), overwrite))
            =~= t0.take(i + 1) + upsert(t0.skip(i + 1), name@, opt_view(rename), overwrite));
        i = i + 1;
    }
    let ghost rest = t0.skip(i as int);
    if i < t.len() && same(t[i].0.as_str(), name) {
        let keep = rename.is_none() && !overwrite;
        if !keep {
            let entry = (owned(name), rename);
            t.set(i, entry);
            assert(table_view(t@) =~= t0.take(i as int) + (seq![(name@, opt_view(rename))] + rest.drop_first()));
        } else {
            assert(table_view(t@) =~= t0.take(i as int) + (seq![(name@, rest[0].1)] + rest.drop_first()));
        }
    } else {
        let entry = (owned(name), rename);
        t.insert(i, entry);
        assert(table_view(t@) =~= t0.take(i as int) + (seq![(name@, opt_view(rename))] + rest));
    }
}

/// The import tables of the whitelisted modules.
#[derive(Debug)]
pub struct Imports {
    /// Members of the math module, each with its rename if given.
    pub math: Table,
    /// The name under which the whole math module was imported, if it was.
    pub math_import_name: Option<String>,
    pub functools: Table,
    pub itertools: Table,
}

/// The view of the import tables.
pub struct ImportsView {
    pub math: TableView,
    pub math_import_name: Option<Seq<char>>,
    pub functools: TableView,
    pub itertools: TableView,
}

impl ImportsView {
    /// Each table's names are strictly increasing.
    pub open spec fn wf(self) -> bool {
        table_sorted(self.math) && table_sorted(self.functools) && table_sorted(self.itertools)
    }
}

impl View for Imports {
    type V = ImportsView;

    open spec fn view(&self) -> ImportsView {
        ImportsView {
            math: table_view(self.math@),
            math_import_name: opt_view(self.math_import_name),
            functools: table_view(self.functools@),
            itertools: table_view(self.itertools@),
        }
    }
}

/// The members of the math module that have a polyfill, and its text.
pub open spec fn polyfill(name: Seq<char>) -> Option<Seq<char>> {
    if name == "sin"@ {
        Some("#[inline(always)] pub fn sin(v : f64) -> f64 { v.sin() }\n"@)
    } else if name == "cos"@ {
        Some("#[inline(always)] pub fn cos(v : f64) -> f64 { v.cos() }\n"@)
    } else if name == "pow"@ {
        Some("#[inline(always)] pub fn pow(a : f64, b : f64) -> f64 { a.powf(b) }\n"@)
    } else if name == "pi"@ {
        Some("pub const pi: f64 = std::f64::consts::PI;"@)
    } else if name == "abs"@ {
        Some("#[inline(always)] pub fn abs(a : f64) -> f64 { a.abs() }\n"@)
    } else if name == "sqrt"@ {
        Some("#[inline(always)] pub fn sqrt(a : f64) -> f64 { a.sqrt() }\n"@)
    } else {
        None
    }
}

/// `r` with `p` put in front of its text.
pub open spec fn then_prefix(p: Seq<char>, r: Result<Seq<char>, TranspileError>) -> Result<Seq<char>, TranspileError> {
    match r {
        Ok(s) => Ok(p + s),
        Err(e) => Err(e),
    }
}

pub proof fn lemma_then_prefix(a: Seq<char>, b: Seq<char>, r: Result<Seq<char>, TranspileError>)
    ensures
        then_prefix(a, then_prefix(b, r)) == then_prefix(a + b, r),
{
    if let Ok(s) = r {
        assert(a + (b + s) =~= (a + b) + s);
    }
}

/// The polyfill texts of the members of a table, each followed by a line
/// break, or the error for the first member without one.
pub open spec fn polyfills(t: TableView) -> Result<Seq<char>, TranspileError>
    decreases t.len(),
{
    if t.len() == 0 {
        Ok(Seq::empty())
    } else {
        match polyfill(t[0].0) {
            None => Err(fail(Rule::UnknownMathMember)),
            Some(p) => then_prefix(p + "\n"@, polyfills(t.drop_first())),
        }
    }
}

/// The prelude module that holds the polyfills of the used math members.
pub open spec fn prelude_text(i: ImportsView) -> Result<Seq<char>, TranspileError> {
    if i.math.len() == 0 {
        Ok(Seq::empty())
    } else {
        match polyfills(i.math) {
            Err(e) => Err(e),
            Ok(s) => Ok("\nmod prelude {\n"@ + s + "\n}\n"@),
        }
    }
}

/// One item of the import line: the member, renamed if it was.
pub open spec fn import_item(e: (Seq<char>, Option<Seq<char>>)) -> Seq<char> {
    match e.1 {
        Some(r) => e.0 + " as "@ + r,
        None => e.0,
    }
}

/// The import line naming the used math members.
pub open spec fn imports_text(i: ImportsView) -> Seq<char> {
    if i.math.len() == 0 {
        Seq::empty()
    } else {
        "use prelude::{"@ + joined(i.math.map_values(|e| import_item(e)), ""@, ""@, ","@) + "};"@
    }
}

/// The members of the math module that have a polyfill.
#[derive(Clone, Copy, Debug, PartialEq, Eq, Structural)]
enum PyMath {
    Sin,
    Cos,
    Pow,
    Pi,
    Abs,
    Sqrt,
}

impl PyMath {
    fn from_name(name: &str) -> (r: Option<PyMath>)
        ensures
            r is Some <==> polyfill(name@) is Some,
            r is Some ==> polyfill(name@) == Some(r->Some_0.spec_text()),
    {
        if same(name, "sin") {
            Some(PyMath::Sin)
        } else if same(name, "cos") {
            Some(PyMath::Cos)
        } else if same(name, "pow") {
            Some(PyMath::Pow)
        } else if same(name, "pi") {
            Some(PyMath::Pi)
        } else if same(name, "abs") {
            Some(PyMath::Abs)
        } else if same(name, "sqrt") {
            Some(PyMath::Sqrt)
        } else {
            None
        }
    }

    spec fn spec_text(self) -> Seq<char> {
        match self {
            PyMath::Sin => "#[inline(always)] pub fn sin(v : f64) -> f64 { v.sin() }\n"@,
            PyMath::Cos => "#[inline(always)] pub fn cos(v : f64) -> f64 { v.cos() }\n"@,
            PyMath::Pow => "#[inline(always)] pub fn pow(a : f64, b : f64) -> f64 { a.powf(b) }\n"@,
            PyMath::Pi => "pub const pi: f64 = std::f64::consts::PI;"@,
            PyMath::Abs => "#[inline(always)] pub fn abs(a : f64) -> f64 { a.abs() }\n"@,
            PyMath::Sqrt => "#[inline(always)] pub fn sqrt(a : f64) -> f64 { a.sqrt() }\n"@,
        }
    }

    /// The polyfill for the math member.
    fn to_rust(&self) -> (r: &'static str)
        ensures
            r@ == self.spec_text(),
    {
        match self {
            PyMath::Sin => "#[inline(always)] pub fn sin(v : f64) -> f64 { v.sin() }\n",
            PyMath::Cos => "#[inline(always)] pub fn cos(v : f64) -> f64 { v.cos() }\n",
            PyMath::Pow => "#[inline(always)] pub fn pow(a : f64, b : f64) -> f64 { a.powf(b) }\n",
            PyMath::Pi => "pub const pi: f64 = std::f64::consts::PI;",
            PyMath::Abs => "#[inline(always)] pub fn abs(a : f64) -> f64 { a.abs() }\n",
            PyMath::Sqrt => "#[inline(always)] pub fn sqrt(a : f64) -> f64 { a.sqrt() }\n",
        }
    }
}

impl Imports {
    /// Empty tables.
    pub fn new() -> (r: Imports)
        ensures
            r@ == empty_imports(),
            r@.wf(),
    {
        let r = Imports {
            math: Vec::new(),
            math_import_name: None,
            functools: Vec::new(),
            itertools: Vec::new(),
        };
        assert(r@.math =~= Seq::<(Seq<char>, Option<Seq<char>>)>::empty());
        assert(r@.functools =~= Seq::<(Seq<char>, Option<Seq<char>>)>::empty());
        assert(r@.itertools =~= Seq::<(Seq<char>, Option<Seq<char>>)>::empty());
        r
    }

    /// The prelude module with the polyfill of each used math member.
    pub fn gen_prelude(&self) -> (r: Result<String, TranspileError>)
        requires
            self@.wf(),
        ensures
            match prelude_text(self@) {
                Ok(t) => r is Ok && r->Ok_0@ == t,
                Err(e) => r == Err::<String, TranspileError>(e),
            },
    {
        if self.math.len() == 0 {
            return Ok(String::new());
        }
        let mut body = String::new();
        let mut i: usize = 0;
        assert(self@.math.skip(0) =~= self@.math);
        assert(Seq::<char>::empty() + Seq::<char>::empty() =~= Seq::<char>::empty());
        while i < self.math.len()
            invariant
                i <= self.math@.len(),
                polyfills(self@.math) == then_prefix(body@, polyfills(self@.math.skip(i as int))),
            decreases self.math.len() - i,
        {
            let ghost rest = self@.math.skip(i as int);
            assert(rest.drop_first() =~= self@.math.skip(i + 1));
            match PyMath::from_name(self.math[i].0.as_str()) {
                None => {
                    return Err(TranspileError { rule: Rule::UnknownMathMember });
                },
                Some(m) => {
                    let ghost before = body@;
                    body.append(m.to_rust());
                    body.append("\n");
                    proof {
                        lemma_then_prefix(before, m.spec_text() + "\n"@, polyfills(rest.drop_first()));
                        assert(before + (m.spec_text() + "\n"@) =~= body@);
                    }
                },
            }
            i = i + 1;
        }
        assert(polyfills(self@.math.skip(i as int)) == Ok::<Seq<char>, TranspileError>(Seq::empty()));
        assert(body@ + Seq::<char>::empty() =~= body@);
        let mut r = owned("\nmod prelude {\n");
        r.append(body.as_str());
        r.append("\n}\n");
        Ok(r)
    }

    /// The line that imports the used math members from the prelude.
    pub fn gen_imports(&self) -> (r: String)
        requires
            self@.wf(),
        ensures
            r@ == imports_text(self@),
    {
        if self.math.len() == 0 {
            return String::new();
        }
        let mut items: Vec<String> = Vec::new();
        let mut i: usize = 0;
        while i < self.math.len()
            invariant
                i <= self.math@.len(),
                views(items@) =~= self@.math.take(i as int).map_values(|e| import_item(e)),
            decreases self.math.len() - i,
        {
            let mut item = owned(self.math[i].0.as_str());
            match &self.math[i].1 {
                Some(rename) => {
                    item.append(" as ");
                    item.append(rename.as_str());
                },
                None => {},
            }
            let ghost before = items@;
            items.push(item);
            assert(views(items@) =~= views(before).push(item@));
            i = i + 1;
        }
        assert(self@.math.take(self@.math.len() as int) =~= self@.math);
        let mut r = owned("use prelude::{");
        let joined_items = join_with(&items, "", "", ",");
        r.append(joined_items.as_str());
        r.append("};");
        r
    }
}

/// Empty import tables.
pub open spec fn empty_imports() -> ImportsView {
    ImportsView {
        math: Seq::empty(),
        math_import_name: None,
        functools: Seq::empty(),
        itertools: Seq::empty(),
    }
}

/// The state of one translation run.
#[derive(Debug)]
pub struct Ctx {
    /// Each declared record with its field names, in declaration order.
    pub classes: Vec<(String, Vec<String>)>,
    /// The declared enumerations.
    pub enums: Vec<String>,
    /// Set while the members of an enumeration are translated.
    pub in_enum: bool,
    /// Set while an assignment target is translated: names get `mut`.
    pub declare_var_mut: bool,
    /// How `return` values of the current function are wrapped.
    pub ret_needs_promotion: Promotion,
    /// The parameters of the current function that are foreign arrays, with
    /// their types.
    pub numpy_array_args: Vec<(String, String)>,
    pub imports: Imports,
}

/// The views of pairs of strings.
pub open spec fn pairs_view(a: Seq<(String, String)>) -> Seq<(Seq<char>, Seq<char>)> {
    a.map_values(|p: (String, String)| (p.0@, p.1@))
}

/// The view of a run's state.
pub struct CtxView {
    pub classes: Seq<(Seq<char>, Seq<Seq<char>>)>,
    pub enums: Seq<Seq<char>>,
    pub in_enum: bool,
    pub declare_var_mut: bool,
    pub promotion: Promotion,
    pub array_args: Seq<(Seq<char>, Seq<char>)>,
    pub imports: ImportsView,
}

impl View for Ctx {
    type V = CtxView;

    open spec fn view(&self) -> CtxView {
        CtxView {
            classes: self.classes@.map_values(|c: (String, Vec<String>)| (c.0@, views(c.1@))),
            enums: views(self.enums@),
            in_enum: self.in_enum,
            declare_var_mut: self.declare_var_mut,
            promotion: self.ret_needs_promotion,
            array_args: pairs_view(self.numpy_array_args@),
            imports: self.imports@,
        }
    }
}

/// From state `c0` to state `c1` the import tables stay ordered.
pub open spec fn keeps(c0: CtxView, c1: CtxView) -> bool {
    c0.imports.wf() ==> c1.imports.wf()
}

/// From state `c0` to state `c1` the declared records and enumerations are
/// kept, in order, and every imported name stays in its table: the
/// registries only grow.
pub open spec fn grows(c0: CtxView, c1: CtxView) -> bool {
    &&& c0.classes.len() <= c1.classes.len()
    &&& forall|i: int| 0 <= i < c0.classes.len() ==> #[trigger] c1.classes[i] == c0.classes[i]
    &&& c0.enums.len() <= c1.enums.len()
    &&& forall|i: int| 0 <= i < c0.enums.len() ==> #[trigger] c1.enums[i] == c0.enums[i]
    &&& names_kept(c0.imports.math, c1.imports.math)
    &&& names_kept(c0.imports.functools, c1.imports.functools)
    &&& names_kept(c0.imports.itertools, c1.imports.itertools)
}

/// The state a run starts from.
pub open spec fn fresh_ctx() -> CtxView {
    CtxView {
        classes: Seq::empty(),
        enums: Seq::empty(),
        in_enum: false,
        declare_var_mut: false,
        promotion: Promotion::Plain,
        array_args: Seq::empty(),
        imports: empty_imports(),
    }
}

/// The fields of the first record declared under `name`.
pub open spec fn class_members(classes: Seq<(Seq<char>, Seq<Seq<char>>)>, name: Seq<char>) -> Option<
    Seq<Seq<char>>,
>
    decreases classes.len(),
{
    if classes.len() == 0 {
        None
    } else if classes[0].0 == name {
        Some(classes[0].1)
    } else {
        class_members(classes.drop_first(), name)
    }
}

impl Default for Ctx {
    fn default() -> (r: Ctx)
        ensures
            r@ == fresh_ctx(),
    {
        Ctx::new()
    }
}

impl Ctx {
    /// A fresh state.
    pub fn new() -> (r: Ctx)
        ensures
            r@ == fresh_ctx(),
            r@.imports.wf(),
    {
        let r = Ctx {
            classes: Vec::new(),
            enums: Vec::new(),
            in_enum: false,
            declare_var_mut: false,
            ret_needs_promotion: Promotion::Plain,
            numpy_array_args: Vec::new(),
            imports: Imports::new(),
        };
        assert(r@.classes =~= Seq::<(Seq<char>, Seq<Seq<char>>)>::empty());
        assert(r@.enums =~= Seq::<Seq<char>>::empty());
        assert(r@.array_args =~= Seq::<(Seq<char>, Seq<char>)>::empty());
        r
    }

    /// The position of the first record declared under `class`, if any.
    pub fn get_class_members(&self, class: &str) -> (r: Option<usize>)
        ensures
            match class_members(self@.classes, class@) {
                None => r is None,
                Some(m) => r is Some && r->Some_0 < self.classes@.len()
                    && views(self.classes@[r->Some_0 as int].1@) == m,
            },
    {
        let ghost cs = self@.classes;
        let mut i: usize = 0;
        assert(cs.skip(0) =~= cs);
        while i < self.classes.len()
            invariant
                i <= self.classes@.len(),
                cs == self@.classes,
                class_members(cs, class@) == class_members(cs.skip(i as int), class@),
            decreases self.classes.len() - i,
        {
            assert(cs.skip(i as int).drop_first() =~= cs.skip(i + 1));
            if same(self.classes[i].0.as_str(), class) {
                return Some(i);
            }
            i = i + 1;
        }
        None
    }

    /// Whether an enumeration was declared under `e`.
    pub fn has_enum(&self, e: &str) -> (r: bool)
        ensures
            r == self@.enums.contains(e@),
    {
        let mut i: usize = 0;
        while i < self.enums.len()
            invariant
                i <= self.enums@.len(),
                forall|j: int| 0 <= j < i ==> self@.enums[j] != e@,
            decreases self.enums.len() - i,
        {
            if same(self.enums[i].as_str(), e) {
                assert(self@.enums[i as int] == e@);
                return true;
            }
            i = i + 1;
        }
        false
    }
}

} // verus!
