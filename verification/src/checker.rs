//! The state of the type checker: scopes, known names and diagnostics.

use vstd::hash_map::StringHashMap;
use vstd::prelude::*;

use crate::ast::Span;
use crate::htype::{HType, Ty};

verus! {

/// A variable in scope.
pub struct VarInfo {
    pub ty: HType,
    pub mutable: bool,
}

/// The mathematical value of a [`VarInfo`].
pub struct Var {
    pub ty: Ty,
    pub mutable: bool,
}

impl View for VarInfo {
    type V = Var;

    open spec fn view(&self) -> Var {
        Var { ty: self.ty@, mutable: self.mutable }
    }
}

/// What the checker knows of a function.
pub struct FnSig {
    pub return_type: HType,
}

/// An error with a hint for its reader.
pub struct Diagnostic {
    pub span: Span,
    pub message: String,
    pub hint: String,
}

/// The mathematical value of a [`Diagnostic`].
pub struct Report {
    pub span: Span,
    pub message: Seq<char>,
    pub hint: Seq<char>,
}

impl View for Diagnostic {
    type V = Report;

    open spec fn view(&self) -> Report {
        Report { span: self.span, message: self.message@, hint: self.hint@ }
    }
}

/// The type checker.
pub struct TypeChecker {
    /// The open scopes, the innermost last.
    pub scopes: Vec<StringHashMap<VarInfo>>,
    pub consts: StringHashMap<HType>,
    pub fns: StringHashMap<FnSig>,
    /// The fields of each struct, in the order of their declaration.
    pub structs: StringHashMap<Vec<(String, HType)>>,
    pub diagnostics: Vec<Diagnostic>,
}

/// The mathematical value of a [`TypeChecker`].
#[verifier::ext_equal]
pub struct Checker {
    pub scopes: Seq<Map<Seq<char>, Var>>,
    pub consts: Map<Seq<char>, Ty>,
    pub fns: Map<Seq<char>, Ty>,
    pub structs: Map<Seq<char>, Seq<(Seq<char>, Ty)>>,
    pub diagnostics: Seq<Report>,
}

/// The names and types of `fields`.
pub open spec fn fields_of(fields: Seq<(String, HType)>) -> Seq<(Seq<char>, Ty)> {
    fields.map_values(|f: (String, HType)| (f.0@, f.1@))
}

/// The variables of a scope.
pub open spec fn scope_of(scope: StringHashMap<VarInfo>) -> Map<Seq<char>, Var> {
    scope@.map_values(|v: VarInfo| v@)
}

impl View for TypeChecker {
    type V = Checker;

    open spec fn view(&self) -> Checker {
        Checker {
            scopes: self.scopes@.map_values(|s: StringHashMap<VarInfo>| scope_of(s)),
            consts: self.consts@.map_values(|t: HType| t@),
            fns: self.fns@.map_values(|f: FnSig| f.return_type@),
            structs: self.structs@.map_values(|f: Vec<(String, HType)>| fields_of(f@)),
            diagnostics: self.diagnostics@.map_values(|d: Diagnostic| d@),
        }
    }
}

/// The variable that `name` denotes under the first `n` scopes: the innermost one counts.
pub open spec fn looked_up(
    scopes: Seq<Map<Seq<char>, Var>>,
    n: nat,
    name: Seq<char>,
) -> Option<Var>
    decreases n,
{
    if n == 0 || n > scopes.len() {
        None
    } else if scopes[n - 1].contains_key(name) {
        Some(scopes[n - 1][name])
    } else {
        looked_up(scopes, (n - 1) as nat, name)
    }
}

impl Checker {
    /// The variable that `name` denotes.
    pub open spec fn var(self, name: Seq<char>) -> Option<Var> {
        looked_up(self.scopes, self.scopes.len(), name)
    }

    /// The state after one more error.
    pub open spec fn reported(self, span: Span, message: Seq<char>, hint: Seq<char>) -> Checker {
        Checker { diagnostics: self.diagnostics.push(Report { span, message, hint }), ..self }
    }

    /// The state with one more, empty scope.
    pub open spec fn pushed(self) -> Checker {
        Checker { scopes: self.scopes.push(Map::empty()), ..self }
    }

    /// The state without its innermost scope, if it has one.
    pub open spec fn popped(self) -> Checker {
        if self.scopes.len() == 0 {
            self
        } else {
            Checker { scopes: self.scopes.drop_last(), ..self }
        }
    }

    /// The state with a variable in the innermost scope, if there is a scope.
    pub open spec fn defined(self, name: Seq<char>, ty: Ty, mutable: bool) -> Checker {
        if self.scopes.len() == 0 {
            self
        } else {
            Checker {
                scopes: self.scopes.update(
                    self.scopes.len() - 1,
                    self.scopes.last().insert(name, Var { ty, mutable }),
                ),
                ..self
            }
        }
    }
}

impl TypeChecker {
    /// A checker that knows no name, without an open scope.
    pub fn new() -> (r: TypeChecker)
        ensures
            r@ == (Checker {
                scopes: Seq::empty(),
                consts: Map::empty(),
                fns: Map::empty(),
                structs: Map::empty(),
                diagnostics: Seq::empty(),
            }),
    {
        let r = TypeChecker {
            scopes: Vec::new(),
            consts: StringHashMap::new(),
            fns: StringHashMap::new(),
            structs: StringHashMap::new(),
            diagnostics: Vec::new(),
        };
        proof {
            assert(r@.scopes =~= Seq::empty());
            assert(r@.consts =~= Map::empty());
            assert(r@.fns =~= Map::empty());
            assert(r@.structs =~= Map::empty());
            assert(r@.diagnostics =~= Seq::empty());
        }
        r
    }

    /// Makes a constant known.
    pub fn declare_const(&mut self, name: String, ty: HType)
        ensures
            final(self)@.consts.contains_key(name@),
            final(self)@.consts[name@] == ty@,
            final(self)@ == (Checker { consts: old(self)@.consts.insert(name@, ty@), ..old(self)@ }),
    {
        self.consts.insert(name, ty);
        assert(self@.consts =~= old(self)@.consts.insert(name@, ty@));
    }

    /// Makes a function known.
    pub fn declare_fn(&mut self, name: String, return_type: HType)
        ensures
            final(self)@.fns.contains_key(name@),
            final(self)@.fns[name@] == return_type@,
            final(self)@ == (Checker {
                fns: old(self)@.fns.insert(name@, return_type@),
                ..old(self)@
            }),
    {
        self.fns.insert(name, FnSig { return_type });
        assert(self@.fns =~= old(self)@.fns.insert(name@, return_type@));
    }

    /// Makes a struct known.
    pub fn declare_struct(&mut self, name: String, fields: Vec<(String, HType)>)
        ensures
            final(self)@.structs.contains_key(name@),
            final(self)@.structs[name@].len() == fields@.len(),
            forall|i: int|
                0 <= i < fields@.len() ==> #[trigger] final(self)@.structs[name@][i] == (
                    fields@[i].0@,
                    fields@[i].1@,
                ),
            final(self)@ == (Checker {
                structs: old(self)@.structs.insert(name@, fields_of(fields@)),
                ..old(self)@
            }),
    {
        self.structs.insert(name, fields);
        assert(self@.structs =~= old(self)@.structs.insert(name@, fields_of(fields@)));
    }

    /// Reports an error.
    pub fn err_hint(&mut self, span: Span, message: String, hint: String)
        ensures
            final(self)@ == old(self)@.reported(span, message@, hint@),
    {
        self.diagnostics.push(Diagnostic { span, message, hint });
        assert(self@.diagnostics =~= old(self)@.diagnostics.push(
            Report { span, message: message@, hint: hint@ },
        ));
    }

    /// Opens a scope.
    pub fn push_scope(&mut self)
        ensures
            final(self)@ == old(self)@.pushed(),
    {
        self.scopes.push(StringHashMap::new());
        proof {
            assert(scope_of(self.scopes@.last()) =~= Map::empty());
            assert(self@.scopes =~= old(self)@.scopes.push(Map::empty()));
        }
    }

    /// Closes the innermost scope, if one is open.
    pub fn pop_scope(&mut self)
        ensures
            final(self)@ == old(self)@.popped(),
    {
        self.scopes.pop();
        proof {
            if old(self)@.scopes.len() > 0 {
                assert(self@.scopes =~= old(self)@.scopes.drop_last());
            } else {
                assert(self@.scopes =~= old(self)@.scopes);
            }
        }
    }

    /// Defines a variable in the innermost scope; without an open scope nothing happens.
    pub fn define(&mut self, name: &str, ty: HType, mutable: bool)
        ensures
            final(self)@ == old(self)@.defined(name@, ty@, mutable),
    {
        if let Some(scope) = self.scopes.pop() {
            let mut scope = scope;
            let ghost before = scope;
            scope.insert(name.to_owned(), VarInfo { ty, mutable });
            assert(scope_of(scope) =~= scope_of(before).insert(name@, Var { ty: ty@, mutable }));
            self.scopes.push(scope);
        }
        assert(self@.scopes =~= old(self)@.defined(name@, ty@, mutable).scopes);
    }

    /// The variable that `name` denotes; an inner scope hides the outer ones.
    pub fn lookup(&self, name: &str) -> (r: Option<&VarInfo>)
        ensures
            r is Some <==> self@.var(name@) is Some,
            r matches Some(v) ==> self@.var(name@) == Some(v@),
    {
        let mut n: usize = self.scopes.len();
        while n > 0
            invariant
                n <= self.scopes@.len(),
                looked_up(self@.scopes, n as nat, name@) == self@.var(name@),
            decreases n,
        {
            assert(self@.scopes[n - 1] == scope_of(self.scopes@[n - 1]));
            if let Some(v) = self.scopes[n - 1].get(name) {
                return Some(v);
            }
            n = n - 1;
        }
        None
    }
}

/// The state after the first `n` of `defs`, each with its name, its type and whether it is mutable.
pub open spec fn defined_all(st: Checker, defs: Seq<(Seq<char>, Ty, bool)>, n: nat) -> Checker
    decreases n,
{
    if n == 0 || n > defs.len() {
        st
    } else {
        let def = defs[n - 1];
        defined_all(st, defs, (n - 1) as nat).defined(def.0, def.1, def.2)
    }
}

/// Closing a scope undoes opening it, whatever was defined in between.
pub proof fn law_scope_is_local(st: Checker, defs: Seq<(Seq<char>, Ty, bool)>)
    ensures
        defined_all(st.pushed(), defs, defs.len()).popped() == st,
{
    lemma_definitions_stay_inside(st, defs, defs.len());
    assert(defined_all(st.pushed(), defs, defs.len()).popped().scopes =~= st.scopes);
}

/// Definitions change the innermost scope alone.
proof fn lemma_definitions_stay_inside(st: Checker, defs: Seq<(Seq<char>, Ty, bool)>, n: nat)
    ensures
        ({
            let after = defined_all(st.pushed(), defs, n);
            &&& after == (Checker { scopes: after.scopes, ..st })
            &&& after.scopes.len() == st.scopes.len() + 1
            &&& after.scopes.drop_last() == st.scopes
        }),
    decreases n,
{
    if n == 0 || n > defs.len() {
        assert(st.pushed().scopes.drop_last() =~= st.scopes);
    } else {
        lemma_definitions_stay_inside(st, defs, (n - 1) as nat);
        assert(defined_all(st.pushed(), defs, n).scopes.drop_last() =~= st.scopes);
    }
}

/// Opening a scope changes no variable.
pub proof fn law_new_scope_hides_nothing(st: Checker, name: Seq<char>)
    ensures
        st.pushed().var(name) == st.var(name),
{
    lemma_lookup_below(st.scopes, st.pushed().scopes, st.scopes.len(), name);
}

/// A definition is found under its name, hides what the name denoted, and leaves every other name
/// as it was.
pub proof fn law_definition_is_found(
    st: Checker,
    name: Seq<char>,
    ty: Ty,
    mutable: bool,
    other: Seq<char>,
)
    requires
        st.scopes.len() > 0,
    ensures
        st.defined(name, ty, mutable).var(name) == Some(Var { ty, mutable }),
        other != name ==> st.defined(name, ty, mutable).var(other) == st.var(other),
{
    lemma_lookup_below(
        st.scopes,
        st.defined(name, ty, mutable).scopes,
        (st.scopes.len() - 1) as nat,
        other,
    );
}

/// Looking into the first `n` scopes gives the same where these are the same.
proof fn lemma_lookup_below(
    a: Seq<Map<Seq<char>, Var>>,
    b: Seq<Map<Seq<char>, Var>>,
    n: nat,
    name: Seq<char>,
)
    requires
        n <= a.len(),
        n <= b.len(),
        forall|i: int| 0 <= i < n ==> a[i] == b[i],
    ensures
        looked_up(a, n, name) == looked_up(b, n, name),
    decreases n,
{
    if n > 0 {
        lemma_lookup_below(a, b, (n - 1) as nat, name);
    }
}

} // verus!
