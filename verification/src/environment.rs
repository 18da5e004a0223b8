//! Lexically nested scopes, held in an arena.
//!
//! A scope maps identifier names to values and knows its enclosing scope.
//! Because closures capture their defining scope and may outlive the block
//! that created it, scopes are never freed while a program runs: they live
//! in one growing arena and refer to their parents by index.  An enclosing
//! scope always has a smaller index than the scopes it encloses, which is
//! what makes walking the chain terminate.

use vstd::prelude::*;
use crate::value::{EnvironmentValue, SpecVal};

verus! {

/// One name-to-value entry of a scope.
#[derive(Debug)]
pub struct Binding {
    pub name: String,
    pub value: EnvironmentValue,
}

/// One scope: its entries, and the index of its enclosing scope (`None`
/// only for the global scope).
#[derive(Debug)]
pub struct Scope {
    pub entries: Vec<Binding>,
    pub enclosing: Option<usize>,
}

/// The scope arena.
#[derive(Debug)]
pub struct Environment {
    pub scopes: Vec<Scope>,
}

/// The ghost image of a scope: a map from names to values, and the parent
/// index (-1 for the global scope).
pub struct SpecScope {
    pub vars: Map<Seq<char>, SpecVal>,
    pub parent: int,
}

/// The map denoted by an entry list; a later entry for a name overrides an
/// earlier one (well-formed scopes never hold two entries for one name).
pub open spec fn assoc_map(s: Seq<Binding>) -> Map<Seq<char>, SpecVal>
    decreases s.len(),
{
    if s.len() == 0 {
        Map::empty()
    } else {
        assoc_map(s.drop_last()).insert(s.last().name@, s.last().value@)
    }
}

impl View for Scope {
    type V = SpecScope;

    open spec fn view(&self) -> SpecScope {
        SpecScope {
            vars: assoc_map(self.entries@),
            parent: match self.enclosing {
                Option::None => -1,
                Option::Some(p) => p as int,
            },
        }
    }
}

impl View for Environment {
    type V = Seq<SpecScope>;

    open spec fn view(&self) -> Seq<SpecScope> {
        self.scopes@.map_values(|sc: Scope| sc@)
    }
}

/// A value is well formed with respect to an arena of `n` scopes when any
/// scope it captures exists.
pub open spec fn val_wf(v: SpecVal, n: int) -> bool {
    v matches SpecVal::Fun(f) ==> 0 <= f.env < n
}

/// Every value of a scope is well formed.
pub open spec fn scope_vals_wf(sc: SpecScope, n: int) -> bool {
    forall|name: Seq<char>| #[trigger]
        sc.vars.contains_key(name) ==> val_wf(sc.vars[name], n)
}

/// Arena well-formedness: parents point strictly downwards, and captured
/// scopes exist.
pub open spec fn scopes_wf(s: Seq<SpecScope>) -> bool {
    (forall|j: int| 0 <= j < s.len() ==> -1 <= (#[trigger] s[j]).parent < j) && (forall|j: int|
        0 <= j < s.len() ==> scope_vals_wf(#[trigger] s[j], s.len() as int))
}

/// The nearest scope, from `idx` outwards, that defines `name`.
pub open spec fn resolve_in(s: Seq<SpecScope>, idx: int, name: Seq<char>) -> Option<int>
    decreases idx,
{
    if idx < 0 || idx >= s.len() {
        Option::None
    } else if s[idx].vars.contains_key(name) {
        Option::Some(idx)
    } else {
        let p = s[idx].parent;
        if 0 <= p < idx {
            resolve_in(s, p, name)
        } else {
            Option::None
        }
    }
}

/// The value `name` denotes when read from scope `idx`.
pub open spec fn lookup_in(s: Seq<SpecScope>, idx: int, name: Seq<char>) -> Option<SpecVal> {
    match resolve_in(s, idx, name) {
        Option::Some(j) => Option::Some(s[j].vars[name]),
        Option::None => Option::None,
    }
}

/// The arena after inserting `name` in scope `idx` (current scope only).
pub open spec fn define_in(s: Seq<SpecScope>, idx: int, name: Seq<char>, v: SpecVal) -> Seq<
    SpecScope,
> {
    s.update(idx, SpecScope { vars: s[idx].vars.insert(name, v), parent: s[idx].parent })
}

/// The arena after assigning to `name` from scope `idx`: the nearest
/// enclosing scope that defines the name is updated; `None` when no scope
/// does.
pub open spec fn assign_in(s: Seq<SpecScope>, idx: int, name: Seq<char>, v: SpecVal) -> Option<
    Seq<SpecScope>,
> {
    match resolve_in(s, idx, name) {
        Option::Some(j) => Option::Some(define_in(s, j, name, v)),
        Option::None => Option::None,
    }
}

/// Where `resolve_in` answers, it answers with a scope on the chain that
/// really defines the name.
pub proof fn lemma_resolve_some(s: Seq<SpecScope>, idx: int, name: Seq<char>)
    ensures
        resolve_in(s, idx, name) matches Option::Some(j) ==> 0 <= j <= idx && j < s.len() && s[
            j
        ].vars.contains_key(name),
    decreases idx,
{
    if 0 <= idx < s.len() && !s[idx].vars.contains_key(name) {
        let p = s[idx].parent;
        if 0 <= p < idx {
            lemma_resolve_some(s, p, name);
        }
    }
}

/// Scopes pushed onto the end of the arena change no resolution that
/// starts inside the old arena.
pub proof fn lemma_resolve_frame(s: Seq<SpecScope>, t: Seq<SpecScope>, idx: int, name: Seq<char>)
    requires
        s.len() <= t.len(),
        forall|j: int| 0 <= j < s.len() ==> t[j] == s[j],
        idx < s.len(),
    ensures
        resolve_in(t, idx, name) == resolve_in(s, idx, name),
    decreases idx,
{
    if 0 <= idx < s.len() && !s[idx].vars.contains_key(name) {
        let p = s[idx].parent;
        if 0 <= p < idx {
            lemma_resolve_frame(s, t, p, name);
        }
    }
}

/// Entry lists with pairwise distinct names.
pub open spec fn distinct_names(s: Seq<Binding>) -> bool {
    forall|i: int, j: int| 0 <= i < j < s.len() ==> (#[trigger] s[i]).name@ != (#[trigger] s[j]).name@
}

/// What `assoc_map` holds, read off the entry list: entry `i` puts its
/// value in the map, and a name with no entry is absent.
pub proof fn lemma_assoc_contains(s: Seq<Binding>, name: Seq<char>)
    requires
        distinct_names(s),
    ensures
        assoc_map(s).contains_key(name) <==> exists|i: int|
            0 <= i < s.len() && (#[trigger] s[i]).name@ == name,
        forall|i: int|
            0 <= i < s.len() && (#[trigger] s[i]).name@ == name ==> assoc_map(s)[name] == s[
                i
            ].value@,
    decreases s.len(),
{
    if s.len() > 0 {
        let t = s.drop_last();
        lemma_assoc_contains(t, name);
        assert(forall|i: int| 0 <= i < s.len() - 1 ==> #[trigger] t[i] == s[i]);
        if s.last().name@ == name {
            assert(s[s.len() - 1].name@ == name);
            assert forall|i: int|
                0 <= i < s.len() && (#[trigger] s[i]).name@ == name implies assoc_map(s)[name]
                == s[i].value@ by {
                if i < s.len() - 1 {
                    assert(s[i].name@ == s[s.len() - 1].name@);
                    assert(false);
                }
            }
        } else {
            if assoc_map(s).contains_key(name) {
                let i = choose|i: int| 0 <= i < t.len() && (#[trigger] t[i]).name@ == name;
                assert(s[i].name@ == name);
            }
            if exists|i: int| 0 <= i < s.len() && (#[trigger] s[i]).name@ == name {
                let i = choose|i: int| 0 <= i < s.len() && (#[trigger] s[i]).name@ == name;
                assert(i < s.len() - 1);
                assert(t[i].name@ == name);
            }
            assert forall|i: int|
                0 <= i < s.len() && (#[trigger] s[i]).name@ == name implies assoc_map(s)[name]
                == s[i].value@ by {
                assert(i < s.len() - 1);
                assert(t[i].name@ == name);
                assert(assoc_map(t)[name] == t[i].value@);
            }
        }
    }
}

/// Replacing the entry that holds `name` updates the map at `name` alone.
pub proof fn lemma_assoc_update(s: Seq<Binding>, i: int, b: Binding)
    requires
        distinct_names(s),
        0 <= i < s.len(),
        b.name@ == s[i].name@,
    ensures
        assoc_map(s.update(i, b)) =~= assoc_map(s).insert(b.name@, b.value@),
        distinct_names(s.update(i, b)),
    decreases s.len(),
{
    let s2 = s.update(i, b);
    assert(forall|k: int| 0 <= k < s.len() && k != i ==> #[trigger] s2[k] == s[k]);
    if i == s.len() - 1 {
        assert(s2.drop_last() =~= s.drop_last());
    } else {
        lemma_assoc_update(s.drop_last(), i, b);
        assert(s2.drop_last() =~= s.drop_last().update(i, b));
        assert(s2.last() == s.last());
        assert(s.last().name@ != b.name@);
    }
}

/// Appending an entry for a fresh name inserts it into the map.
pub proof fn lemma_assoc_push(s: Seq<Binding>, b: Binding)
    requires
        distinct_names(s),
        forall|i: int| 0 <= i < s.len() ==> (#[trigger] s[i]).name@ != b.name@,
    ensures
        assoc_map(s.push(b)) =~= assoc_map(s).insert(b.name@, b.value@),
        distinct_names(s.push(b)),
    decreases s.len(),
{
    assert(s.push(b).drop_last() =~= s);
    assert(s.push(b).last() == b);
}

impl Scope {
    /// Exec-level well-formedness: no two entries for one name.
    pub open spec fn wf(&self) -> bool {
        distinct_names(self.entries@)
    }

    /// The index of the entry holding `name`, if any.
    fn find(&self, name: &String) -> (r: Option<usize>)
        requires
            self.wf(),
        ensures
            match r {
                Option::Some(i) => i < self.entries@.len() && self.entries@[i as int].name@
                    == name@ && self@.vars.contains_key(name@) && self@.vars[name@]
                    == self.entries@[i as int].value@,
                Option::None => !self@.vars.contains_key(name@),
            },
    {
        proof {
            lemma_assoc_contains(self.entries@, name@);
        }
        let n = self.entries.len();
        let mut i: usize = 0;
        while i < n
            invariant
                n == self.entries@.len(),
                i <= n,
                self.wf(),
                forall|k: int| 0 <= k < i ==> (#[trigger] self.entries@[k]).name@ != name@,
            decreases n - i,
        {
            if self.entries[i].name.eq(name) {
                proof {
                    lemma_assoc_contains(self.entries@, name@);
                }
                return Option::Some(i);
            }
            i += 1;
        }
        Option::None
    }
}

impl Environment {
    /// Arena well-formedness: every scope's entries are distinct, parents
    /// point downwards, captured scopes exist.
    pub open spec fn wf(&self) -> bool {
        (forall|j: int|
            0 <= j < self.scopes@.len() ==> (#[trigger] self.scopes@[j]).wf()) && scopes_wf(self@)
    }

    /// A fresh arena holding only the empty global scope.
    pub fn new() -> (r: Environment)
        ensures
            r.wf(),
            r@.len() == 1,
            r@[0].vars =~= Map::<Seq<char>, SpecVal>::empty(),
            r@[0].parent == -1,
    {
        let mut scopes: Vec<Scope> = Vec::new();
        scopes.push(Scope { entries: Vec::new(), enclosing: Option::None });
        let r = Environment { scopes };
        proof {
            assert(r@ =~= seq![r.scopes@[0]@]);
        }
        r
    }

    /// Install a fresh scope whose enclosing scope is `parent`; its index
    /// is returned.
    pub fn push_scope(&mut self, parent: usize) -> (idx: usize)
        requires
            old(self).wf(),
            parent < old(self)@.len(),
        ensures
            final(self).wf(),
            idx == old(self)@.len(),
            final(self)@ =~= old(self)@.push(
                SpecScope { vars: Map::<Seq<char>, SpecVal>::empty(), parent: parent as int },
            ),
    {
        let idx = self.scopes.len();
        self.scopes.push(Scope { entries: Vec::new(), enclosing: Option::Some(parent) });
        proof {
            assert(forall|j: int|
                0 <= j < old(self).scopes@.len() ==> #[trigger] self.scopes@[j]
                    == old(self).scopes@[j]);
            assert(forall|j: int|
                0 <= j < old(self)@.len() ==> #[trigger] self@[j] == old(self)@[j]);
            assert forall|j: int| 0 <= j < self@.len() implies scope_vals_wf(
                #[trigger] self@[j],
                self@.len() as int,
            ) by {
                if j < old(self)@.len() {
                    assert(scope_vals_wf(old(self)@[j], old(self)@.len() as int));
                    assert forall|name: Seq<char>| #[trigger]
                        self@[j].vars.contains_key(name) implies val_wf(
                        self@[j].vars[name],
                        self@.len() as int,
                    ) by {
                        assert(val_wf(old(self)@[j].vars[name], old(self)@.len() as int));
                    }
                }
            }
        }
        idx
    }

    /// Re-point a scope's enclosing link.  The new parent must lie below
    /// the scope, which keeps chains terminating.
    pub fn set_enclosing(&mut self, scope: usize, enclosing: usize) -> (r: ())
        requires
            old(self).wf(),
            enclosing < scope < old(self)@.len(),
        ensures
            final(self).wf(),
            final(self)@ =~= old(self)@.update(
                scope as int,
                SpecScope { vars: old(self)@[scope as int].vars, parent: enclosing as int },
            ),
    {
        let mut tmp = Scope { entries: Vec::new(), enclosing: Option::None };
        self.scopes.set_and_swap(scope, &mut tmp);
        tmp.enclosing = Option::Some(enclosing);
        self.scopes.set_and_swap(scope, &mut tmp);
        proof {
            assert(forall|j: int|
                0 <= j < self@.len() && j != scope ==> #[trigger] self@[j] == old(self)@[j]);
            assert(self@[scope as int].vars =~= old(self)@[scope as int].vars);
            assert forall|j: int| 0 <= j < self@.len() implies scope_vals_wf(
                #[trigger] self@[j],
                self@.len() as int,
            ) by {
                assert(scope_vals_wf(old(self)@[j], old(self)@.len() as int));
                assert(self@[j].vars == old(self)@[j].vars);
            }
        }
    }

    /// How many scopes the arena holds.
    pub fn scope_count(&self) -> (n: usize)
        ensures
            n == self@.len(),
    {
        self.scopes.len()
    }

    /// Insert or overwrite `name` in the given scope, touching no other.
    pub fn define(&mut self, scope: usize, name: &String, value: EnvironmentValue)
        requires
            old(self).wf(),
            scope < old(self)@.len(),
            val_wf(value@, old(self)@.len() as int),
        ensures
            final(self).wf(),
            final(self)@.len() == old(self)@.len(),
            final(self)@ =~= define_in(old(self)@, scope as int, name@, value@),
    {
        let ghost old_env = self@;
        let mut tmp = Scope { entries: Vec::new(), enclosing: Option::None };
        self.scopes.set_and_swap(scope, &mut tmp);
        let found = tmp.find(name);
        let ghost old_scope = tmp@;
        match found {
            Option::Some(i) => {
                let b = Binding { name: name.clone(), value };
                proof {
                    lemma_assoc_update(tmp.entries@, i as int, b);
                }
                tmp.entries.set(i, b);
            },
            Option::None => {
                let b = Binding { name: name.clone(), value };
                proof {
                    lemma_assoc_contains(tmp.entries@, name@);
                    lemma_assoc_push(tmp.entries@, b);
                }
                tmp.entries.push(b);
            },
        }
        self.scopes.set_and_swap(scope, &mut tmp);
        proof {
            assert(self@[scope as int].vars =~= old_scope.vars.insert(name@, value@));
            assert(self@ =~= define_in(old_env, scope as int, name@, value@));
            assert(forall|j: int|
                0 <= j < self@.len() && j != scope ==> #[trigger] self@[j] == old_env[j]);
            assert forall|j: int| 0 <= j < self@.len() implies scope_vals_wf(
                #[trigger] self@[j],
                self@.len() as int,
            ) by {
                assert(scope_vals_wf(old_env[j], old_env.len() as int));
                if j == scope {
                    assert forall|n: Seq<char>| #[trigger]
                        self@[j].vars.contains_key(n) implies val_wf(
                        self@[j].vars[n],
                        self@.len() as int,
                    ) by {
                        if n != name@ {
                            assert(old_env[j].vars.contains_key(n));
                        }
                    }
                }
            }
        }
    }

    /// Whether the given scope itself (not its ancestors) defines `name`.
    pub fn check_definition(&self, scope: usize, name: &String) -> (r: bool)
        requires
            self.wf(),
            scope < self@.len(),
        ensures
            r == self@[scope as int].vars.contains_key(name@),
    {
        match self.scopes[scope].find(name) {
            Option::Some(_) => true,
            Option::None => false,
        }
    }

    /// The nearest scope, from `scope` outwards, that defines `name`.
    fn resolve(&self, scope: usize, name: &String) -> (r: Option<usize>)
        requires
            self.wf(),
            scope < self@.len(),
        ensures
            match r {
                Option::Some(j) => j < self@.len() && resolve_in(self@, scope as int, name@)
                    == Option::Some(j as int),
                Option::None => resolve_in(self@, scope as int, name@) == Option::<int>::None,
            },
    {
        let mut idx = scope;
        loop
            invariant
                self.wf(),
                idx < self@.len(),
                resolve_in(self@, scope as int, name@) == resolve_in(self@, idx as int, name@),
            decreases idx,
        {
            match self.scopes[idx].find(name) {
                Option::Some(_) => {
                    return Option::Some(idx);
                },
                Option::None => {
                    match self.scopes[idx].enclosing {
                        Option::Some(p) => {
                            idx = p;
                        },
                        Option::None => {
                            return Option::None;
                        },
                    }
                },
            }
        }
    }

    /// Read `name` from the nearest enclosing scope that defines it; the
    /// returned value is a copy of the stored one.
    pub fn get(&self, scope: usize, name: &String) -> (r: Option<EnvironmentValue>)
        requires
            self.wf(),
            scope < self@.len(),
        ensures
            match r {
                Option::Some(v) => lookup_in(self@, scope as int, name@) == Option::Some(v@)
                    && val_wf(v@, self@.len() as int),
                Option::None => lookup_in(self@, scope as int, name@) == Option::<SpecVal>::None,
            },
    {
        proof {
            lemma_resolve_some(self@, scope as int, name@);
        }
        match self.resolve(scope, name) {
            Option::Some(j) => {
                match self.scopes[j].find(name) {
                    Option::Some(i) => {
                        proof {
                            assert(scope_vals_wf(self@[j as int], self@.len() as int));
                        }
                        Option::Some(self.scopes[j].entries[i].value.duplicate())
                    },
                    Option::None => {
                        // `resolve` answered with a defining scope, so the
                        // entry is there.
                        proof {
                            assert(false);
                        }
                        Option::None
                    },
                }
            },
            Option::None => Option::None,
        }
    }

    /// Update `name` in the nearest enclosing scope that defines it;
    /// reports whether any scope did.
    pub fn assign(&mut self, scope: usize, name: &String, value: EnvironmentValue) -> (ok: bool)
        requires
            old(self).wf(),
            scope < old(self)@.len(),
            val_wf(value@, old(self)@.len() as int),
        ensures
            final(self).wf(),
            final(self)@.len() == old(self)@.len(),
            if ok {
                assign_in(old(self)@, scope as int, name@, value@) == Option::Some(final(self)@)
            } else {
                assign_in(old(self)@, scope as int, name@, value@) == Option::<Seq<SpecScope>>::None
                    && final(self)@ == old(self)@
            },
    {
        let ghost old_env = self@;
        match self.resolve(scope, name) {
            Option::Some(j) => {
                proof {
                    lemma_resolve_some(old_env, scope as int, name@);
                }
                self.define(j, name, value);
                proof {
                    assert(assign_in(old_env, scope as int, name@, value@) =~= Option::Some(
                        self@,
                    ));
                }
                true
            },
            Option::None => false,
        }
    }
}

} // verus!
