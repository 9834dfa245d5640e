//! Scopes: what each name is bound to, and where to look next.
//!
//! All scopes live in one arena and are known by their index in it. A
//! scope names the scope that encloses it; a function value names the
//! scope it was defined in. Scopes are never removed, so an index stays
//! good for as long as any closure may hold it.

use vstd::prelude::*;
use crate::error::{Error, ErrorView};
use crate::object::{view_object, Object, ObjectView};

verus! {

/// One name of a scope: its value, and whether it is constant.
pub struct Binding {
    pub name: String,
    pub value: Object,
    pub is_const: bool,
}

/// The map that a list of bindings stands for; where a name occurs more
/// than once, the last occurrence counts.
pub open spec fn bound(s: Seq<Binding>) -> Map<Seq<char>, (ObjectView, bool)>
    decreases s.len(),
{
    if s.len() == 0 {
        Map::empty()
    } else {
        bound(s.drop_last()).insert(s.last().name@, (s.last().value@, s.last().is_const))
    }
}

/// No binding of `s` behind index `i` has the name `name`.
pub open spec fn last_at(s: Seq<Binding>, i: int, name: Seq<char>) -> bool {
    forall|j: int| i < j < s.len() ==> (#[trigger] s[j]).name@ != name
}

proof fn lemma_absent(s: Seq<Binding>, name: Seq<char>)
    requires
        last_at(s, -1, name),
    ensures
        !bound(s).contains_key(name),
    decreases s.len(),
{
    if s.len() > 0 {
        assert(s.last() == s[s.len() - 1]);
        assert forall|j: int| -1 < j < s.drop_last().len() implies (#[trigger] s.drop_last()[j]).name@
            != name by {
            assert(s.drop_last()[j] == s[j]);
        }
        lemma_absent(s.drop_last(), name);
    }
}

proof fn lemma_found(s: Seq<Binding>, i: int, name: Seq<char>)
    requires
        0 <= i < s.len(),
        s[i].name@ == name,
        last_at(s, i, name),
    ensures
        bound(s).contains_key(name),
        bound(s)[name] == (s[i].value@, s[i].is_const),
    decreases s.len(),
{
    if i < s.len() - 1 {
        assert(s.last() == s[s.len() - 1]);
        assert forall|j: int| i < j < s.drop_last().len() implies (#[trigger] s.drop_last()[j]).name@
            != name by {
            assert(s.drop_last()[j] == s[j]);
        }
        assert(s.drop_last()[i] == s[i]);
        lemma_found(s.drop_last(), i, name);
    }
}

proof fn lemma_replaced(s: Seq<Binding>, i: int, b: Binding)
    requires
        0 <= i < s.len(),
        s[i].name@ == b.name@,
        last_at(s, i, b.name@),
    ensures
        bound(s.update(i, b)) == bound(s).insert(b.name@, (b.value@, b.is_const)),
    decreases s.len(),
{
    let t = s.update(i, b);
    let entry = (b.value@, b.is_const);
    if i == s.len() - 1 {
        assert(t.drop_last() == s.drop_last());
        assert(t.last() == b);
        assert(bound(t) == bound(s.drop_last()).insert(b.name@, entry));
        assert(bound(s) == bound(s.drop_last()).insert(s.last().name@, (s.last().value@, s.last().is_const)));
        assert(bound(t) =~= bound(s).insert(b.name@, entry));
    } else {
        assert(s.last() == s[s.len() - 1]);
        assert(t.last() == s.last());
        assert(t.drop_last() == s.drop_last().update(i, b));
        assert forall|j: int| i < j < s.drop_last().len() implies (#[trigger] s.drop_last()[j]).name@
            != b.name@ by {
            assert(s.drop_last()[j] == s[j]);
        }
        assert(s.drop_last()[i] == s[i]);
        lemma_replaced(s.drop_last(), i, b);
        assert(s.last().name@ != b.name@);
        assert(bound(t) =~= bound(s).insert(b.name@, entry));
    }
}

/// The index of the last binding named `name`.
fn find(bindings: &Vec<Binding>, name: &String) -> (r: Option<usize>)
    ensures
        match r {
            Some(i) => i < bindings.len() && bindings@[i as int].name@ == name@ && last_at(
                bindings@,
                i as int,
                name@,
            ),
            None => last_at(bindings@, -1, name@),
        },
{
    let mut i: usize = bindings.len();
    while i > 0
        invariant
            i <= bindings.len(),
            last_at(bindings@, i - 1, name@),
        decreases i,
    {
        i -= 1;
        if bindings[i].name == *name {
            return Some(i);
        }
    }
    None
}

/// A scope: its bindings, and the scope that encloses it.
pub struct Scope {
    bindings: Vec<Binding>,
    enclosing: Option<usize>,
    captured: bool,
}

pub struct ScopeView {
    pub bindings: Map<Seq<char>, (ObjectView, bool)>,
    pub enclosing: Option<nat>,
    /// Whether a function was defined in this scope. Such a scope may be
    /// needed for as long as the function lives, so it is never given up.
    pub captured: bool,
}

impl View for Scope {
    type V = ScopeView;

    closed spec fn view(&self) -> ScopeView {
        ScopeView {
            bindings: bound(self.bindings@),
            enclosing: match self.enclosing {
                Some(p) => Some(p as nat),
                None => None,
            },
            captured: self.captured,
        }
    }
}

/// The scopes of a program, and the scope that is current.
pub struct Environment {
    scopes: Vec<Scope>,
    current: usize,
}

pub struct EnvironmentView {
    pub scopes: Seq<ScopeView>,
    pub current: nat,
}

impl View for Environment {
    type V = EnvironmentView;

    closed spec fn view(&self) -> EnvironmentView {
        EnvironmentView { scopes: self.scopes@.map_values(|s: Scope| s@), current: self.current as nat }
    }
}

pub open spec fn constant_without_value() -> ErrorView {
    ErrorView::Syntax("cannot declare a constant without a value"@)
}

pub open spec fn constant_reassigned() -> ErrorView {
    ErrorView::Syntax("cannot reassign a constant variable"@)
}

impl EnvironmentView {
    /// There is a current scope.
    pub open spec fn wf(self) -> bool {
        self.current < self.scopes.len()
    }

    /// The scope, searching outwards from `from`, that binds `name`. The
    /// search ends where a scope names no enclosing scope, or none that
    /// was made before it.
    pub open spec fn resolve(self, from: nat, name: Seq<char>) -> Option<nat>
        decreases from,
    {
        if from >= self.scopes.len() {
            None
        } else if self.scopes[from as int].bindings.contains_key(name) {
            Some(from)
        } else {
            match self.scopes[from as int].enclosing {
                Some(p) => if p < from {
                    self.resolve(p, name)
                } else {
                    None
                },
                None => None,
            }
        }
    }

    /// The environment with `name` bound in scope `scope`.
    pub open spec fn bind(self, scope: nat, name: Seq<char>, value: ObjectView, is_const: bool) -> EnvironmentView {
        EnvironmentView {
            scopes: self.scopes.update(
                scope as int,
                ScopeView {
                    bindings: self.scopes[scope as int].bindings.insert(name, (value, is_const)),
                    ..self.scopes[scope as int]
                },
            ),
            ..self
        }
    }

    /// Binds `name` in the current scope. A constant needs a value other
    /// than `nil`, and a constant of the current scope cannot be bound
    /// anew; on either error nothing changes.
    pub open spec fn define(self, name: Seq<char>, value: ObjectView, is_const: bool) -> (
        EnvironmentView,
        Result<(), ErrorView>,
    ) {
        let here = self.scopes[self.current as int].bindings;
        if is_const && value is Nil {
            (self, Err(constant_without_value()))
        } else if here.contains_key(name) && here[name].1 {
            (self, Err(constant_reassigned()))
        } else {
            (self.bind(self.current, name, value, is_const), Ok(()))
        }
    }

    /// The value of `name` in the nearest scope that binds it.
    pub open spec fn get(self, name: Seq<char>) -> Result<ObjectView, ErrorView> {
        match self.resolve(self.current, name) {
            Some(scope) => Ok(self.scopes[scope as int].bindings[name].0),
            None => Err(ErrorView::Name(name)),
        }
    }

    /// Gives `name` a new value in the nearest scope that binds it, and
    /// returns that value. A constant keeps its value.
    pub open spec fn assign(self, name: Seq<char>, value: ObjectView) -> (
        EnvironmentView,
        Result<ObjectView, ErrorView>,
    ) {
        match self.resolve(self.current, name) {
            Some(scope) => if self.scopes[scope as int].bindings[name].1 {
                (self, Err(constant_reassigned()))
            } else {
                (self.bind(scope, name, value, false), Ok(value))
            },
            None => (self, Err(ErrorView::Name(name))),
        }
    }

    /// A new, empty scope inside `enclosing`, made current.
    pub open spec fn push_scope(self, enclosing: nat) -> EnvironmentView {
        EnvironmentView {
            scopes: self.scopes.push(
                ScopeView { bindings: Map::empty(), enclosing: Some(enclosing), captured: false },
            ),
            current: self.scopes.len(),
        }
    }

    /// The environment with the current scope marked as captured.
    pub open spec fn capture(self) -> EnvironmentView {
        EnvironmentView {
            scopes: self.scopes.update(
                self.current as int,
                ScopeView { captured: true, ..self.scopes[self.current as int] },
            ),
            ..self
        }
    }

    /// Whether the current scope can be given up: it is the newest scope,
    /// it is not the global one, and no function was defined in it.
    pub open spec fn disposable(self) -> bool {
        &&& self.current + 1 == self.scopes.len()
        &&& self.current > 0
        &&& !self.scopes[self.current as int].captured
    }

    /// The environment after the current scope is left for `saved`: the
    /// scope that is left is given up if it can be, and `saved` is current
    /// if there is such a scope.
    pub open spec fn leave(self, saved: nat) -> EnvironmentView {
        if self.disposable() {
            EnvironmentView { scopes: self.scopes.drop_last(), current: 0 }.enter(saved)
        } else {
            self.enter(saved)
        }
    }

    /// The environment with `scope` current; unchanged if there is no
    /// such scope.
    pub open spec fn enter(self, scope: nat) -> EnvironmentView {
        if scope < self.scopes.len() {
            EnvironmentView { current: scope, ..self }
        } else {
            self
        }
    }
}

impl Environment {
    pub open spec fn wf(&self) -> bool {
        self@.wf()
    }

    /// One empty scope, the global one, which is current.
    pub fn new() -> (e: Self)
        ensures
            e.wf(),
            e@ == (EnvironmentView {
                scopes: seq![ScopeView { bindings: Map::empty(), enclosing: None, captured: false }],
                current: 0,
            }),
    {
        let mut scopes: Vec<Scope> = Vec::new();
        scopes.push(Scope { bindings: Vec::new(), enclosing: None, captured: false });
        let e = Self { scopes, current: 0 };
        assert(e@.scopes =~= seq![ScopeView { bindings: Map::empty(), enclosing: None, captured: false }]);
        e
    }

    /// The current scope.
    pub fn current(&self) -> (scope: usize)
        ensures
            scope == self@.current,
    {
        self.current
    }

    /// Makes a new, empty scope inside `enclosing` and enters it.
    pub fn push_scope(&mut self, enclosing: usize)
        ensures
            final(self).wf(),
            final(self)@ == old(self)@.push_scope(enclosing as nat),
    {
        let ghost before = self.scopes@;
        let index = self.scopes.len();
        let scope = Scope { bindings: Vec::new(), enclosing: Some(enclosing), captured: false };
        self.scopes.push(scope);
        self.current = index;
        assert(self@.scopes =~= old(self)@.scopes.push(
            ScopeView { bindings: Map::empty(), enclosing: Some(enclosing as nat), captured: false },
        ));
    }

    /// How many scopes there are.
    pub fn scope_count(&self) -> (n: usize)
        ensures
            n == self@.scopes.len(),
    {
        self.scopes.len()
    }

    /// Marks the current scope as captured: a function was defined in it.
    pub fn capture(&mut self)
        requires
            old(self).wf(),
        ensures
            final(self).wf(),
            final(self)@ == old(self)@.capture(),
    {
        self.scopes[self.current].captured = true;
        assert(self@.scopes =~= old(self)@.capture().scopes);
    }

    /// Leaves the current scope for `saved`.
    pub fn leave(&mut self, saved: usize)
        requires
            old(self).wf(),
        ensures
            final(self).wf(),
            final(self)@ == old(self)@.leave(saved as nat),
    {
        assert(self@.scopes.len() == self.scopes@.len());
        let top = self.scopes.len() - 1;
        if self.current == top && top > 0 && !self.scopes[top].captured {
            self.scopes.pop();
            self.current = 0;
            assert(self@.scopes =~= old(self)@.scopes.drop_last());
        }
        if saved < self.scopes.len() {
            self.current = saved;
        }
    }

    /// Makes `scope` current, if there is such a scope.
    pub fn enter(&mut self, scope: usize)
        requires
            old(self).wf(),
        ensures
            final(self).wf(),
            final(self)@ == old(self)@.enter(scope as nat),
    {
        if scope < self.scopes.len() {
            self.current = scope;
        }
    }

    /// Puts `binding` into scope `scope`, in the place of the binding at
    /// `place` if there is one.
    fn put(&mut self, scope: usize, place: Option<usize>, binding: Binding)
        requires
            scope < old(self).scopes.len(),
            match place {
                Some(k) => k < old(self).scopes@[scope as int].bindings.len() && old(
                    self,
                ).scopes@[scope as int].bindings@[k as int].name@ == binding.name@ && last_at(
                    old(self).scopes@[scope as int].bindings@,
                    k as int,
                    binding.name@,
                ),
                None => true,
            },
        ensures
            final(self)@ == old(self)@.bind(scope as nat, binding.name@, binding.value@, binding.is_const),
            final(self).current == old(self).current,
    {
        let ghost before = self.scopes@[scope as int].bindings@;
        match place {
            Some(k) => {
                proof {
                    lemma_replaced(before, k as int, binding);
                }
                self.scopes[scope].bindings.set(k, binding);
            },
            None => {
                assert(before.push(binding).drop_last() == before);
                self.scopes[scope].bindings.push(binding);
            },
        }
        assert(self@.scopes =~= old(self)@.bind(
            scope as nat,
            binding.name@,
            binding.value@,
            binding.is_const,
        ).scopes);
    }

    /// Binds `name` in the current scope, whatever it was bound to there.
    pub fn bind(&mut self, name: String, value: Object)
        requires
            old(self).wf(),
        ensures
            final(self).wf(),
            final(self)@ == old(self)@.bind(old(self)@.current, name@, value@, false),
    {
        let place = find(&self.scopes[self.current].bindings, &name);
        self.put(self.current, place, Binding { name, value, is_const: false });
    }

    /// Binds `name` in the current scope.
    pub fn define(&mut self, name: String, value: Object, is_const: bool) -> (r: Result<(), Error>)
        requires
            old(self).wf(),
        ensures
            final(self).wf(),
            final(self)@ == old(self)@.define(name@, value@, is_const).0,
            match r {
                Ok(_) => old(self)@.define(name@, value@, is_const).1 is Ok,
                Err(e) => old(self)@.define(name@, value@, is_const).1 == Err::<(), ErrorView>(e@),
            },
    {
        if is_const && value.is_nil() {
            return Err(Error::Syntax(String::from_str("cannot declare a constant without a value")));
        }
        let place = find(&self.scopes[self.current].bindings, &name);
        proof {
            let s = self.scopes@[self.current as int].bindings@;
            match place {
                Some(k) => lemma_found(s, k as int, name@),
                None => lemma_absent(s, name@),
            }
        }
        match place {
            Some(k) => {
                if self.scopes[self.current].bindings[k].is_const {
                    return Err(Error::Syntax(String::from_str("cannot reassign a constant variable")));
                }
            },
            None => {},
        }
        self.put(self.current, place, Binding { name, value, is_const });
        Ok(())
    }

    /// The scope that binds `name`, searching outwards from the current
    /// one, and the place of the binding in it.
    fn locate(&self, name: &String) -> (r: Option<(usize, usize)>)
        requires
            self.wf(),
        ensures
            match r {
                Some((scope, k)) => {
                    &&& self@.resolve(self@.current, name@) == Some(scope as nat)
                    &&& scope < self.scopes.len()
                    &&& k < self.scopes@[scope as int].bindings.len()
                    &&& self.scopes@[scope as int].bindings@[k as int].name@ == name@
                    &&& last_at(self.scopes@[scope as int].bindings@, k as int, name@)
                    &&& self@.scopes[scope as int].bindings[name@] == (
                        self.scopes@[scope as int].bindings@[k as int].value@,
                        self.scopes@[scope as int].bindings@[k as int].is_const,
                    )
                },
                None => self@.resolve(self@.current, name@) is None,
            },
    {
        let mut i = self.current;
        loop
            invariant
                i < self.scopes.len(),
                self@.resolve(i as nat, name@) == self@.resolve(self@.current, name@),
            decreases i,
        {
            let place = find(&self.scopes[i].bindings, name);
            proof {
                let s = self.scopes@[i as int].bindings@;
                match place {
                    Some(k) => lemma_found(s, k as int, name@),
                    None => lemma_absent(s, name@),
                }
            }
            match place {
                Some(k) => {
                    return Some((i, k));
                },
                None => {
                    match self.scopes[i].enclosing {
                        Some(p) => {
                            if p < i {
                                i = p;
                            } else {
                                return None;
                            }
                        },
                        None => {
                            return None;
                        },
                    }
                },
            }
        }
    }

    /// The value of `name` in the nearest scope that binds it.
    pub fn get(&self, name: &String) -> (r: Result<Object, Error>)
        requires
            self.wf(),
        ensures
            view_object(r) == self@.get(name@),
    {
        match self.locate(name) {
            Some((scope, k)) => Ok(self.scopes[scope].bindings[k].value.clone()),
            None => Err(Error::Name(name.clone())),
        }
    }

    /// Gives `name` a new value in the nearest scope that binds it.
    pub fn assign(&mut self, name: &String, value: Object) -> (r: Result<Object, Error>)
        requires
            old(self).wf(),
        ensures
            final(self).wf(),
            (final(self)@, view_object(r)) == old(self)@.assign(name@, value@),
    {
        match self.locate(name) {
            Some((scope, k)) => {
                if self.scopes[scope].bindings[k].is_const {
                    return Err(Error::Syntax(String::from_str("cannot reassign a constant variable")));
                }
                let result = value.clone();
                self.put(scope, Some(k), Binding { name: name.clone(), value, is_const: false });
                Ok(result)
            },
            None => Err(Error::Name(name.clone())),
        }
    }
}

/// A constant keeps its value: once a name is defined as a constant, an
/// assignment to it from the same scope fails and changes nothing, and so
/// does a second definition of it there.
pub proof fn constants_are_kept(
    env: EnvironmentView,
    name: Seq<char>,
    value: ObjectView,
    other: ObjectView,
    is_const: bool,
)
    requires
        env.wf(),
        env.define(name, value, true).1 is Ok,
    ensures
        ({
            let defined = env.define(name, value, true).0;
            &&& defined.get(name) == Ok::<ObjectView, ErrorView>(value)
            &&& defined.assign(name, other) == (defined, Err::<ObjectView, ErrorView>(constant_reassigned()))
            &&& other !is Nil ==> defined.define(name, other, is_const) == (
                defined,
                Err::<(), ErrorView>(constant_reassigned()),
            )
        }),
{
}

/// A constant needs a value: defining one as `nil` fails and binds
/// nothing.
pub proof fn constants_need_a_value(env: EnvironmentView, name: Seq<char>)
    ensures
        env.define(name, ObjectView::Nil, true) == (env, Err::<(), ErrorView>(constant_without_value())),
{
}

/// What a variable is assigned is what it then holds.
pub proof fn assigned_is_held(env: EnvironmentView, name: Seq<char>, value: ObjectView)
    requires
        env.wf(),
        env.assign(name, value).1 is Ok,
    ensures
        env.assign(name, value).0.get(name) == Ok::<ObjectView, ErrorView>(value),
        env.assign(name, value).1 == Ok::<ObjectView, ErrorView>(value),
{
    let scope = env.resolve(env.current, name).unwrap();
    let after = env.assign(name, value).0;
    resolve_is_kept(env, after, env.current, name, value, scope);
}

/// The search for `name` ends in the same scope after `name` was bound
/// anew in the scope `scope` in which the search from `at` ends.
proof fn resolve_is_kept(
    env: EnvironmentView,
    after: EnvironmentView,
    at: nat,
    name: Seq<char>,
    value: ObjectView,
    scope: nat,
)
    requires
        env.resolve(at, name) == Some(scope),
        after == env.bind(scope, name, value, false),
    ensures
        scope <= at < env.scopes.len(),
        after.resolve(at, name) == Some(scope),
    decreases at,
{
    if at < env.scopes.len() && !env.scopes[at as int].bindings.contains_key(name) {
        match env.scopes[at as int].enclosing {
            Some(p) => {
                if p < at {
                    resolve_is_kept(env, after, p, name, value, scope);
                }
            },
            None => {},
        }
    }
}

} // verus!
