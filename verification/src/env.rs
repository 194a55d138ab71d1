//! The environment: a stack of lexical scopes mapping variable names to
//! stack-frame offsets and declaration spans, plus a running stack-pointer
//! offset that falls by one machine word per declared variable and is
//! never restored on scope exit (the frame grows monotonically within a
//! function).

use vstd::prelude::*;
use crate::span::Span;

verus! {

/// How many bytes one declared variable occupies.
pub const WORD_IN_BYTES: isize = 8;

/// One declared variable: its name, its offset from the frame base, and
/// the span of its declaration.
pub struct Binding {
    pub name: String,
    pub offset: isize,
    pub span: Span,
}

/// The mathematical model of a binding.
pub struct BindingModel {
    pub name: Seq<char>,
    pub offset: int,
    pub span: Span,
}

impl DeepView for Binding {
    type V = BindingModel;

    open spec fn deep_view(&self) -> BindingModel {
        BindingModel { name: self.name@, offset: self.offset as int, span: self.span }
    }
}

/// The mathematical model of an environment: the stack-pointer offset and
/// the scope stack, outermost scope first.
pub struct EnvModel {
    pub sp: int,
    pub scopes: Seq<Seq<BindingModel>>,
}

/// The first binding named `name` in one scope.
pub open spec fn scope_lookup(s: Seq<BindingModel>, name: Seq<char>) -> Option<BindingModel>
    decreases s.len(),
{
    if s.len() == 0 {
        None
    } else if s[0].name == name {
        Some(s[0])
    } else {
        scope_lookup(s.drop_first(), name)
    }
}

/// Name lookup across the scope stack, innermost scope first: the nearest
/// declaration wins, so inner declarations shadow outer ones.
pub open spec fn env_lookup(scopes: Seq<Seq<BindingModel>>, name: Seq<char>) -> Option<
    BindingModel,
>
    decreases scopes.len(),
{
    if scopes.len() == 0 {
        None
    } else {
        match scope_lookup(scopes.last(), name) {
            Some(b) => Some(b),
            None => env_lookup(scopes.drop_last(), name),
        }
    }
}

/// The innermost-scope lookup.
pub open spec fn spec_get_current(scopes: Seq<Seq<BindingModel>>, name: Seq<char>) -> Option<
    BindingModel,
> {
    if scopes.len() == 0 {
        None
    } else {
        scope_lookup(scopes.last(), name)
    }
}

/// The stack-pointer offset after declaring one more variable: one word
/// lower, saturating at the lowest representable offset.
pub open spec fn spec_dec_sp(sp: int) -> int {
    if sp - 8 >= isize::MIN as int {
        sp - 8
    } else {
        isize::MIN as int
    }
}

/// The byte count a closed scope reports: one word per binding,
/// saturating at the largest representable offset.
pub open spec fn spec_scope_bytes(n: int) -> isize {
    if n * 8 <= isize::MAX as int {
        (n * 8) as isize
    } else {
        isize::MAX
    }
}

/// The scope stack of one compilation.
pub struct Environment {
    sp: isize,
    envs: Vec<Vec<Binding>>,
}

impl View for Environment {
    type V = EnvModel;

    closed spec fn view(&self) -> EnvModel {
        EnvModel { sp: self.sp as int, scopes: self.envs.deep_view() }
    }
}

/// Searches one scope, front to back, for a name.
fn lookup_in_scope(scope: &Vec<Binding>, key: &String) -> (r: Option<(isize, Span)>)
    ensures
        match scope_lookup(scope.deep_view(), key@) {
            Some(b) => r matches Some((o, s)) && o as int == b.offset && s == b.span,
            None => r is None,
        },
{
    let ghost sc = scope.deep_view();
    let mut j: usize = 0;
    proof {
        assert(sc.subrange(0, sc.len() as int) =~= sc);
    }
    while j < scope.len()
        invariant
            j <= scope.len(),
            sc == scope.deep_view(),
            sc.len() == scope.len(),
            scope_lookup(sc, key@) == scope_lookup(sc.subrange(j as int, sc.len() as int), key@),
        decreases scope.len() - j,
    {
        proof {
            assert(sc[j as int] == scope@[j as int].deep_view());
        }
        if scope[j].name == *key {
            proof {
                let rest = sc.subrange(j as int, sc.len() as int);
                assert(rest[0] == sc[j as int]);
                assert(scope_lookup(sc, key@) == Some(sc[j as int]));
            }
            return Some((scope[j].offset, scope[j].span));
        }
        j = j + 1;
        proof {
            let rest = sc.subrange(j - 1, sc.len() as int);
            assert(rest[0] == sc[j - 1]);
            assert(rest.drop_first() =~= sc.subrange(j as int, sc.len() as int));
        }
    }
    proof {
        assert(sc.subrange(sc.len() as int, sc.len() as int) =~= Seq::<BindingModel>::empty());
    }
    None
}

impl Environment {
    /// An empty environment: no scopes, stack-pointer offset zero.
    pub fn new() -> (env: Environment)
        ensures
            env@.sp == 0,
            env@.scopes == Seq::<Seq<BindingModel>>::empty(),
    {
        let env = Environment { sp: 0, envs: Vec::new() };
        proof {
            assert(env@.scopes =~= Seq::<Seq<BindingModel>>::empty());
        }
        env
    }

    /// The running stack-pointer offset.
    pub fn sp(&self) -> (r: isize)
        ensures
            r as int == self@.sp,
    {
        self.sp
    }

    /// Looks a name up across all open scopes, innermost first.
    pub fn get(&self, key: &String) -> (r: Option<(isize, Span)>)
        ensures
            match env_lookup(self@.scopes, key@) {
                Some(b) => r matches Some((o, s)) && o as int == b.offset && s == b.span,
                None => r is None,
            },
    {
        let ghost scopes = self@.scopes;
        let mut i: usize = self.envs.len();
        proof {
            assert(scopes.subrange(0, i as int) =~= scopes);
        }
        while i > 0
            invariant
                i <= self.envs.len(),
                scopes == self@.scopes,
                scopes.len() == self.envs.len(),
                env_lookup(scopes, key@) == env_lookup(scopes.subrange(0, i as int), key@),
            decreases i,
        {
            i = i - 1;
            proof {
                assert(scopes[i as int] == self.envs@[i as int].deep_view());
            }
            let found = lookup_in_scope(&self.envs[i], key);
            proof {
                let pre = scopes.subrange(0, i + 1);
                assert(pre.last() == scopes[i as int]);
                assert(pre.drop_last() =~= scopes.subrange(0, i as int));
            }
            if found.is_some() {
                return found;
            }
        }
        proof {
            assert(scopes.subrange(0, 0) =~= Seq::<Seq<BindingModel>>::empty());
        }
        None
    }

    /// Looks a name up in the innermost scope only.
    pub fn get_current(&self, key: &String) -> (r: Option<(isize, Span)>)
        ensures
            match spec_get_current(self@.scopes, key@) {
                Some(b) => r matches Some((o, s)) && o as int == b.offset && s == b.span,
                None => r is None,
            },
    {
        let n = self.envs.len();
        if n == 0 {
            return None;
        }
        proof {
            assert(self@.scopes.last() == self.envs@[n - 1].deep_view());
        }
        lookup_in_scope(&self.envs[n - 1], key)
    }

    /// Whether a name is bound in any open scope.
    pub fn contains(&self, key: &String) -> (r: bool)
        ensures
            r == (env_lookup(self@.scopes, key@) is Some),
    {
        self.get(key).is_some()
    }

    /// Declares a name: lowers the stack-pointer offset by one word, and,
    /// unless the name is already bound in the innermost scope (or no
    /// scope is open), records the binding there at the new offset.
    /// Shadowing a name bound only in an outer scope is permitted. The
    /// returned flag is always true; it carries no information.
    pub fn put(&mut self, key: &String, span: Span) -> (r: bool)
        ensures
            r == true,
            final(self)@.sp == spec_dec_sp(old(self)@.sp),
            ({
                let scopes = old(self)@.scopes;
                if scopes.len() > 0 && spec_get_current(scopes, key@) is None {
                    final(self)@.scopes == scopes.update(
                        scopes.len() - 1,
                        scopes.last().push(
                            BindingModel {
                                name: key@,
                                offset: spec_dec_sp(old(self)@.sp),
                                span,
                            },
                        ),
                    )
                } else {
                    final(self)@.scopes == scopes
                }
            }),
    {
        if self.sp >= isize::MIN + WORD_IN_BYTES {
            self.sp = self.sp - WORD_IN_BYTES;
        } else {
            self.sp = isize::MIN;
        }
        if self.envs.len() == 0 {
            return true;
        }
        if self.get_current(key).is_some() {
            return true;
        }
        let binding = Binding { name: key.clone(), offset: self.sp, span };
        let ghost bm = BindingModel { name: key@, offset: spec_dec_sp(old(self)@.sp), span };
        let mut scope = self.envs.pop().unwrap();
        let ghost sc = scope.deep_view();
        proof {
            assert(sc == old(self)@.scopes.last());
        }
        scope.push(binding);
        proof {
            assert(scope.deep_view() =~= sc.push(bm));
        }
        self.envs.push(scope);
        proof {
            let scopes = old(self)@.scopes;
            assert(self@.scopes =~= scopes.update(scopes.len() - 1, sc.push(bm)));
        }
        true
    }

    /// Opens a new, empty innermost scope.
    pub fn new_scope(&mut self)
        ensures
            final(self)@.sp == old(self)@.sp,
            final(self)@.scopes == old(self)@.scopes.push(Seq::<BindingModel>::empty()),
    {
        let fresh: Vec<Binding> = Vec::new();
        proof {
            assert(fresh.deep_view() =~= Seq::<BindingModel>::empty());
        }
        self.envs.push(fresh);
        proof {
            assert(self@.scopes =~= old(self)@.scopes.push(Seq::<BindingModel>::empty()));
        }
    }

    /// Closes the innermost scope, returning how many bytes its bindings
    /// occupied (saturating at the largest representable count). The
    /// stack-pointer offset is deliberately not restored: frame slots are
    /// never reclaimed within one function.
    pub fn end_scope(&mut self) -> (r: Option<isize>)
        ensures
            final(self)@.sp == old(self)@.sp,
            ({
                let scopes = old(self)@.scopes;
                if scopes.len() > 0 {
                    final(self)@.scopes == scopes.drop_last() && r == Some(
                        spec_scope_bytes(scopes.last().len() as int),
                    )
                } else {
                    final(self)@.scopes == scopes && r is None
                }
            }),
    {
        match self.envs.pop() {
            Some(scope) => {
                proof {
                    assert(self@.scopes =~= old(self)@.scopes.drop_last());
                    assert(scope.deep_view() == old(self)@.scopes.last());
                }
                let n = scope.len();
                if n <= (isize::MAX / WORD_IN_BYTES) as usize {
                    Some((n as isize) * WORD_IN_BYTES)
                } else {
                    Some(isize::MAX)
                }
            },
            None => {
                proof {
                    assert(self@.scopes =~= old(self)@.scopes);
                }
                None
            },
        }
    }
}

} // verus!
