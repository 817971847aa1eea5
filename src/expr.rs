//! Terms of the calculus and the substitution that binds a parameter.
use vstd::prelude::*;
use vstd::string::*;

verus! {

/// A function implemented by the host rather than by a term.
#[derive(Debug, Clone, Copy, PartialEq, Eq, Structural)]
pub enum Native {
    /// Writes a human-readable line describing its argument; returns `Nil`.
    Print,
}

/// A single-parameter abstraction. `name` is a cosmetic label used for display.
#[derive(Debug)]
pub struct Lambda {
    pub name: Option<String>,
    pub arg: String,
    pub body: Expr,
}

/// An application of `lambda` (the callee) to `arg`.
#[derive(Debug)]
pub struct Apply {
    pub lambda: Expr,
    pub arg: Expr,
}

#[derive(Debug)]
pub enum Expr {
    Nil,
    Var(String),
    Lambda(Box<Lambda>),
    Apply(Box<Apply>),
    Builtin(Native),
    Halt,
}

/// `e` with every free occurrence of `name` replaced by `r`.
///
/// A lambda binding `name` shadows it, so its body is left alone. In the callee
/// position of an application only a bare variable is replaced; a compound
/// callee is not descended into. Binders of `body` are never renamed, so a free
/// variable of `r` may be captured.
pub open spec fn subst(e: Expr, name: Seq<char>, r: Expr) -> Expr
    decreases e,
{
    match e {
        Expr::Var(s) => if s@ == name {
            r
        } else {
            e
        },
        Expr::Lambda(l) => if l.arg@ == name {
            e
        } else {
            Expr::Lambda(Box::new(Lambda { name: l.name, arg: l.arg, body: subst(l.body, name, r) }))
        },
        Expr::Apply(a) => Expr::Apply(
            Box::new(
                Apply {
                    lambda: if a.lambda is Var && a.lambda->Var_0@ == name {
                        r
                    } else {
                        a.lambda
                    },
                    arg: subst(a.arg, name, r),
                },
            ),
        ),
        _ => e,
    }
}

/// Compares two strings character by character.
pub(crate) fn same_text(a: &str, b: &str) -> (r: bool)
    ensures
        r == (a@ == b@),
{
    let n = a.unicode_len();
    if n != b.unicode_len() {
        return false;
    }
    let mut i: usize = 0;
    while i < n
        invariant
            n == a@.len(),
            n == b@.len(),
            i <= n,
            a@.subrange(0, i as int) == b@.subrange(0, i as int),
        decreases n - i,
    {
        if a.get_char(i) != b.get_char(i) {
            return false;
        }
        assert(a@.subrange(0, i + 1) == a@.subrange(0, i as int).push(a@[i as int]));
        assert(b@.subrange(0, i + 1) == b@.subrange(0, i as int).push(b@[i as int]));
        i = i + 1;
    }
    assert(a@ == a@.subrange(0, n as int));
    assert(b@ == b@.subrange(0, n as int));
    true
}

impl Lambda {
    /// Binds the parameter to `arg` throughout the body and returns the body.
    pub fn apply(self, arg: Expr) -> (r: Expr)
        ensures
            r == subst(self.body, self.arg@, arg),
    {
        let Lambda { name: _, arg: param, body } = self;
        body.substituted(param.as_str(), arg)
    }
}

impl Expr {
    /// A copy of this term that owns all of its parts.
    pub fn duplicate(&self) -> (r: Expr)
        ensures
            r == *self,
        decreases self,
    {
        match self {
            Expr::Nil => Expr::Nil,
            Expr::Var(s) => Expr::Var(s.clone()),
            Expr::Lambda(l) => {
                let name = match &l.name {
                    Some(n) => Some(n.clone()),
                    None => None,
                };
                Expr::Lambda(Box::new(Lambda { name, arg: l.arg.clone(), body: l.body.duplicate() }))
            },
            Expr::Apply(a) => Expr::Apply(
                Box::new(Apply { lambda: a.lambda.duplicate(), arg: a.arg.duplicate() }),
            ),
            Expr::Builtin(n) => Expr::Builtin(*n),
            Expr::Halt => Expr::Halt,
        }
    }

    /// Whether this term is the variable `name`.
    fn is_var_named(&self, name: &str) -> (r: bool)
        ensures
            r == (self is Var && self->Var_0@ == name@),
    {
        match self {
            Expr::Var(s) => same_text(s.as_str(), name),
            _ => false,
        }
    }

    /// Consumes this term and returns it with `name` replaced by `expr`.
    fn substituted(self, name: &str, expr: Expr) -> (r: Expr)
        ensures
            r == subst(self, name@, expr),
        decreases self,
    {
        if self.is_var_named(name) {
            return expr;
        }
        match self {
            Expr::Lambda(l) => {
                if same_text(l.arg.as_str(), name) {
                    Expr::Lambda(l)
                } else {
                    let Lambda { name: label, arg, body } = *l;
                    let body = body.substituted(name, expr);
                    Expr::Lambda(Box::new(Lambda { name: label, arg, body }))
                }
            },
            Expr::Apply(a) => {
                let Apply { lambda, arg } = *a;
                let lambda = if lambda.is_var_named(name) {
                    expr.duplicate()
                } else {
                    lambda
                };
                let arg = arg.substituted(name, expr);
                Expr::Apply(Box::new(Apply { lambda, arg }))
            },
            other => other,
        }
    }

    /// Replaces every free occurrence of `name` in this term with `expr`.
    pub fn substitute(&mut self, name: &str, expr: Expr)
        ensures
            *final(self) == subst(*old(self), name@, expr),
    {
        let mut taken = Expr::Nil;
        std::mem::swap(self, &mut taken);
        *self = taken.substituted(name, expr);
    }
}

} // verus!
