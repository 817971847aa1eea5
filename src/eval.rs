//! Call-by-value evaluation, beta application and the print native.
use vstd::prelude::*;
use vstd::string::*;
use crate::context::Context;
use crate::expr::{subst, Apply, Expr, Native};

verus! {

/// The kind of a value that cannot be applied.
#[derive(Debug, Clone, Copy, PartialEq, Eq, Structural)]
pub enum Kind {
    Nil,
    Variable,
    Application,
    Halt,
}

/// Why an evaluation ended without a value.
#[derive(Debug)]
pub enum Stop {
    /// A `Halt` was evaluated: the program ends successfully.
    Halted,
    /// A free variable had no global binding.
    Unbound(String),
    /// The callee of an application reduced to something that is neither a
    /// lambda nor a native.
    NotCallable(Kind),
    /// The evaluation nested deeper than the fuel it was given.
    OutOfFuel,
}

/// The process exit status a stop calls for: success only on `Halted`.
pub open spec fn exit_code(s: Stop) -> int {
    if s is Halted {
        0
    } else {
        1
    }
}

/// Whether `e` is already a value: it evaluates to itself.
pub open spec fn is_value(e: Expr) -> bool {
    e is Nil || e is Lambda || e is Builtin
}

impl Stop {
    /// The process exit status this outcome calls for: success only on `Halted`.
    pub fn exit_status(&self) -> (r: i32)
        ensures
            r == exit_code(*self),
    {
        match self {
            Stop::Halted => 0,
            _ => 1,
        }
    }
}

/// The text of a sequence of output lines.
pub open spec fn texts(v: Seq<String>) -> Seq<Seq<char>> {
    v.map_values(|s: String| s@)
}

/// The line the print native writes for `e`, if any.
pub open spec fn description(e: Expr, ctx: Context) -> Option<Seq<char>> {
    match e {
        Expr::Nil => Some("nil"@),
        Expr::Lambda(l) => match l.name {
            Some(v) => if ctx.display_map().contains_key(v@) {
                Some(ctx.display_map()[v@]@)
            } else {
                Some("<lambda "@ + v@ + ">"@)
            },
            None => Some("<lambda>"@),
        },
        Expr::Builtin(_) => Some("<builtin>"@),
        _ => None,
    }
}

/// The lines a native writes when applied to `x`.
pub open spec fn native_output(n: Native, x: Expr, ctx: Context) -> Seq<Seq<char>> {
    match n {
        Native::Print => match description(x, ctx) {
            Some(line) => seq![line],
            None => Seq::empty(),
        },
    }
}

/// The value a native returns when applied to `x`.
pub open spec fn native_result(n: Native, x: Expr, ctx: Context) -> Expr {
    match n {
        Native::Print => Expr::Nil,
    }
}

/// The kind of a term that is neither a lambda nor a native.
pub open spec fn kind_of(e: Expr) -> Kind {
    match e {
        Expr::Var(_) => Kind::Variable,
        Expr::Apply(_) => Kind::Application,
        Expr::Halt => Kind::Halt,
        _ => Kind::Nil,
    }
}

/// One beta-apply step: the lines written and the outcome.
pub open spec fn apply_step(f: Expr, x: Expr, ctx: Context) -> (Seq<Seq<char>>, Result<Expr, Stop>) {
    match f {
        Expr::Lambda(l) => (Seq::empty(), Ok(subst(l.body, l.arg@, x))),
        Expr::Builtin(n) => (native_output(n, x, ctx), Ok(native_result(n, x, ctx))),
        _ => (Seq::empty(), Err(Stop::NotCallable(kind_of(f)))),
    }
}

/// Evaluation of `e` nested at most `fuel` deep: the lines written and the outcome.
///
/// A variable evaluates to what its global binding evaluates to. An
/// application evaluates its callee, then its argument, applies the one to
/// the other and evaluates the result. The first stop ends the evaluation.
pub open spec fn evaluate(e: Expr, ctx: Context, fuel: nat) -> (Seq<Seq<char>>, Result<Expr, Stop>)
    decreases fuel,
{
    if fuel == 0 {
        (Seq::empty(), Err(Stop::OutOfFuel))
    } else {
        let f = (fuel - 1) as nat;
        match e {
            Expr::Var(v) => if ctx.globals_map().contains_key(v@) {
                evaluate(ctx.globals_map()[v@], ctx, f)
            } else {
                (Seq::empty(), Err(Stop::Unbound(v)))
            },
            Expr::Apply(a) => {
                let (o1, r1) = evaluate(a.lambda, ctx, f);
                match r1 {
                    Err(s) => (o1, Err(s)),
                    Ok(callee) => {
                        let (o2, r2) = evaluate(a.arg, ctx, f);
                        match r2 {
                            Err(s) => (o1 + o2, Err(s)),
                            Ok(x) => {
                                let (o3, r3) = apply_step(callee, x, ctx);
                                match r3 {
                                    Err(s) => (o1 + o2 + o3, Err(s)),
                                    Ok(b) => {
                                        let (o4, r4) = evaluate(b, ctx, f);
                                        (o1 + o2 + o3 + o4, r4)
                                    },
                                }
                            },
                        }
                    },
                }
            },
            Expr::Halt => (Seq::empty(), Err(Stop::Halted)),
            _ => (Seq::empty(), Ok(e)),
        }
    }
}

/// The line the print native writes for `e`, if any.
pub fn describe(e: &Expr, ctx: &Context) -> (r: Option<String>)
    ensures
        r is Some == description(*e, *ctx) is Some,
        r is Some ==> r->Some_0@ == description(*e, *ctx)->Some_0,
{
    match e {
        Expr::Nil => Some(String::from_str("nil")),
        Expr::Lambda(l) => match &l.name {
            Some(v) => match ctx.display_of(v.as_str()) {
                Some(s) => Some(s.clone()),
                None => {
                    let mut line = String::from_str("<lambda ");
                    line.append(v.as_str());
                    line.append(">");
                    Some(line)
                },
            },
            None => Some(String::from_str("<lambda>")),
        },
        Expr::Builtin(_) => Some(String::from_str("<builtin>")),
        _ => None,
    }
}

impl Native {
    /// Runs this native on `arg`, appending what it writes to `out`.
    pub fn call(self, arg: Expr, ctx: &Context, out: &mut Vec<String>) -> (r: Expr)
        ensures
            texts(final(out)@) == texts(old(out)@) + native_output(self, arg, *ctx),
            r == native_result(self, arg, *ctx),
    {
        match self {
            Native::Print => {
                match describe(&arg, ctx) {
                    Some(line) => {
                        out.push(line);
                        assert(texts(out@) =~= texts(old(out)@) + native_output(self, arg, *ctx));
                    },
                    None => {
                        assert(texts(out@) =~= texts(old(out)@) + native_output(self, arg, *ctx));
                    },
                }
                Expr::Nil
            },
        }
    }
}

impl Expr {
    /// Applies this value to `arg`: a lambda binds its parameter by
    /// substitution, a native runs; anything else cannot be applied.
    pub fn apply(self, arg: Expr, ctx: &Context, out: &mut Vec<String>) -> (r: Result<Expr, Stop>)
        ensures
            texts(final(out)@) == texts(old(out)@) + apply_step(self, arg, *ctx).0,
            r == apply_step(self, arg, *ctx).1,
    {
        let ghost f = self;
        match self {
            Expr::Lambda(l) => {
                assert(texts(out@) =~= texts(old(out)@) + apply_step(f, arg, *ctx).0);
                Ok(l.apply(arg))
            },
            Expr::Builtin(n) => Ok(n.call(arg, ctx, out)),
            other => {
                assert(texts(out@) =~= texts(old(out)@) + apply_step(f, arg, *ctx).0);
                let kind = match other {
                    Expr::Var(_) => Kind::Variable,
                    Expr::Apply(_) => Kind::Application,
                    Expr::Halt => Kind::Halt,
                    _ => Kind::Nil,
                };
                Err(Stop::NotCallable(kind))
            },
        }
    }

    /// Reduces this term under `ctx`, nesting at most `fuel` deep, and appends
    /// the lines that natives write to `out`.
    pub fn eval(self, ctx: &Context, fuel: u64, out: &mut Vec<String>) -> (r: Result<Expr, Stop>)
        ensures
            texts(final(out)@) == texts(old(out)@) + evaluate(self, *ctx, fuel as nat).0,
            r == evaluate(self, *ctx, fuel as nat).1,
        decreases fuel,
    {
        let ghost e = self;
        let ghost start = texts(out@);
        if fuel == 0 {
            assert(texts(out@) =~= start + evaluate(e, *ctx, fuel as nat).0);
            return Err(Stop::OutOfFuel);
        }
        let f = fuel - 1;
        match self {
            Expr::Var(v) => match ctx.lookup(v.as_str()) {
                Some(bound) => bound.eval(ctx, f, out),
                None => {
                    assert(texts(out@) =~= start + evaluate(e, *ctx, fuel as nat).0);
                    Err(Stop::Unbound(v))
                },
            },
            Expr::Apply(a) => {
                let Apply { lambda, arg } = *a;
                let ghost o1 = evaluate(lambda, *ctx, f as nat).0;
                let callee = match lambda.eval(ctx, f, out) {
                    Ok(c) => c,
                    Err(s) => return Err(s),
                };
                let ghost o2 = evaluate(arg, *ctx, f as nat).0;
                let x = match arg.eval(ctx, f, out) {
                    Ok(x) => x,
                    Err(s) => {
                        assert(texts(out@) =~= start + (o1 + o2));
                        return Err(s);
                    },
                };
                let ghost o3 = apply_step(callee, x, *ctx).0;
                let body = match callee.apply(x, ctx, out) {
                    Ok(b) => b,
                    Err(s) => {
                        assert(texts(out@) =~= start + (o1 + o2 + o3));
                        return Err(s);
                    },
                };
                let ghost o4 = evaluate(body, *ctx, f as nat).0;
                let r = body.eval(ctx, f, out);
                assert(texts(out@) =~= start + (o1 + o2 + o3 + o4));
                r
            },
            Expr::Halt => {
                assert(texts(out@) =~= start + evaluate(e, *ctx, fuel as nat).0);
                Err(Stop::Halted)
            },
            other => {
                assert(texts(out@) =~= start + evaluate(e, *ctx, fuel as nat).0);
                Ok(other)
            },
        }
    }
}

} // verus!
