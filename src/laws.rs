//! General properties of substitution, application and evaluation.
use vstd::prelude::*;
use crate::context::Context;
use crate::eval::{
    apply_step, evaluate, exit_code, is_value, kind_of, native_output, native_result, Stop,
};
use crate::expr::{subst, Apply, Expr, Lambda, Native};

verus! {

/// The application of `f` to `x` as a term.
pub open spec fn app(f: Expr, x: Expr) -> Expr {
    Expr::Apply(Box::new(Apply { lambda: f, arg: x }))
}

/// Applying a lambda to a value and evaluating, one level deeper, is the same
/// as evaluating the lambda's body with its parameter replaced by that value:
/// the same lines are written and the same outcome is reached.
pub proof fn lemma_beta_value(
    label: Option<String>,
    p: String,
    body: Expr,
    v: Expr,
    ctx: Context,
    fuel: nat,
)
    requires
        is_value(v),
    ensures
        evaluate(
            app(Expr::Lambda(Box::new(Lambda { name: label, arg: p, body })), v),
            ctx,
            fuel + 1,
        ) == evaluate(subst(body, p@, v), ctx, fuel),
{
    let lam = Expr::Lambda(Box::new(Lambda { name: label, arg: p, body }));
    let rhs = evaluate(subst(body, p@, v), ctx, fuel);
    assert(((fuel + 1) - 1) as nat == fuel);
    if fuel == 0 {
        assert(evaluate(lam, ctx, fuel) == (Seq::<Seq<char>>::empty(), Err::<Expr, Stop>(Stop::OutOfFuel)));
    } else {
        assert(apply_step(lam, v, ctx) == (Seq::<Seq<char>>::empty(), Ok::<Expr, Stop>(subst(body, p@, v))));
        assert(evaluate(lam, ctx, fuel) == (Seq::<Seq<char>>::empty(), Ok::<Expr, Stop>(lam)));
        assert(evaluate(v, ctx, fuel) == (Seq::<Seq<char>>::empty(), Ok::<Expr, Stop>(v)));
        assert(Seq::<Seq<char>>::empty() + Seq::empty() + Seq::empty() + rhs.0 =~= rhs.0);
    }
}

/// Applying a native runs it and nothing else: the lines written and the
/// value returned are exactly the native's own. The print native returns `Nil`.
pub proof fn lemma_native_apply(n: Native, x: Expr, ctx: Context)
    ensures
        apply_step(Expr::Builtin(n), x, ctx) == (
            native_output(n, x, ctx),
            Ok::<Expr, Stop>(native_result(n, x, ctx)),
        ),
        native_result(Native::Print, x, ctx) == Expr::Nil,
{
}

/// Evaluating `Halt` stops at once with success status and writes nothing.
pub proof fn lemma_halt(ctx: Context, fuel: nat)
    requires
        fuel > 0,
    ensures
        evaluate(Expr::Halt, ctx, fuel) == (Seq::<Seq<char>>::empty(), Err::<Expr, Stop>(Stop::Halted)),
        exit_code(Stop::Halted) == 0,
{
}

/// A `Halt` reached anywhere inside an application, in its callee, in its
/// argument or in the applied result, halts the whole evaluation, and nothing
/// is written after it.
pub proof fn lemma_halt_nested(f: Expr, x: Expr, ctx: Context, fuel: nat)
    ensures
        evaluate(f, ctx, fuel).1 == Err::<Expr, Stop>(Stop::Halted) ==> evaluate(app(f, x), ctx, fuel + 1)
            == evaluate(f, ctx, fuel),
        ({
            let (o1, r1) = evaluate(f, ctx, fuel);
            let (o2, r2) = evaluate(x, ctx, fuel);
            r1 is Ok && r2 == Err::<Expr, Stop>(Stop::Halted) ==> evaluate(app(f, x), ctx, fuel + 1) == (
                o1 + o2,
                r2,
            )
        }),
        ({
            let (o1, r1) = evaluate(f, ctx, fuel);
            let (o2, r2) = evaluate(x, ctx, fuel);
            let (o3, r3) = apply_step(r1->Ok_0, r2->Ok_0, ctx);
            let (o4, r4) = evaluate(r3->Ok_0, ctx, fuel);
            r1 is Ok && r2 is Ok && r3 is Ok && r4 == Err::<Expr, Stop>(Stop::Halted) ==> evaluate(
                app(f, x),
                ctx,
                fuel + 1,
            ) == (o1 + o2 + o3 + o4, r4)
        }),
{
}

/// Evaluating a variable with no global binding stops with the unbound
/// condition naming it, and writes nothing.
pub proof fn lemma_unbound(v: String, ctx: Context, fuel: nat)
    requires
        fuel > 0,
        !ctx.globals_map().contains_key(v@),
    ensures
        evaluate(Expr::Var(v), ctx, fuel) == (Seq::<Seq<char>>::empty(), Err::<Expr, Stop>(Stop::Unbound(v))),
{
}

/// Applying anything but a lambda or a native stops with the non-callable
/// condition naming its kind, also where the callee of an application
/// evaluates to such a value.
pub proof fn lemma_not_callable(f: Expr, x: Expr, ctx: Context)
    requires
        !(f is Lambda || f is Builtin),
    ensures
        apply_step(f, x, ctx) == (
            Seq::<Seq<char>>::empty(),
            Err::<Expr, Stop>(Stop::NotCallable(kind_of(f))),
        ),
{
}

/// In an application whose callee and argument evaluate to values, a callee
/// value that is neither a lambda nor a native stops the evaluation with the
/// non-callable condition.
pub proof fn lemma_not_callable_in_app(f: Expr, x: Expr, ctx: Context, fuel: nat)
    ensures
        ({
            let (o1, r1) = evaluate(f, ctx, fuel);
            let (o2, r2) = evaluate(x, ctx, fuel);
            r1 is Ok && !(r1->Ok_0 is Lambda || r1->Ok_0 is Builtin) && r2 is Ok ==> evaluate(
                app(f, x),
                ctx,
                fuel + 1,
            ) == (o1 + o2 + Seq::empty(), Err::<Expr, Stop>(Stop::NotCallable(kind_of(r1->Ok_0))))
        }),
{
}

} // verus!
