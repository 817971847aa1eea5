use lambda_eval::context::{builtins, Context};
use lambda_eval::eval::{describe, Kind, Stop};
use lambda_eval::expr::{Apply, Expr, Lambda, Native};

const FUEL: u64 = 1000;

fn var(name: &str) -> Expr {
    Expr::Var(name.to_string())
}

fn lam(label: Option<&str>, arg: &str, body: Expr) -> Expr {
    Expr::Lambda(Box::new(Lambda { name: label.map(|s| s.to_string()), arg: arg.to_string(), body }))
}

fn app(f: Expr, x: Expr) -> Expr {
    Expr::Apply(Box::new(Apply { lambda: f, arg: x }))
}

fn show(e: &Expr) -> String {
    format!("{:?}", e)
}

fn booleans() -> Context {
    let mut ctx = builtins();
    let t = lam(Some("true"), "x", lam(None, "y", var("x")));
    let f = lam(Some("false"), "x", lam(None, "y", var("y")));
    ctx.insert_global("true".to_string(), t);
    ctx.insert_global("false".to_string(), f);
    ctx.insert_display("true".to_string(), "true".to_string());
    ctx.insert_display("false".to_string(), "false".to_string());
    ctx
}

fn run(e: Expr, ctx: &Context, fuel: u64) -> (Vec<String>, Result<Expr, Stop>) {
    let mut out = Vec::new();
    let r = e.eval(ctx, fuel, &mut out);
    (out, r)
}

#[test]
fn true_false_false_reduces_to_false() {
    let ctx = booleans();
    let e = app(app(var("true"), var("false")), var("false"));
    let (out, r) = run(e, &ctx, FUEL);
    assert!(out.is_empty());
    let v = r.unwrap();
    assert_eq!(show(&v), show(&lam(Some("false"), "x", lam(None, "y", var("y")))));
}

#[test]
fn printing_true_false_false_prints_false() {
    let ctx = booleans();
    let e = app(var("?"), app(app(var("true"), var("false")), var("false")));
    let (out, r) = run(e, &ctx, FUEL);
    assert_eq!(out, vec!["false".to_string()]);
    assert!(matches!(r, Ok(Expr::Nil)));
}

#[test]
fn print_nil() {
    let ctx = builtins();
    let (out, r) = run(app(var("?"), Expr::Nil), &ctx, FUEL);
    assert_eq!(out, vec!["nil".to_string()]);
    assert!(matches!(r, Ok(Expr::Nil)));
}

#[test]
fn print_anonymous_identity() {
    let ctx = builtins();
    let (out, r) = run(app(var("?"), lam(None, "x", var("x"))), &ctx, FUEL);
    assert_eq!(out, vec!["<lambda>".to_string()]);
    assert!(matches!(r, Ok(Expr::Nil)));
}

#[test]
fn print_named_lambda_without_display() {
    let ctx = builtins();
    let (out, _) = run(app(var("?"), lam(Some("id"), "x", var("x"))), &ctx, FUEL);
    assert_eq!(out, vec!["<lambda id>".to_string()]);
}

#[test]
fn print_builtin_and_nothing_for_other_values() {
    let ctx = builtins();
    let (out, r) = run(app(var("?"), var("?")), &ctx, FUEL);
    assert_eq!(out, vec!["<builtin>".to_string()]);
    assert!(matches!(r, Ok(Expr::Nil)));
    assert_eq!(describe(&Expr::Halt, &ctx), None);
    assert_eq!(describe(&var("x"), &ctx), None);
    assert_eq!(describe(&app(Expr::Nil, Expr::Nil), &ctx), None);
}

#[test]
fn shadowing_leaves_lambda_untouched() {
    let mut e = lam(None, "x", var("x"));
    e.substitute("x", var("y"));
    assert_eq!(show(&e), show(&lam(None, "x", var("x"))));
}

#[test]
fn substitution_replaces_free_variable_under_other_binder() {
    let mut e = lam(None, "y", var("x"));
    e.substitute("x", Expr::Nil);
    assert_eq!(show(&e), show(&lam(None, "y", Expr::Nil)));
}

#[test]
fn substitution_skips_compound_callee() {
    let mut e = app(app(var("x"), var("x")), var("x"));
    e.substitute("x", Expr::Nil);
    assert_eq!(show(&e), show(&app(app(var("x"), var("x")), Expr::Nil)));
    let mut e = app(var("x"), var("z"));
    e.substitute("x", Expr::Nil);
    assert_eq!(show(&e), show(&app(Expr::Nil, var("z"))));
}

#[test]
fn substitution_can_capture() {
    let mut e = lam(None, "x", var("y"));
    e.substitute("y", var("x"));
    assert_eq!(show(&e), show(&lam(None, "x", var("x"))));
}

#[test]
fn substitution_leaves_leaves_alone() {
    for leaf in [Expr::Nil, Expr::Halt, Expr::Builtin(Native::Print)] {
        let mut e = leaf.duplicate();
        e.substitute("x", var("y"));
        assert_eq!(show(&e), show(&leaf));
    }
}

#[test]
fn lambda_apply_substitutes_parameter() {
    let l = Lambda { name: None, arg: "x".to_string(), body: app(var("f"), var("x")) };
    let r = l.apply(Expr::Nil);
    assert_eq!(show(&r), show(&app(var("f"), Expr::Nil)));
}

#[test]
fn beta_matches_substitute_then_eval() {
    let ctx = builtins();
    let body = app(var("?"), var("p"));
    let v = lam(Some("v"), "z", var("z"));
    let mut direct = body.duplicate();
    direct.substitute("p", v.duplicate());
    let (out1, r1) = run(direct, &ctx, FUEL);
    let (out2, r2) = run(app(lam(None, "p", body), v), &ctx, FUEL);
    assert_eq!(out1, vec!["<lambda v>".to_string()]);
    assert_eq!(out1, out2);
    assert_eq!(show(&r1.unwrap()), show(&r2.unwrap()));
}

#[test]
fn native_apply_returns_native_result() {
    let ctx = builtins();
    let mut out = Vec::new();
    let r = Expr::Builtin(Native::Print).apply(lam(None, "x", var("x")), &ctx, &mut out);
    assert!(matches!(r, Ok(Expr::Nil)));
    assert_eq!(out, vec!["<lambda>".to_string()]);
    let mut out = Vec::new();
    let r = Native::Print.call(Expr::Nil, &ctx, &mut out);
    assert!(matches!(r, Expr::Nil));
    assert_eq!(out, vec!["nil".to_string()]);
}

#[test]
fn halt_at_top_level() {
    let ctx = builtins();
    let (out, r) = run(Expr::Halt, &ctx, FUEL);
    assert!(out.is_empty());
    let s = r.unwrap_err();
    assert!(matches!(s, Stop::Halted));
    assert_eq!(s.exit_status(), 0);
}

#[test]
fn halt_through_variable_stops_before_print() {
    let ctx = builtins();
    let (out, r) = run(app(var("?"), var("halt")), &ctx, FUEL);
    assert!(out.is_empty());
    assert!(matches!(r, Err(Stop::Halted)));
}

#[test]
fn halt_after_output_writes_nothing_more() {
    let ctx = builtins();
    // ((λx.halt) (? nil)) then print: the print of the outer call never happens
    let inner = app(lam(None, "x", Expr::Halt), app(var("?"), Expr::Nil));
    let (out, r) = run(app(var("?"), inner), &ctx, FUEL);
    assert_eq!(out, vec!["nil".to_string()]);
    assert!(matches!(r, Err(Stop::Halted)));
}

#[test]
fn unbound_variable_aborts() {
    let ctx = builtins();
    let (out, r) = run(var("nowhere"), &ctx, FUEL);
    assert!(out.is_empty());
    match r {
        Err(s) => {
            assert_eq!(s.exit_status(), 1);
            match s {
                Stop::Unbound(name) => assert_eq!(name, "nowhere"),
                other => panic!("unexpected stop {:?}", other),
            }
        },
        Ok(v) => panic!("unexpected value {:?}", v),
    }
}

#[test]
fn applying_non_callable_aborts() {
    let ctx = builtins();
    let mut out = Vec::new();
    let r = Expr::Nil.apply(Expr::Nil, &ctx, &mut out);
    assert!(matches!(r, Err(Stop::NotCallable(Kind::Nil))));
    let r = Expr::Halt.apply(Expr::Nil, &ctx, &mut out);
    assert!(matches!(r, Err(Stop::NotCallable(Kind::Halt))));
    let r = var("x").apply(Expr::Nil, &ctx, &mut out);
    assert!(matches!(r, Err(Stop::NotCallable(Kind::Variable))));
    let r = app(Expr::Nil, Expr::Nil).apply(Expr::Nil, &ctx, &mut out);
    assert!(matches!(r, Err(Stop::NotCallable(Kind::Application))));
    assert!(out.is_empty());
    let (_, r) = run(app(Expr::Nil, Expr::Nil), &ctx, FUEL);
    let s = r.unwrap_err();
    assert!(matches!(s, Stop::NotCallable(Kind::Nil)));
    assert_eq!(s.exit_status(), 1);
}

#[test]
fn divergent_term_runs_out_of_fuel() {
    let ctx = builtins();
    let omega = lam(None, "x", app(var("x"), var("x")));
    let (_, r) = run(app(omega.duplicate(), omega), &ctx, 200);
    assert!(matches!(r, Err(Stop::OutOfFuel)));
    let (_, r) = run(Expr::Nil, &ctx, 0);
    assert!(matches!(r, Err(Stop::OutOfFuel)));
}

#[test]
fn values_evaluate_to_themselves() {
    let ctx = builtins();
    let (_, r) = run(Expr::Nil, &ctx, 1);
    assert!(matches!(r, Ok(Expr::Nil)));
    let l = lam(Some("k"), "a", var("b"));
    let (_, r) = run(l.duplicate(), &ctx, 1);
    assert_eq!(show(&r.unwrap()), show(&l));
}

#[test]
fn later_binding_overrides_earlier() {
    let mut ctx = Context::new();
    assert!(ctx.lookup("a").is_none());
    ctx.insert_global("a".to_string(), Expr::Nil);
    ctx.insert_global("b".to_string(), Expr::Halt);
    ctx.insert_global("a".to_string(), Expr::Builtin(Native::Print));
    assert!(matches!(ctx.lookup("a"), Some(Expr::Builtin(Native::Print))));
    assert!(matches!(ctx.lookup("b"), Some(Expr::Halt)));
    assert!(ctx.display_of("a").is_none());
    ctx.insert_display("a".to_string(), "first".to_string());
    ctx.insert_display("a".to_string(), "second".to_string());
    assert_eq!(ctx.display_of("a").map(|s| s.as_str()), Some("second"));
}

#[test]
fn builtins_bind_halt_and_print() {
    let ctx = builtins();
    assert!(matches!(ctx.lookup("halt"), Some(Expr::Halt)));
    assert!(matches!(ctx.lookup("?"), Some(Expr::Builtin(Native::Print))));
    assert!(ctx.lookup("true").is_none());
}
