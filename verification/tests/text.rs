use any_ref_coercion::detector::{check, ExprShape, Span, TypedExpression};
use any_ref_coercion::render::type_text_string;
use any_ref_coercion::suggestion::{build_diagnostic, build_suggestion, Applicability};
use any_ref_coercion::types::{Capability, Type};

const ANY: u64 = 7;

fn dyn_any() -> Type {
    Type::Dynamic(vec![Capability { id: ANY, has_bound_vars: false }])
}

fn sp(lo: usize, hi: usize) -> Span {
    Span { lo, hi }
}

#[test]
fn renders_concrete_type() {
    assert_eq!(type_text_string(&Type::Concrete(12345)), "t12345");
}

#[test]
fn renders_zero_identifier() {
    assert_eq!(type_text_string(&Type::Concrete(0)), "t0");
}

#[test]
fn renders_dynamic_capability_set() {
    let t = Type::Dynamic(vec![
        Capability { id: 10, has_bound_vars: true },
        Capability { id: 2, has_bound_vars: false },
    ]);
    assert_eq!(type_text_string(&t), "dyn(10<_>+2)");
}

#[test]
fn renders_empty_capability_set() {
    let t = Type::Dynamic(vec![]);
    assert_eq!(type_text_string(&t), "dyn()");
}

#[test]
fn renders_nested_indirections() {
    let t = Type::Reference(Box::new(Type::Indirect(Box::new(dyn_any()))));
    assert_eq!(type_text_string(&t), "&ptr<dyn(7)>");
}

#[test]
fn suggestion_with_one_deref() {
    assert_eq!(build_suggestion(1, Some("x")), "&*x");
}

#[test]
fn suggestion_with_no_deref() {
    assert_eq!(build_suggestion(0, Some("value")), "&value");
}

#[test]
fn suggestion_falls_back_to_placeholder() {
    assert_eq!(build_suggestion(2, None), "&**x");
}

#[test]
fn diagnostic_for_scenario_a() {
    // `&x` where `x: ptr<dyn(7)>` is used where `&dyn(7)` is expected:
    // the suggested rewrite is `&*x`.
    let e = TypedExpression {
        declared_type: Type::Reference(Box::new(Type::Indirect(Box::new(dyn_any())))),
        adjusted_type: Type::Reference(Box::new(dyn_any())),
        shape: ExprShape::AddressOf(sp(1, 2)),
        span: sp(0, 2),
    };
    let f = check(&e, ANY).expect("the coercion should be detected");
    let d = build_diagnostic(&e, &f, Some("x"));
    assert_eq!(d.span, sp(0, 2));
    assert_eq!(
        d.message,
        "coercing `&ptr<dyn(7)>` to an any-capability reference rather than dereferencing to the any-capability object inside"
    );
    assert_eq!(d.help, "consider dereferencing");
    assert_eq!(d.suggestion, "&*x");
    assert_eq!(d.applicability, Applicability::MaybeIncorrect);
}

#[test]
fn diagnostic_without_source_text() {
    let e = TypedExpression {
        declared_type: Type::Reference(Box::new(Type::Indirect(Box::new(dyn_any())))),
        adjusted_type: Type::Reference(Box::new(dyn_any())),
        shape: ExprShape::Other,
        span: sp(4, 9),
    };
    let f = check(&e, ANY).expect("the coercion should be detected");
    let d = build_diagnostic(&e, &f, None);
    assert_eq!(d.span, sp(4, 9));
    assert_eq!(d.suggestion, "&**x");
    assert_eq!(d.applicability, Applicability::MaybeIncorrect);
}
