use gouda::ast::{AssignOp, BinaryOp, LogicalOp, UnaryOp, VarScope};
use gouda::effect::{InvalidPayload, Text};
use gouda::error::{Diagnostic, RuntimeError};

#[test]
fn diagnostic_keeps_message_and_span() {
    let d = Diagnostic::new("unexpected token".to_string(), 3..7);
    assert_eq!(d.message, "unexpected token");
    assert_eq!(d.span, 3..7);
    let c = d.clone();
    assert_eq!(c.message, "unexpected token");
    assert_eq!(c.span, 3..7);
}

#[test]
fn invalid_payload_becomes_invalid_effect() {
    let err = Text::parse("a\nb".to_string()).unwrap_err();
    let rt: RuntimeError = err.into();
    match rt {
        RuntimeError::InvalidEffect(p) => assert_eq!(p, InvalidPayload::ProtocolChar),
        other => panic!("unexpected {:?}", other),
    }
    let rt = RuntimeError::from(InvalidPayload::ForbiddenChar(','));
    assert!(matches!(rt, RuntimeError::InvalidEffect(InvalidPayload::ForbiddenChar(','))));
}

#[test]
fn runtime_error_variants_carry_their_data() {
    let e = RuntimeError::Arity { name: "f".to_string(), expected: 2, got: 3 };
    match e.clone() {
        RuntimeError::Arity { name, expected, got } => {
            assert_eq!(name, "f");
            assert_eq!(expected, 2);
            assert_eq!(got, 3);
        }
        _ => unreachable!(),
    }
    let t = RuntimeError::Type { expected: "int", found: "string" };
    assert!(matches!(t, RuntimeError::Type { expected: "int", found: "string" }));
}

#[test]
fn ast_tags_compare_by_variant() {
    assert_eq!(VarScope::Local, VarScope::Local);
    assert_ne!(VarScope::Local, VarScope::Global);
    assert_ne!(AssignOp::Replace, AssignOp::Add);
    assert_eq!(BinaryOp::Concat, BinaryOp::Concat);
    assert_ne!(UnaryOp::Neg, UnaryOp::Not);
    assert_ne!(LogicalOp::And, LogicalOp::Or);
}
