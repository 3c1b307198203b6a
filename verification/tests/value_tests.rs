use crud_table::error::{DbError, GetOneError};
use crud_table::value::{bind_step, bind_steps, BindStep, Val};

#[test]
fn signed_integers_bind_at_native_width() {
    assert_eq!(bind_step(&Val::I8(-3)), BindStep::I8(-3));
    assert_eq!(bind_step(&Val::I16(-300)), BindStep::I16(-300));
    assert_eq!(bind_step(&Val::I32(70_000)), BindStep::I32(70_000));
    assert_eq!(bind_step(&Val::I64(-5_000_000_000)), BindStep::I64(-5_000_000_000));
}

#[test]
fn unsigned_integers_widen_to_next_signed_width() {
    assert_eq!(bind_step(&Val::U8(200)), BindStep::I16(200));
    assert_eq!(bind_step(&Val::U16(65_535)), BindStep::I32(65_535));
    assert_eq!(bind_step(&Val::U32(4_000_000_000)), BindStep::I64(4_000_000_000));
}

#[test]
fn unsigned_64_bit_reinterprets_as_signed() {
    assert_eq!(bind_step(&Val::U64(5)), BindStep::I64(5));
    assert_eq!(bind_step(&Val::U64(u64::MAX)), BindStep::I64(-1));
    assert_eq!(
        bind_step(&Val::U64(9_223_372_036_854_775_808)),
        BindStep::I64(i64::MIN)
    );
}

#[test]
fn floats_carry_their_bit_patterns() {
    let f = 1.5f32;
    let d = -2.25f64;
    assert_eq!(bind_step(&Val::F32Bits(f.to_bits())), BindStep::F32Bits(f.to_bits()));
    assert_eq!(bind_step(&Val::F64Bits(d.to_bits())), BindStep::F64Bits(d.to_bits()));
    match bind_step(&Val::F32Bits(f.to_bits())) {
        BindStep::F32Bits(b) => assert_eq!(f32::from_bits(b), 1.5f32),
        other => panic!("unexpected bind step: {:?}", other),
    }
}

#[test]
fn text_and_bool_bind_directly() {
    assert_eq!(
        bind_step(&Val::Text("Ann".to_string())),
        BindStep::Text("Ann".to_string())
    );
    assert_eq!(bind_step(&Val::Bool(true)), BindStep::Bool(true));
}

#[test]
fn bind_steps_keeps_order_and_count() {
    let vals = vec![Val::U8(9), Val::Text("x".to_string()), Val::Bool(false)];
    let steps = bind_steps(&vals);
    assert_eq!(
        steps,
        vec![
            BindStep::I16(9),
            BindStep::Text("x".to_string()),
            BindStep::Bool(false),
        ]
    );
}

#[test]
fn failure_messages_are_fixed_per_operation_family() {
    assert_eq!(DbError::FetchFailure.message(), "failed to fetch data");
    assert_eq!(DbError::CreateFailure.message(), "failed to create record");
    assert_eq!(DbError::UpdateFailure.message(), "failed to update record");
    assert_eq!(DbError::DeleteFailure.message(), "failed to delete record");
}

#[test]
fn absence_stays_distinct_from_failure() {
    let missing = GetOneError::NotFound;
    let broken = GetOneError::Failed(DbError::FetchFailure);
    assert_ne!(missing, broken);
    match broken {
        GetOneError::Failed(kind) => assert_eq!(kind.message(), "failed to fetch data"),
        GetOneError::NotFound => panic!("expected a query failure"),
    }
}
