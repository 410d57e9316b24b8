use tensor_bridge::value::to_host;
use tensor_bridge::value::HostValue;
use tensor_bridge::value::MetaValue;

#[test]
fn unsigned_scalars_widen_without_truncation() {
    assert_eq!(to_host(&MetaValue::U8(255)), HostValue::UInt(255));
    assert_eq!(to_host(&MetaValue::U16(65535)), HostValue::UInt(65535));
    assert_eq!(to_host(&MetaValue::U32(4000000000)), HostValue::UInt(4000000000));
    assert_eq!(to_host(&MetaValue::U64(u64::MAX)), HostValue::UInt(u64::MAX));
}

#[test]
fn signed_scalars_widen_without_truncation() {
    assert_eq!(to_host(&MetaValue::I8(-128)), HostValue::Int(-128));
    assert_eq!(to_host(&MetaValue::I16(-32768)), HostValue::Int(-32768));
    assert_eq!(to_host(&MetaValue::I32(i32::MIN)), HostValue::Int(i32::MIN as i64));
    assert_eq!(to_host(&MetaValue::I64(i64::MIN)), HostValue::Int(i64::MIN));
    assert_eq!(to_host(&MetaValue::I64(i64::MAX)), HostValue::Int(i64::MAX));
}

#[test]
fn floats_booleans_and_text_pass_through() {
    let f32_bits = 3.5f32.to_bits();
    let f64_bits = (-2.25f64).to_bits();
    assert_eq!(to_host(&MetaValue::F32Bits(f32_bits)), HostValue::F32Bits(f32_bits));
    assert_eq!(to_host(&MetaValue::F64Bits(f64_bits)), HostValue::F64Bits(f64_bits));
    assert_eq!(to_host(&MetaValue::Bool(true)), HostValue::Bool(true));
    assert_eq!(
        to_host(&MetaValue::Text(String::from("llama"))),
        HostValue::Text(String::from("llama"))
    );
}

#[test]
fn flat_array_preserves_order_and_kind_positionally() {
    let v = MetaValue::Array(vec![
        MetaValue::U8(1),
        MetaValue::F32Bits(1.0f32.to_bits()),
        MetaValue::Bool(false),
        MetaValue::I64(-7),
    ]);
    assert_eq!(
        to_host(&v),
        HostValue::List(vec![
            HostValue::UInt(1),
            HostValue::F32Bits(1.0f32.to_bits()),
            HostValue::Bool(false),
            HostValue::Int(-7),
        ])
    );
}

#[test]
fn three_level_nesting_of_mixed_leaves_is_preserved_everywhere() {
    let v = MetaValue::Array(vec![
        MetaValue::Array(vec![
            MetaValue::Array(vec![
                MetaValue::U32(9),
                MetaValue::F64Bits(0.5f64.to_bits()),
            ]),
            MetaValue::Bool(true),
        ]),
        MetaValue::Array(vec![
            MetaValue::I16(-3),
            MetaValue::Array(vec![MetaValue::Text(String::from("deep"))]),
        ]),
        MetaValue::F32Bits(9.75f32.to_bits()),
    ]);
    let expected = HostValue::List(vec![
        HostValue::List(vec![
            HostValue::List(vec![
                HostValue::UInt(9),
                HostValue::F64Bits(0.5f64.to_bits()),
            ]),
            HostValue::Bool(true),
        ]),
        HostValue::List(vec![
            HostValue::Int(-3),
            HostValue::List(vec![HostValue::Text(String::from("deep"))]),
        ]),
        HostValue::F32Bits(9.75f32.to_bits()),
    ]);
    assert_eq!(to_host(&v), expected);
}

#[test]
fn empty_array_converts_to_empty_list() {
    assert_eq!(to_host(&MetaValue::Array(vec![])), HostValue::List(vec![]));
}
