use drift_analyzer::precision::precision_named;
use drift_analyzer::{parse_precision, Precision};

#[test]
fn precision_bytes_correct() {
    assert_eq!(Precision::F16.bytes(), 2);
    assert_eq!(Precision::Bf16.bytes(), 2);
    assert_eq!(Precision::F32.bytes(), 4);
    assert_eq!(Precision::F64.bytes(), 4);
    assert_eq!(Precision::Int8.bytes(), 4);
}

#[test]
fn integer_precisions_take_four_bytes() {
    assert_eq!(Precision::Int16.bytes(), 4);
    assert_eq!(Precision::Int32.bytes(), 4);
}

#[test]
fn all_lists_every_precision_in_order() {
    assert_eq!(
        Precision::all(),
        &[
            Precision::F16,
            Precision::Bf16,
            Precision::F32,
            Precision::F64,
            Precision::Int8,
            Precision::Int16,
            Precision::Int32,
        ]
    );
}

#[test]
fn float_only_is_the_float_prefix() {
    assert_eq!(
        Precision::float_only(),
        &[Precision::F16, Precision::Bf16, Precision::F32, Precision::F64]
    );
    assert_eq!(Precision::float_only(), &Precision::all()[..4]);
}

#[test]
fn labels() {
    let labels: Vec<&str> = Precision::all().iter().map(|p| p.label()).collect();
    assert_eq!(labels, vec!["FP16", "BF16", "FP32", "FP64", "INT8", "INT16", "INT32"]);
    assert_eq!(Precision::Int16.to_string(), "INT16");
}

#[test]
fn parse_precision_accepts_aliases_in_any_case() {
    assert_eq!(parse_precision("f16"), Some(Precision::F16));
    assert_eq!(parse_precision("Half"), Some(Precision::F16));
    assert_eq!(parse_precision("BFLOAT16"), Some(Precision::Bf16));
    assert_eq!(parse_precision("FP32"), Some(Precision::F32));
    assert_eq!(parse_precision("Single"), Some(Precision::F32));
    assert_eq!(parse_precision("double"), Some(Precision::F64));
    assert_eq!(parse_precision("I8"), Some(Precision::Int8));
    assert_eq!(parse_precision("int16"), Some(Precision::Int16));
    assert_eq!(parse_precision("INT32"), Some(Precision::Int32));
}

#[test]
fn parse_precision_rejects_unknown_names() {
    assert_eq!(parse_precision("f8"), None);
    assert_eq!(parse_precision(""), None);
    assert_eq!(parse_precision(" f32"), None);
    assert_eq!(parse_precision("int64"), None);
}

#[test]
fn every_label_parses_back() {
    for p in Precision::all() {
        assert_eq!(parse_precision(p.label()), Some(*p));
        assert_eq!(precision_named(&p.label().to_ascii_lowercase()), Some(*p));
    }
}

#[test]
fn precision_named_is_case_sensitive() {
    assert_eq!(precision_named("fp32"), Some(Precision::F32));
    assert_eq!(precision_named("FP32"), None);
    assert_eq!(precision_named("bf16"), Some(Precision::Bf16));
}
