use whisky_core::error::WhiskyError;
use whisky_core::script::{apply_double_cbor_encoding, apply_params_to_script};

const SINGLE_WRAPPED: &str = "584501000032323232323222533300432323253330073370e900018041baa0011324a2600c0022c60120026012002600600229309b2b118021baa0015734aae7555cf2ba157441";
const DOUBLE_WRAPPED: &str = "5847584501000032323232323222533300432323253330073370e900018041baa0011324a2600c0022c60120026012002600600229309b2b118021baa0015734aae7555cf2ba157441";

#[test]
fn test_apply_double_cbor_encoding() {
    let script = SINGLE_WRAPPED;
    assert_eq!(
        apply_double_cbor_encoding(script).unwrap(),
        DOUBLE_WRAPPED
    );
}

#[test]
fn test_apply_params_to_script() {
    let script = SINGLE_WRAPPED;
    let params = vec!["{\"bytes\":\"1234\"}".to_string()];
    assert_eq!(
        apply_params_to_script(params, script.to_string()).unwrap(),
        "584f584d010000332323232323222533300432323253330073370e900018041baa0011324a2600c0022c60120026012002600600229309b2b118021baa0015734aae7555cf2ba157449801034212340001"
    );
}

#[test]
fn normalize_is_idempotent_on_single_wrapped() {
    let once = apply_double_cbor_encoding(SINGLE_WRAPPED).unwrap();
    let twice = apply_double_cbor_encoding(&once).unwrap();
    assert_eq!(once, twice);
}

#[test]
fn normalize_keeps_double_wrapped_unchanged() {
    let out = apply_double_cbor_encoding(DOUBLE_WRAPPED).unwrap();
    assert_eq!(out, DOUBLE_WRAPPED);
}

#[test]
fn normalize_output_reparses_at_both_layers() {
    let out = apply_double_cbor_encoding(SINGLE_WRAPPED).unwrap();
    // The output must itself decode and parse as an envelope whose payload
    // parses as an envelope again, so normalizing it once more returns it
    // unchanged rather than adding a third layer.
    let again = apply_double_cbor_encoding(&out).unwrap();
    assert_eq!(again, out);
    assert!(out.starts_with("5847"));
}

#[test]
fn apply_params_order_matters() {
    let a = "{\"bytes\":\"1234\"}".to_string();
    let b = "{\"bytes\":\"5678\"}".to_string();
    let ab = apply_params_to_script(vec![a.clone(), b.clone()], SINGLE_WRAPPED.to_string())
        .unwrap();
    let ba = apply_params_to_script(vec![b, a], SINGLE_WRAPPED.to_string()).unwrap();
    assert_ne!(ab, ba);
}

#[test]
fn apply_params_empty_list_only_normalizes() {
    let applied = apply_params_to_script(vec![], SINGLE_WRAPPED.to_string()).unwrap();
    let normalized = apply_double_cbor_encoding(SINGLE_WRAPPED).unwrap();
    assert_eq!(applied, normalized);
    let applied = apply_params_to_script(vec![], DOUBLE_WRAPPED.to_string()).unwrap();
    assert_eq!(applied, DOUBLE_WRAPPED);
}

#[test]
fn malformed_hex_yields_decode_error() {
    let err = apply_double_cbor_encoding("zz").unwrap_err();
    assert!(matches!(err, WhiskyError::DecodeError(_)));
    let err = apply_double_cbor_encoding("123").unwrap_err();
    assert!(matches!(err, WhiskyError::DecodeError(_)));
    let err = apply_params_to_script(vec![], "zz".to_string()).unwrap_err();
    assert!(matches!(err, WhiskyError::DecodeError(_)));
    let err =
        apply_params_to_script(vec!["{\"bytes\":\"12\"}".to_string()], "123".to_string())
            .unwrap_err();
    assert!(matches!(err, WhiskyError::DecodeError(_)));
}

#[test]
fn non_envelope_bytes_yield_script_format_error() {
    // 0x00 is a CBOR unsigned integer, not a byte string, so the first
    // envelope layer cannot be parsed.
    let err = apply_double_cbor_encoding("00").unwrap_err();
    assert!(matches!(err, WhiskyError::ScriptFormatError(_)));
    let err = apply_params_to_script(vec![], "00".to_string()).unwrap_err();
    assert!(matches!(err, WhiskyError::ScriptFormatError(_)));
}

#[test]
fn malformed_datum_json_yields_schema_error() {
    let err = apply_params_to_script(
        vec!["this is not a datum".to_string()],
        SINGLE_WRAPPED.to_string(),
    )
    .unwrap_err();
    assert!(matches!(err, WhiskyError::SchemaError(_)));
}

#[test]
fn engine_rejection_yields_application_error() {
    // "41ff" is a valid one-layer envelope whose payload is no script, so
    // normalization succeeds but the evaluation engine fails to decode it.
    let err = apply_params_to_script(
        vec!["{\"bytes\":\"12\"}".to_string()],
        "41ff".to_string(),
    )
    .unwrap_err();
    assert!(matches!(err, WhiskyError::ApplicationError(_)));
}

#[test]
fn apply_params_accepts_a_long_argument_list() {
    // More than 23 arguments force the multi-byte CBOR array header.
    let params = vec!["{\"bytes\":\"00\"}".to_string(); 25];
    let out = apply_params_to_script(params, SINGLE_WRAPPED.to_string()).unwrap();
    let short = apply_params_to_script(
        vec!["{\"bytes\":\"00\"}".to_string()],
        SINGLE_WRAPPED.to_string(),
    )
    .unwrap();
    assert_ne!(out, short);
    assert!(out.len() > short.len());
}

#[test]
fn error_message_carries_detail() {
    let err = WhiskyError::DecodeError("bad input".to_string());
    assert_eq!(err.message(), "bad input");
}
