use vstd::prelude::*;

use crate::cbor::{array_header, concat_bytes, cbor_array_header, lemma_concat_bytes_push,
    wrap_script};
use crate::error::WhiskyError;
use crate::hex::{bytes_to_hex, hex_decode, hex_encode, hex_to_bytes, lemma_hex_decode_encode};

verus! {

/// What `PlutusScript::from_bytes` recovers from the given bytes: the
/// payload of the leading CBOR byte-string envelope, or `None` when the
/// bytes do not parse as such an envelope.
pub uninterp spec fn envelope_payload(b: Seq<u8>) -> Option<Seq<u8>>;

/// What `PlutusData::from_json` makes of a JSON text under the detailed
/// schema, given as the CBOR encoding of the resulting data term, or `None`
/// when the text does not follow the schema.
pub uninterp spec fn datum_cbor_of_json(s: Seq<char>) -> Option<Seq<u8>>;

/// What the evaluation engine returns for a CBOR array of data terms and a
/// script: the specialized script obtained by applying the terms in order,
/// or `None` when decoding or application fails.
pub uninterp spec fn applied_script(params_cbor: Seq<u8>, script: Seq<u8>) -> Option<Seq<u8>>;

/// Relies on `cardano_serialization_lib::plutus::PlutusScript::from_bytes`,
/// which reads one CBOR byte-string envelope, and on `bytes`, which hands
/// out the payload it recovered.
#[verifier::external_body]
fn envelope_unwrap(b: &Vec<u8>) -> (r: Result<Vec<u8>, String>)
    ensures
        r is Ok <==> envelope_payload(b@) is Some,
        r matches Ok(p) ==> envelope_payload(b@) == Some(p@),
{
    match cardano_serialization_lib::plutus::PlutusScript::from_bytes(b.clone()) {
        Ok(script) => Ok(script.bytes()),
        Err(err) => Err(err.to_string()),
    }
}

/// Relies on `cardano_serialization_lib::plutus::PlutusScript::new` and
/// `to_bytes`, which serialize raw bytes as one definite-length CBOR
/// byte-string envelope with a minimal header; `from_bytes` recovers the
/// payload of exactly such an envelope, so the round trip is owed.
#[verifier::external_body]
fn envelope_wrap(b: &Vec<u8>) -> (r: Vec<u8>)
    ensures
        r@ == wrap_script(b@),
        envelope_payload(r@) == Some(b@),
{
    cardano_serialization_lib::plutus::PlutusScript::new(b.clone()).to_bytes()
}

/// Relies on `cardano_serialization_lib::plutus::PlutusData::from_json`
/// under `PlutusDatumSchema::DetailedSchema`, and on `to_bytes`, which
/// hands the parsed data term out as its CBOR encoding.
#[verifier::external_body]
fn datum_from_json(s: &str) -> (r: Result<Vec<u8>, String>)
    ensures
        r is Ok <==> datum_cbor_of_json(s@) is Some,
        r matches Ok(d) ==> datum_cbor_of_json(s@) == Some(d@),
{
    let schema = cardano_serialization_lib::plutus::PlutusDatumSchema::DetailedSchema;
    match cardano_serialization_lib::plutus::PlutusData::from_json(s, schema) {
        Ok(datum) => Ok(datum.to_bytes()),
        Err(err) => Err(err.as_string().unwrap_or(String::new())),
    }
}

/// Relies on `uplc::tx::apply_params_to_script`, which decodes the CBOR
/// array of data terms and the script, applies the terms in order, and
/// re-encodes the specialized script.
#[verifier::external_body]
fn uplc_apply(params_cbor: &Vec<u8>, script: &Vec<u8>) -> (r: Result<Vec<u8>, String>)
    ensures
        r is Ok <==> applied_script(params_cbor@, script@) is Some,
        r matches Ok(v) ==> applied_script(params_cbor@, script@) == Some(v@),
{
    match uplc::tx::apply_params_to_script(params_cbor.as_slice(), script.as_slice()) {
        Ok(v) => Ok(v),
        Err(err) => Err(err.to_string()),
    }
}

/// The normalized form of a script hex string: `None` when the input is
/// rejected; otherwise the input itself when its payload parses as an
/// envelope again (already double-wrapped), else the hex of one fresh
/// envelope around the decoded bytes.
pub open spec fn normalize_spec(s: Seq<char>) -> Option<Seq<char>> {
    match hex_decode(s) {
        None => None,
        Some(b) => match envelope_payload(b) {
            None => None,
            Some(inner) => if envelope_payload(inner) is Some {
                Some(s)
            } else {
                Some(hex_encode(wrap_script(b)))
            },
        },
    }
}

/// The input is not even valid hex.
pub open spec fn decode_failed(s: Seq<char>) -> bool {
    hex_decode(s) is None
}

/// The bytes decode but do not parse as a script envelope.
pub open spec fn format_failed(s: Seq<char>) -> bool {
    match hex_decode(s) {
        Some(b) => envelope_payload(b) is None,
        None => false,
    }
}

/// A hex string that decodes, whose bytes parse as an envelope, and whose
/// payload parses as an envelope again: the form the ledger requires.
pub open spec fn double_wrapped(s: Seq<char>) -> bool {
    match hex_decode(s) {
        None => false,
        Some(b) => match envelope_payload(b) {
            None => false,
            Some(inner) => envelope_payload(inner) is Some,
        },
    }
}

/// Normalization is idempotent: anything already double-wrapped, and
/// `apply_double_cbor_encoding` only ever returns such strings, is
/// returned unchanged by a further normalization.
pub proof fn lemma_normalize_idempotent(t: Seq<char>)
    requires
        double_wrapped(t),
    ensures
        normalize_spec(t) == Some(t),
{
}

/// Ensures a compiled script carries exactly two envelope layers: a script
/// that already parses at both layers is returned unchanged, a single-
/// wrapped one gains one fresh layer around its raw bytes.
pub fn apply_double_cbor_encoding(script: &str) -> (r: Result<String, WhiskyError>)
    ensures
        r is Ok <==> normalize_spec(script@) is Some,
        r matches Ok(t) ==> normalize_spec(script@) == Some(t@),
        r matches Ok(t) ==> normalize_spec(t@) == Some(t@),
        r matches Ok(t) ==> double_wrapped(t@),
        r matches Err(e) ==> ((e is DecodeError) <==> decode_failed(script@)),
        r matches Err(e) ==> ((e is ScriptFormatError) <==> format_failed(script@)),
{
    let bytes = match hex_to_bytes(script) {
        Some(b) => b,
        None => {
            return Err(WhiskyError::DecodeError(String::from_str("script is not valid hex")));
        },
    };
    match envelope_unwrap(&bytes) {
        Err(m) => Err(WhiskyError::ScriptFormatError(m)),
        Ok(inner) => match envelope_unwrap(&inner) {
            Ok(_) => Ok(script.to_owned()),
            Err(_) => {
                let wrapped = envelope_wrap(&bytes);
                let fresh = bytes_to_hex(&wrapped);
                proof {
                    lemma_hex_decode_encode(wrapped@);
                }
                Ok(fresh)
            },
        },
    }
}

/// Every listed JSON argument follows the detailed schema.
pub open spec fn all_datums_ok(params: Seq<Seq<char>>) -> bool {
    forall|j: int| 0 <= j < params.len() ==> datum_cbor_of_json(#[trigger] params[j]) is Some
}

/// The CBOR encodings of the listed arguments, in order.
pub open spec fn datums_of(params: Seq<Seq<char>>) -> Seq<Seq<u8>> {
    params.map_values(|p: Seq<char>| datum_cbor_of_json(p).unwrap())
}

/// The hex result of applying the listed JSON arguments to a script:
/// normalization first; an empty list only normalizes; otherwise the
/// arguments are encoded as one CBOR array, handed with the normalized
/// script's payload to the evaluation engine, and the specialized script is
/// wrapped and hex-encoded again.
pub open spec fn apply_params_spec(params: Seq<Seq<char>>, s: Seq<char>) -> Option<Seq<char>> {
    match normalize_spec(s) {
        None => None,
        Some(norm) => if params.len() == 0 {
            Some(norm)
        } else if !all_datums_ok(params) {
            None
        } else {
            let inner = envelope_payload(hex_decode(norm).unwrap()).unwrap();
            let params_cbor = array_header(params.len() as nat) + concat_bytes(datums_of(params));
            match applied_script(params_cbor, inner) {
                None => None,
                Some(res) => Some(hex_encode(wrap_script(res))),
            }
        },
    }
}

/// An argument does not follow the schema (and everything before held).
pub open spec fn schema_failed(params: Seq<Seq<char>>, s: Seq<char>) -> bool {
    normalize_spec(s) is Some && params.len() > 0 && !all_datums_ok(params)
}

/// The evaluation engine rejected the application (and everything before
/// held).
pub open spec fn application_failed(params: Seq<Seq<char>>, s: Seq<char>) -> bool {
    match normalize_spec(s) {
        None => false,
        Some(norm) => params.len() > 0 && all_datums_ok(params) && {
            let inner = envelope_payload(hex_decode(norm).unwrap()).unwrap();
            let params_cbor = array_header(params.len() as nat) + concat_bytes(datums_of(params));
            applied_script(params_cbor, inner) is None
        },
    }
}

/// An empty argument list only normalizes: applying no parameters returns
/// exactly what normalization returns, success and value alike.
pub proof fn lemma_apply_params_empty(params: Seq<Seq<char>>, s: Seq<char>)
    requires
        params.len() == 0,
    ensures
        apply_params_spec(params, s) == normalize_spec(s),
{
}

/// Applies ordered data arguments to a script and returns the specialized
/// script's hex form; with no arguments this is exactly normalization.
#[verifier::loop_isolation(false)]
pub fn apply_params_to_script(params_to_apply: Vec<String>, plutus_script: String) -> (r: Result<
    String,
    WhiskyError,
>)
    ensures
        r is Ok <==> apply_params_spec(params_to_apply.deep_view(), plutus_script@) is Some,
        r matches Ok(t) ==> apply_params_spec(params_to_apply.deep_view(), plutus_script@)
            == Some(t@),
        r matches Err(e) ==> ((e is DecodeError) <==> decode_failed(plutus_script@)),
        r matches Err(e) ==> ((e is ScriptFormatError) <==> format_failed(plutus_script@)),
        r matches Err(e) ==> ((e is SchemaError) <==> schema_failed(
            params_to_apply.deep_view(),
            plutus_script@,
        )),
        r matches Err(e) ==> ((e is ApplicationError) <==> application_failed(
            params_to_apply.deep_view(),
            plutus_script@,
        )),
{
    let ghost pv = params_to_apply.deep_view();
    let normalized = match apply_double_cbor_encoding(plutus_script.as_str()) {
        Ok(t) => t,
        Err(e) => {
            return Err(e);
        },
    };
    let n: usize = params_to_apply.len();
    if n == 0 {
        return Ok(normalized);
    }
    let bytes = hex_to_bytes(normalized.as_str()).unwrap();
    let inner = match envelope_unwrap(&bytes) {
        Ok(i) => i,
        Err(m) => {
            return Err(WhiskyError::ScriptFormatError(m));
        },
    };
    let mut datums: Vec<Vec<u8>> = Vec::new();
    let mut i: usize = 0;
    while i < n
        invariant
            i <= n,
            datums.deep_view().len() == i,
            forall|j: int| 0 <= j < i ==> datum_cbor_of_json(#[trigger] pv[j]) is Some,
            forall|j: int| 0 <= j < i ==> #[trigger] datums.deep_view()[j] == datum_cbor_of_json(
                pv[j],
            ).unwrap(),
        decreases n - i,
    {
        proof {
            assert(pv[i as int] == params_to_apply@[i as int]@);
        }
        match datum_from_json(params_to_apply[i].as_str()) {
            Ok(d) => {
                let ghost prev_vec = datums@;
                let ghost prev_dv = datums.deep_view();
                let ghost dval = d@;
                proof {
                    assert(d.deep_view() =~= d@);
                }
                datums.push(d);
                proof {
                    assert(datums@ == prev_vec.push(datums@[i as int]));
                    assert(datums@[i as int].deep_view() == dval);
                    assert forall|j: int| 0 <= j < i + 1 implies #[trigger] datums.deep_view()[j]
                        == datum_cbor_of_json(pv[j]).unwrap() by {
                        assert(datums.deep_view()[j] == datums@[j].deep_view());
                        if j < i {
                            assert(datums@[j] == prev_vec[j]);
                            assert(prev_dv[j] == prev_vec[j].deep_view());
                        }
                    }
                }
            },
            Err(m) => {
                proof {
                    assert(datum_cbor_of_json(pv[i as int]) is None);
                    assert(!all_datums_ok(pv));
                }
                return Err(WhiskyError::SchemaError(m));
            },
        }
        i = i + 1;
    }
    let ghost dv = datums.deep_view();
    proof {
        assert(dv =~= datums_of(pv));
    }
    let mut params_cbor = cbor_array_header(n);
    let mut d: usize = 0;
    while d < datums.len()
        invariant
            d <= datums@.len(),
            params_cbor@ == array_header(n as nat) + concat_bytes(dv.take(d as int)),
        decreases datums@.len() - d,
    {
        proof {
            assert(dv[d as int] =~= datums@[d as int]@);
        }
        let item_len: usize = datums[d].len();
        let mut j: usize = 0;
        while j < item_len
            invariant
                j <= item_len,
                params_cbor@ == array_header(n as nat) + concat_bytes(dv.take(d as int))
                    + dv[d as int].take(j as int),
            decreases item_len - j,
        {
            let byte: u8 = datums[d][j];
            params_cbor.push(byte);
            j = j + 1;
            proof {
                assert(dv[d as int].take(j as int) =~= dv[d as int].take(j as int - 1).push(
                    datums@[d as int]@[j as int - 1],
                ));
                assert(params_cbor@ =~= array_header(n as nat) + concat_bytes(dv.take(d as int))
                    + dv[d as int].take(j as int));
            }
        }
        d = d + 1;
        proof {
            lemma_concat_bytes_push(dv.take(d as int - 1), dv[d as int - 1]);
            assert(dv.take(d as int) =~= dv.take(d as int - 1).push(dv[d as int - 1]));
            assert(dv[d as int - 1].take(dv[d as int - 1].len() as int) =~= dv[d as int - 1]);
            assert(params_cbor@ =~= array_header(n as nat) + concat_bytes(dv.take(d as int)));
        }
    }
    proof {
        assert(dv.take(dv.len() as int) =~= dv);
    }
    match apply_params_to_plutus_script(&params_cbor, &inner) {
        Ok(res) => {
            let wrapped = envelope_wrap(&res);
            let fresh = bytes_to_hex(&wrapped);
            proof {
                lemma_hex_decode_encode(wrapped@);
            }
            Ok(fresh)
        },
        Err(e) => Err(e),
    }
}

/// Applies an already CBOR-encoded array of data terms to the raw bytes of
/// an envelope payload, handing both to the evaluation engine and returning
/// the specialized script's bytes.
pub fn apply_params_to_plutus_script(params: &Vec<u8>, plutus_script: &Vec<u8>) -> (r: Result<
    Vec<u8>,
    WhiskyError,
>)
    ensures
        r is Ok <==> applied_script(params@, plutus_script@) is Some,
        r matches Ok(v) ==> applied_script(params@, plutus_script@) == Some(v@),
        r matches Err(e) ==> e is ApplicationError,
{
    match uplc_apply(params, plutus_script) {
        Ok(v) => Ok(v),
        Err(m) => Err(WhiskyError::ApplicationError(m)),
    }
}

} // verus!
