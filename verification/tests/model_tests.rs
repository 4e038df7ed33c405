use whisky_core::hex::{bytes_to_hex, hex_to_bytes};
use whisky_core::js_vec::JsVecString;
use whisky_core::model::{
    Asset, Budget, Certificate, Datum, DatumSource, InlineDatumSource, LanguageVersion,
    Margin, MeshTxBuilderBody, MintItem, Output, PoolMetadata, PoolParams, ProvidedDatumSource,
    ProvidedScriptSource, PubKeyTxIn, Redeemer, RefTxIn, RegisterPool, Relay, RetirePool,
    ScriptSource, ScriptTxIn, ScriptTxInParameter, SingleHostName, TxIn, TxInParameter, UTxO,
    UtxoInput, UtxoOutput, ValidityRange, Withdrawal, PubKeyWithdrawal,
};

#[test]
fn hex_round_trip_exact_values() {
    assert_eq!(bytes_to_hex(&vec![0x00u8, 0xff, 0x12]), "00ff12");
    assert_eq!(hex_to_bytes("00ff12"), Some(vec![0x00u8, 0xff, 0x12]));
    assert_eq!(hex_to_bytes("00FF12"), Some(vec![0x00u8, 0xff, 0x12]));
    assert_eq!(hex_to_bytes(""), Some(vec![]));
    assert_eq!(bytes_to_hex(&vec![]), "");
}

#[test]
fn hex_rejects_malformed_input() {
    assert_eq!(hex_to_bytes("0"), None);
    assert_eq!(hex_to_bytes("0g"), None);
    assert_eq!(hex_to_bytes("zz"), None);
}

#[test]
fn js_vec_string_behaves_like_a_list() {
    let mut v = JsVecString::new();
    assert!(v.is_empty());
    assert_eq!(v.len(), 0);
    v.add("alpha".to_string());
    v.add("beta".to_string());
    assert!(!v.is_empty());
    assert_eq!(v.len(), 2);
    assert_eq!(v.get(0), "alpha");
    assert_eq!(v.get(1), "beta");
    let d = JsVecString::default();
    assert!(d.is_empty());
}

#[test]
fn transaction_body_holds_its_fields() {
    let input = TxIn::ScriptTxIn(ScriptTxIn {
        type_: "ScriptTxIn".to_string(),
        tx_in: TxInParameter {
            tx_hash: "ab".repeat(32),
            tx_index: 1,
            amount: Some(vec![Asset {
                unit: "lovelace".to_string(),
                quantity: "1000000".to_string(),
            }]),
            address: None,
        },
        script_tx_in: ScriptTxInParameter {
            script_source: Some(ScriptSource::ProvidedScriptSource(ProvidedScriptSource {
                script_cbor: "4e4d01000033222220051200120011".to_string(),
                language_version: LanguageVersion::V2,
            })),
            datum_source: Some(DatumSource::ProvidedDatumSource(ProvidedDatumSource {
                data: "{\"int\":1}".to_string(),
            })),
            redeemer: Some(Redeemer {
                data: "{\"int\":2}".to_string(),
                ex_units: Budget { mem: 7000000, steps: 3000000000 },
            }),
        },
    });
    let body = MeshTxBuilderBody {
        inputs: vec![input.clone()],
        outputs: vec![Output {
            address: "addr_test1".to_string(),
            amount: vec![],
            datum: Some(Datum { type_: "Inline".to_string(), data: "{\"int\":0}".to_string() }),
            reference_script: None,
        }],
        collaterals: vec![PubKeyTxIn {
            type_: "PubKeyTxIn".to_string(),
            tx_in: TxInParameter {
                tx_hash: "cd".repeat(32),
                tx_index: 0,
                amount: None,
                address: None,
            },
        }],
        required_signatures: JsVecString::new(),
        reference_inputs: vec![RefTxIn { tx_hash: "ef".repeat(32), tx_index: 3 }],
        withdrawals: vec![Withdrawal::PubKeyWithdrawal(PubKeyWithdrawal {
            address: "stake_test1".to_string(),
            coin: 42,
        })],
        mints: vec![MintItem {
            type_: "Plutus".to_string(),
            policy_id: "11".repeat(28),
            asset_name: "746f6b656e".to_string(),
            amount: 5,
            redeemer: None,
            script_source: None,
        }],
        change_address: "addr_test1change".to_string(),
        change_datum: None,
        metadata: vec![],
        validity_range: ValidityRange { invalid_before: Some(100), invalid_hereafter: None },
        certificates: vec![
            Certificate::RegisterPool(RegisterPool {
                pool_params: PoolParams {
                    vrf_key_hash: "22".repeat(32),
                    operator: "33".repeat(28),
                    pledge: "100000000".to_string(),
                    cost: "340000000".to_string(),
                    margin: Margin { numerator: 1, denominator: 100 },
                    relays: vec![Relay::SingleHostName(SingleHostName {
                        domain_name: "relay.example".to_string(),
                        port: Some(3001),
                    })],
                    owners: vec!["44".repeat(28)],
                    reward_address: "stake_test1reward".to_string(),
                    metadata: Some(PoolMetadata {
                        url: "https://pool.example/meta.json".to_string(),
                        hash: "55".repeat(32),
                    }),
                },
            }),
            Certificate::RetirePool(RetirePool { pool_id: "66".repeat(28), epoch: 250 }),
        ],
        signing_key: JsVecString::new(),
    };
    assert_eq!(body.inputs.len(), 1);
    assert_eq!(body.inputs[0], input);
    assert_eq!(body.outputs[0].address, "addr_test1");
    assert_eq!(body.validity_range.invalid_before, Some(100));
    assert_eq!(body.certificates.len(), 2);
    assert_eq!(body.mints[0].amount, 5);
}

#[test]
fn utxo_pairs_identity_with_contents() {
    let utxo = UTxO {
        input: UtxoInput { output_index: 2, tx_hash: "77".repeat(32) },
        output: UtxoOutput {
            address: "addr_test1utxo".to_string(),
            amount: vec![Asset { unit: "lovelace".to_string(), quantity: "5000000".to_string() }],
            data_hash: None,
            plutus_data: Some("{\"int\":9}".to_string()),
            script_ref: None,
            script_hash: None,
        },
    };
    assert_eq!(utxo.input.output_index, 2);
    assert_eq!(utxo.output.amount[0].quantity, "5000000");
    let datum_source = DatumSource::InlineDatumSource(InlineDatumSource {
        tx_hash: utxo.input.tx_hash.clone(),
        tx_index: utxo.input.output_index,
    });
    assert_eq!(
        datum_source,
        DatumSource::InlineDatumSource(InlineDatumSource {
            tx_hash: "77".repeat(32),
            tx_index: 2,
        })
    );
}
