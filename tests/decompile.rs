use vmback::{
    Address, SuiNetwork, collect_outputs, decode_module_map, module_scratch_path,
    rpc_request_body, rpc_url,
};

fn module_map() -> Vec<(String, String)> {
    // base64 of the bytes de ad be ef and c0 ff ee
    vec![
        ("mod_a".to_string(), "3q2+7w==".to_string()),
        ("mod_b".to_string(), "wP/u".to_string()),
    ]
}

#[test]
fn module_map_decodes_into_jobs() {
    let jobs = decode_module_map(&module_map()).unwrap();
    assert_eq!(jobs.len(), 2);
    assert_eq!(jobs[0].module_name, "mod_a");
    assert_eq!(jobs[0].path, "/tmp/modules/mod_a.mv");
    assert_eq!(jobs[0].bytecode, vec![0xde, 0xad, 0xbe, 0xef]);
    assert_eq!(jobs[1].module_name, "mod_b");
    assert_eq!(jobs[1].bytecode, vec![0xc0, 0xff, 0xee]);
}

#[test]
fn decompiled_map_has_exactly_the_fetched_keys() {
    let jobs = decode_module_map(&module_map()).unwrap();
    let outputs = vec![b"module a {}".to_vec(), b"module b {}".to_vec()];
    let resp = collect_outputs(&jobs, &outputs);
    let data = resp.data();
    assert_eq!(data.len(), 2);
    assert_eq!(data[0], ("mod_a".to_string(), "module a {}".to_string()));
    assert_eq!(data[1], ("mod_b".to_string(), "module b {}".to_string()));
}

#[test]
fn invalid_utf8_output_is_replaced() {
    let jobs = decode_module_map(&vec![("m".to_string(), "AA==".to_string())]).unwrap();
    let resp = collect_outputs(&jobs, &vec![vec![b'o', 0xff, b'k']]);
    assert_eq!(resp.data()[0].1, "o\u{FFFD}k");
}

#[test]
fn bad_base64_aborts_the_whole_map() {
    let entries = vec![
        ("good".to_string(), "AA==".to_string()),
        ("bad".to_string(), "!!!".to_string()),
        ("worse".to_string(), "***".to_string()),
    ];
    let err = decode_module_map(&entries).unwrap_err();
    assert_eq!(err.module_name, "bad");
}

#[test]
fn empty_module_map_gives_empty_response() {
    let jobs = decode_module_map(&Vec::new()).unwrap();
    assert!(jobs.is_empty());
    assert!(collect_outputs(&jobs, &Vec::new()).data().is_empty());
}

#[test]
fn rpc_request_is_framed() {
    assert_eq!(rpc_url(SuiNetwork::Testnet), "https://fullnode.testnet.io:443");
    let a = Address::new(&format!("0x{}", "5".repeat(64))).unwrap();
    let body = rpc_request_body(&a);
    let expected = format!(
        "{{\"jsonrpc\":\"2.0\",\"id\":1,\"method\":\"sui_getObject\",\"params\":[\"0x{}\",{{\"showBcs\":true}}]}}",
        "5".repeat(64)
    );
    assert_eq!(body, expected);
    let parsed: serde_json::Value = serde_json::from_str(&body).unwrap();
    assert_eq!(parsed["method"], "sui_getObject");
    assert_eq!(module_scratch_path("coin"), "/tmp/modules/coin.mv");
}
