use std::sync::Mutex;

use helios_ts::{DbKind, EthAddress, EthU256Input, JsCallOpts, JsHeliosClientConfig};

fn empty_config() -> JsHeliosClientConfig {
    JsHeliosClientConfig {
        network: None,
        consensus_rpc: None,
        execution_rpc: None,
        data_dir: None,
        checkpoint: None,
    }
}

#[test]
fn call_opts_start_empty() {
    let o = JsCallOpts::construct().snapshot();
    assert!(o.from.is_none());
    assert!(o.to.is_none());
    assert!(o.gas.is_none());
    assert!(o.gas_price.is_none());
    assert!(o.value.is_none());
    assert!(o.data.is_none());
}

#[test]
fn call_opts_snapshot_sees_every_setter() {
    let shared = Mutex::new(JsCallOpts::construct());
    shared.lock().unwrap().set_value(EthU256Input([5, 0, 0, 0]));
    shared.lock().unwrap().set_data(vec![1, 2, 3]);
    shared.lock().unwrap().set_to(EthAddress([2; 20]));
    shared.lock().unwrap().set_gas_price(EthU256Input([4, 0, 0, 0]));
    shared.lock().unwrap().set_from(EthAddress([1; 20]));
    shared.lock().unwrap().set_gas(EthU256Input([3, 0, 0, 0]));
    let o = shared.lock().unwrap().snapshot();
    assert_eq!(o.from, Some(EthAddress([1; 20])));
    assert_eq!(o.to, Some(EthAddress([2; 20])));
    assert_eq!(o.gas, Some(EthU256Input([3, 0, 0, 0])));
    assert_eq!(o.gas_price, Some(EthU256Input([4, 0, 0, 0])));
    assert_eq!(o.value, Some(EthU256Input([5, 0, 0, 0])));
    assert_eq!(o.data, Some(vec![1, 2, 3]));
}

#[test]
fn call_opts_last_write_wins() {
    let mut c = JsCallOpts::construct();
    c.set_gas(EthU256Input([1, 0, 0, 0]));
    let first = c.snapshot();
    c.set_gas(EthU256Input([2, 0, 0, 0]));
    assert_eq!(first.gas, Some(EthU256Input([1, 0, 0, 0])));
    assert_eq!(c.snapshot().gas, Some(EthU256Input([2, 0, 0, 0])));
    assert!(c.snapshot().from.is_none());
}

#[test]
fn db_kind_with_data_dir() {
    let mut c = empty_config();
    c.data_dir = Some("/var/lib/helios".to_string());
    assert_eq!(c.db_kind(), DbKind::File);
}

#[test]
fn db_kind_without_data_dir() {
    assert_eq!(empty_config().db_kind(), DbKind::Config);
}

#[test]
fn settings_take_defaults() {
    let s = empty_config().settings();
    assert_eq!(s.network, "mainnet");
    assert_eq!(s.consensus_rpc, "https://www.lightclientdata.org");
    assert_eq!(s.execution_rpc, "https://rpc.flashbots.net");
    assert!(s.data_dir.is_none());
    assert!(s.checkpoint.is_none());
}

#[test]
fn settings_keep_given_values() {
    let c = JsHeliosClientConfig {
        network: Some("goerli".to_string()),
        consensus_rpc: Some("http://localhost:1".to_string()),
        execution_rpc: Some("http://localhost:2".to_string()),
        data_dir: Some("/tmp/h".to_string()),
        checkpoint: Some("0xabc".to_string()),
    };
    let s = c.settings();
    assert_eq!(s.network, "goerli");
    assert_eq!(s.consensus_rpc, "http://localhost:1");
    assert_eq!(s.execution_rpc, "http://localhost:2");
    assert_eq!(s.data_dir.as_deref(), Some("/tmp/h"));
    assert_eq!(s.checkpoint.as_deref(), Some("0xabc"));
}
