use anvil_fork::config::{BlockchainError, ClientForkConfigMiddleware};
use ethers::types::U256;
use std::time::Duration;

fn config(db_path: Option<String>) -> ClientForkConfigMiddleware<&'static str> {
    ClientForkConfigMiddleware {
        ipc_path: Some("/tmp/reth.ipc".to_string()),
        db_path,
        block_number: 100,
        block_hash: [1u8; 32],
        provider: "old provider",
        chain_id: 1,
        override_chain_id: None,
        timestamp: 1000,
        base_fee: Some(U256::from(7u64)),
        timeout: Some(Duration::from_secs(45)),
        retries: Some(5),
        backoff: Some(Duration::from_millis(1000)),
        total_difficulty: U256::from(500u64),
    }
}

#[test]
fn update_block_changes_only_block_fields() {
    let mut c = config(None);
    c.update_block(200, [2u8; 32], 2000, None, U256::from(900u64));
    assert_eq!(c.block_number, 200);
    assert_eq!(c.block_hash, [2u8; 32]);
    assert_eq!(c.timestamp, 2000);
    assert_eq!(c.base_fee, None);
    assert_eq!(c.total_difficulty, U256::from(900u64));
    assert_eq!(c.chain_id, 1);
    assert_eq!(c.provider, "old provider");
    assert_eq!(c.ipc_path, Some("/tmp/reth.ipc".to_string()));
    assert_eq!(c.retries, Some(5));
    assert_eq!(c.timeout, Some(Duration::from_secs(45)));
}

#[test]
fn failed_connection_is_invalid_url() {
    let c = config(None);
    let r = c.prepare_url_or_path_update::<u8, String>("/bad.ipc".to_string(), Err("refused".to_string()));
    match r {
        Err(BlockchainError::InvalidUrl(u)) => assert_eq!(u, "/bad.ipc"),
        other => panic!("unexpected {:?}", other),
    }
}

#[test]
fn missing_db_path_is_internal_error() {
    let c = config(None);
    let r = c.prepare_url_or_path_update::<u8, String>("/ok.ipc".to_string(), Ok(3));
    match r {
        Err(BlockchainError::Internal(m)) => assert_eq!(m, "db_path not set"),
        other => panic!("unexpected {:?}", other),
    }
}

#[test]
fn connection_with_db_path_gives_both() {
    let c = config(Some("/data/reth".to_string()));
    let r = c.prepare_url_or_path_update::<u8, String>("/ok.ipc".to_string(), Ok(3));
    match r {
        Ok((client, path)) => {
            assert_eq!(client, 3);
            assert_eq!(path, "/data/reth");
        }
        other => panic!("unexpected {:?}", other),
    }
}

#[test]
fn set_provider_replaces_provider_only() {
    let mut c = config(Some("/data/reth".to_string()));
    c.set_provider("new provider");
    assert_eq!(c.provider, "new provider");
    assert_eq!(c.block_number, 100);
    assert_eq!(c.db_path, Some("/data/reth".to_string()));
}

#[test]
fn cloned_config_is_independent() {
    let c = config(Some("/data/reth".to_string()));
    let mut d = c.clone();
    d.update_block(7, [7u8; 32], 70, None, U256::from(1u64));
    assert_eq!(c.block_number, 100);
    assert_eq!(c.total_difficulty, U256::from(500u64));
    assert_eq!(d.block_number, 7);
    assert_eq!(d.db_path, Some("/data/reth".to_string()));
}

#[test]
fn set_provider_keeps_ipc_path() {
    let mut c = config(Some("/data/reth".to_string()));
    c.set_provider("new provider");
    assert_eq!(c.ipc_path, Some("/tmp/reth.ipc".to_string()));
}
