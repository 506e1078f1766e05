use indexer_rules_engine::types::indexer_rule_match::{
    ChainId, IndexerRuleMatch, IndexerRuleMatchPayload,
};

fn record(chain_id: ChainId, payload: IndexerRuleMatchPayload) -> IndexerRuleMatch {
    IndexerRuleMatch {
        chain_id,
        indexer_rule_id: Some(1),
        indexer_rule_name: Some("rule".to_string()),
        payload,
        block_height: 93085141,
    }
}

fn actions(transaction_hash: Option<&str>) -> IndexerRuleMatchPayload {
    IndexerRuleMatchPayload::Actions {
        block_hash: "BLOCKHASH".to_string(),
        receipt_id: "RECEIPT".to_string(),
        transaction_hash: transaction_hash.map(|h| h.to_string()),
    }
}

fn events(transaction_hash: Option<&str>) -> IndexerRuleMatchPayload {
    IndexerRuleMatchPayload::Events {
        block_hash: "BLOCKHASH".to_string(),
        receipt_id: "RECEIPT".to_string(),
        transaction_hash: transaction_hash.map(|h| h.to_string()),
        event: "e".to_string(),
        standard: "s".to_string(),
        version: "v".to_string(),
        data: None,
    }
}

fn state_changes(receipt_id: Option<&str>, transaction_hash: Option<&str>) -> IndexerRuleMatchPayload {
    IndexerRuleMatchPayload::StateChanges {
        block_hash: "BLOCKHASH".to_string(),
        receipt_id: receipt_id.map(|h| h.to_string()),
        transaction_hash: transaction_hash.map(|h| h.to_string()),
    }
}

#[test]
fn link_to_block_where_no_transaction_is_named() {
    assert_eq!(
        record(ChainId::Testnet, actions(None)).explorer_link(),
        "https://explorer.testnet.near.org/block/BLOCKHASH"
    );
    assert_eq!(
        record(ChainId::Mainnet, actions(None)).explorer_link(),
        "https://explorer.near.org/block/BLOCKHASH"
    );
    assert_eq!(
        record(ChainId::Mainnet, events(None)).explorer_link(),
        "https://explorer.near.org/block/BLOCKHASH"
    );
    assert_eq!(
        record(ChainId::Testnet, state_changes(Some("RECEIPT"), None)).explorer_link(),
        "https://explorer.testnet.near.org/block/BLOCKHASH"
    );
    assert_eq!(
        record(ChainId::Testnet, state_changes(None, None)).explorer_link(),
        "https://explorer.testnet.near.org/block/BLOCKHASH"
    );
}

#[test]
fn link_to_transaction_with_receipt_as_fragment() {
    assert_eq!(
        record(ChainId::Testnet, actions(Some("TX"))).explorer_link(),
        "https://explorer.testnet.near.org/transactions/TX#RECEIPT"
    );
    assert_eq!(
        record(ChainId::Mainnet, events(Some("TX"))).explorer_link(),
        "https://explorer.near.org/transactions/TX#RECEIPT"
    );
    assert_eq!(
        record(ChainId::Mainnet, state_changes(Some("R2"), Some("TX"))).explorer_link(),
        "https://explorer.near.org/transactions/TX#R2"
    );
}

#[test]
fn link_to_transaction_without_receipt() {
    assert_eq!(
        record(ChainId::Mainnet, state_changes(None, Some("TX"))).explorer_link(),
        "https://explorer.near.org/transactions/TX"
    );
    assert_eq!(
        record(ChainId::Testnet, state_changes(None, Some("TX"))).explorer_link(),
        "https://explorer.testnet.near.org/transactions/TX"
    );
}

#[test]
fn payload_accessors() {
    let a = actions(Some("TX"));
    assert_eq!(a.block_hash(), "BLOCKHASH");
    assert_eq!(a.receipt_id(), Some("RECEIPT".to_string()));
    assert_eq!(a.transaction_hash(), Some("TX".to_string()));
    let e = events(None);
    assert_eq!(e.block_hash(), "BLOCKHASH");
    assert_eq!(e.receipt_id(), Some("RECEIPT".to_string()));
    assert_eq!(e.transaction_hash(), None);
    let s = state_changes(None, Some("TX"));
    assert_eq!(s.block_hash(), "BLOCKHASH");
    assert_eq!(s.receipt_id(), None);
    assert_eq!(s.transaction_hash(), Some("TX".to_string()));
    let s = state_changes(Some("R"), None);
    assert_eq!(s.receipt_id(), Some("R".to_string()));
    assert_eq!(s.transaction_hash(), None);
}

#[test]
fn chain_names() {
    assert_eq!(ChainId::Mainnet.to_string(), "mainnet");
    assert_eq!(ChainId::Testnet.to_string(), "testnet");
}
