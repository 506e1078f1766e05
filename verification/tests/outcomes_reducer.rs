use indexer_rules_engine::outcomes_reducer::{
    build_indexer_rule_match, build_indexer_rule_match_payload, first_matching_outcome,
    reduce_indexer_rule_matches_from_outcomes, ReduceError, ReduceErrorCause,
};
use indexer_rules_engine::types::block::{
    Action, BlockHeader, BlockMessage, ExecutionOutcome, ExecutionStatus, Receipt,
    ReceiptExecutionOutcome, Shard,
};
use indexer_rules_engine::types::indexer_rule::{
    IndexerRule, IndexerRuleKind, MatchingRule, Status,
};
use indexer_rules_engine::types::indexer_rule_match::{
    ChainId, IndexerRuleMatch, IndexerRuleMatchPayload,
};
use indexer_rules_engine::{reduce_indexer_rule_matches, reduce_indexer_rule_matches_sync};

const BLOCK_HASH: &str = "8AYikjEDsQwqSp4UFPCPqYDaq8Xy6HUqkA2SccmxZY7M";

fn outcome(
    receipt_id: &str,
    predecessor_id: &str,
    receiver_id: &str,
    actions: Vec<Action>,
    status: ExecutionStatus,
    logs: Vec<&str>,
) -> ReceiptExecutionOutcome {
    ReceiptExecutionOutcome {
        receipt: Receipt {
            receipt_id: receipt_id.to_string(),
            predecessor_id: predecessor_id.to_string(),
            receiver_id: receiver_id.to_string(),
            actions,
        },
        execution_outcome: ExecutionOutcome {
            status,
            logs: logs.into_iter().map(|log| log.to_string()).collect(),
            gas_burnt: 2428314524384,
            tokens_burnt: 242831452438400000000,
        },
    }
}

fn call(method_name: &str) -> Action {
    Action::FunctionCall { method_name: method_name.to_string(), args: vec![123, 125] }
}

/// A block of four shards. Two receipts in shard 1 are addressed to
/// `app.nearcrowd.near`; shard 3 holds a receipt that logs an NFT transfer.
fn read_local_streamer_message(block_height: u64) -> BlockMessage {
    BlockMessage {
        header: BlockHeader {
            hash: BLOCK_HASH.to_string(),
            height: block_height,
            timestamp: 1685463605857200141,
        },
        shards: vec![
            Shard {
                shard_id: 0,
                receipt_execution_outcomes: vec![outcome(
                    "3A7cmJzJuGbxUFSyqZX2q69sg3LChXUz9tDVLfacW2nS",
                    "relay.aurora",
                    "aurora",
                    vec![call("submit")],
                    ExecutionStatus::SuccessValue,
                    vec!["signer_address Address(0x605ce19532c7121d1b5e632eb776e5aa7bfb8990)"],
                )],
            },
            Shard {
                shard_id: 1,
                receipt_execution_outcomes: vec![
                    outcome(
                        "FdWCuMhFBQwG9RVAvLvndKbbFuxAB1LikLHJbgfA2zW9",
                        "system",
                        "someone.near",
                        vec![Action::Transfer],
                        ExecutionStatus::SuccessValue,
                        vec![],
                    ),
                    outcome(
                        "2H9MzDqPz7EZ1MHvD2ELHX9Jq8tVBqNS7aTFdEKTh3gA",
                        "worker1.near",
                        "app.nearcrowd.near",
                        vec![call("finalize_task")],
                        ExecutionStatus::SuccessValue,
                        vec![],
                    ),
                    outcome(
                        "6UQuhNSpTHW9VJUZWLPSgGgM9zYdVjPJNLQnQRFKYr2F",
                        "worker2.near",
                        "app.nearcrowd.near",
                        vec![call("claim_assignment")],
                        ExecutionStatus::SuccessReceiptId,
                        vec![],
                    ),
                ],
            },
            Shard { shard_id: 2, receipt_execution_outcomes: vec![] },
            Shard {
                shard_id: 3,
                receipt_execution_outcomes: vec![
                    outcome(
                        "9mtkzWpGWZeXZWFzBqkEmmVfKo8skFPQKXsNhnsGrBrK",
                        "buyer.near",
                        "failing.near",
                        vec![call("nft_buy")],
                        ExecutionStatus::Failure,
                        vec!["not enough deposit"],
                    ),
                    outcome(
                        "CWHUnPRNbXQkUBVkbNYYEYZMcxuQjFUMYDCGPiTVyyLG",
                        "seller.near",
                        "nft.paras.near",
                        vec![call("nft_transfer")],
                        ExecutionStatus::SuccessValue,
                        vec![
                            "plain log line",
                            "EVENT_JSON:{\"standard\":\"nep171\",\"version\":\"2.0.0\",\"event\":\"transfer\"}",
                            "EVENT_JSON:{\"standard\":\"nep171\",\"version\":\"1.0.0\",\"event\":\"transfer\",\"data\":[{\"new_owner_id\":\"buyer.near\",\"old_owner_id\":\"seller.near\",\"token_ids\":[\"42\"]}]}",
                            "EVENT_JSON:{\"standard\":\"nep171\",\"version\":\"1.1.0\",\"event\":\"transfer\",\"data\":null}",
                        ],
                    ),
                ],
            },
        ],
    }
}

fn action_any(affected_account_id: &str, status: Status) -> IndexerRule {
    IndexerRule {
        indexer_rule_kind: IndexerRuleKind::Action,
        matching_rule: MatchingRule::ActionAny {
            affected_account_id: affected_account_id.to_string(),
            status,
        },
        id: None,
        name: None,
    }
}

fn event_rule(contract: &str, event: &str, standard: &str, version: &str) -> IndexerRule {
    IndexerRule {
        indexer_rule_kind: IndexerRuleKind::Event,
        matching_rule: MatchingRule::Event {
            contract_account_id: contract.to_string(),
            standard: standard.to_string(),
            version: version.to_string(),
            event: event.to_string(),
        },
        id: Some(7),
        name: Some("transfers".to_string()),
    }
}

#[test]
fn match_wildcard_no_match() {
    let wildcard_rule = IndexerRule {
        indexer_rule_kind: IndexerRuleKind::Action,
        matching_rule: MatchingRule::ActionAny {
            affected_account_id: "*.nearcrow.near".to_string(),
            status: Status::Success,
        },
        id: None,
        name: None,
    };

    let streamer_message = read_local_streamer_message(93085141);
    let result: Vec<IndexerRuleMatch> = reduce_indexer_rule_matches_from_outcomes(
        &wildcard_rule,
        &streamer_message,
        ChainId::Testnet,
    )
    .unwrap();

    assert_eq!(result.len(), 0);
}

#[test]
fn match_wildcard_contract_subaccount_name() {
    let wildcard_rule = IndexerRule {
        indexer_rule_kind: IndexerRuleKind::Action,
        matching_rule: MatchingRule::ActionAny {
            affected_account_id: "*.nearcrowd.near".to_string(),
            status: Status::Success,
        },
        id: None,
        name: None,
    };

    let streamer_message = read_local_streamer_message(93085141);
    let result: Vec<IndexerRuleMatch> = reduce_indexer_rule_matches_from_outcomes(
        &wildcard_rule,
        &streamer_message,
        ChainId::Testnet,
    )
    .unwrap();

    assert_eq!(result.len(), 1);
}

#[test]
fn match_wildcard_mid_contract_name() {
    let wildcard_rule = IndexerRule {
        indexer_rule_kind: IndexerRuleKind::Action,
        matching_rule: MatchingRule::ActionAny {
            affected_account_id: "*crowd.near".to_string(),
            status: Status::Success,
        },
        id: None,
        name: None,
    };

    let streamer_message = read_local_streamer_message(93085141);
    let result: Vec<IndexerRuleMatch> = reduce_indexer_rule_matches_from_outcomes(
        &wildcard_rule,
        &streamer_message,
        ChainId::Testnet,
    )
    .unwrap();

    assert_eq!(result.len(), 1);

    let wildcard_rule = IndexerRule {
        indexer_rule_kind: IndexerRuleKind::Action,
        matching_rule: MatchingRule::ActionAny {
            affected_account_id: "app.nea*owd.near".to_string(),
            status: Status::Success,
        },
        id: None,
        name: None,
    };

    let result: Vec<IndexerRuleMatch> = reduce_indexer_rule_matches_from_outcomes(
        &wildcard_rule,
        &streamer_message,
        ChainId::Testnet,
    )
    .unwrap();

    assert_eq!(result.len(), 1);
}

#[test]
fn match_csv_account() {
    let wildcard_rule = IndexerRule {
        indexer_rule_kind: IndexerRuleKind::Action,
        matching_rule: MatchingRule::ActionAny {
            affected_account_id: "notintheblockaccount.near, app.nearcrowd.near".to_string(),
            status: Status::Success,
        },
        id: None,
        name: None,
    };

    let streamer_message = read_local_streamer_message(93085141);
    let result: Vec<IndexerRuleMatch> = reduce_indexer_rule_matches_from_outcomes(
        &wildcard_rule,
        &streamer_message,
        ChainId::Testnet,
    )
    .unwrap();

    assert_eq!(result.len(), 1);
}

#[test]
fn match_csv_wildcard_account() {
    let wildcard_rule = IndexerRule {
        indexer_rule_kind: IndexerRuleKind::Action,
        matching_rule: MatchingRule::ActionAny {
            affected_account_id: "notintheblockaccount.near, *.nearcrowd.near".to_string(),
            status: Status::Success,
        },
        id: None,
        name: None,
    };

    let streamer_message = read_local_streamer_message(93085141);
    let result: Vec<IndexerRuleMatch> = reduce_indexer_rule_matches_from_outcomes(
        &wildcard_rule,
        &streamer_message,
        ChainId::Testnet,
    )
    .unwrap();

    assert_eq!(result.len(), 1);
}

#[test]
fn action_match_reports_block_and_first_receipt() {
    let mut rule = action_any("*.nearcrowd.near", Status::Success);
    rule.id = Some(12);
    rule.name = Some("crowd".to_string());
    let block = read_local_streamer_message(93085141);
    let result =
        reduce_indexer_rule_matches_from_outcomes(&rule, &block, ChainId::Mainnet).unwrap();
    assert_eq!(
        result,
        vec![IndexerRuleMatch {
            chain_id: ChainId::Mainnet,
            indexer_rule_id: Some(12),
            indexer_rule_name: Some("crowd".to_string()),
            payload: IndexerRuleMatchPayload::Actions {
                block_hash: BLOCK_HASH.to_string(),
                receipt_id: "2H9MzDqPz7EZ1MHvD2ELHX9Jq8tVBqNS7aTFdEKTh3gA".to_string(),
                transaction_hash: None,
            },
            block_height: 93085141,
        }]
    );
}

#[test]
fn event_match_reports_first_matching_event() {
    let rule = event_rule("*", "transfer", "nep171", "1.*.*");
    let block = read_local_streamer_message(93085141);
    let result =
        reduce_indexer_rule_matches_from_outcomes(&rule, &block, ChainId::Testnet).unwrap();
    assert_eq!(
        result,
        vec![IndexerRuleMatch {
            chain_id: ChainId::Testnet,
            indexer_rule_id: Some(7),
            indexer_rule_name: Some("transfers".to_string()),
            payload: IndexerRuleMatchPayload::Events {
                block_hash: BLOCK_HASH.to_string(),
                receipt_id: "CWHUnPRNbXQkUBVkbNYYEYZMcxuQjFUMYDCGPiTVyyLG".to_string(),
                transaction_hash: None,
                event: "transfer".to_string(),
                standard: "nep171".to_string(),
                version: "1.0.0".to_string(),
                data: Some(
                    "[{\"new_owner_id\":\"buyer.near\",\"old_owner_id\":\"seller.near\",\"token_ids\":[\"42\"]}]"
                        .to_string()
                ),
            },
            block_height: 93085141,
        }]
    );
}

#[test]
fn event_match_without_data() {
    let rule = event_rule("nft.paras.near", "*", "*", "1.1.*");
    let block = read_local_streamer_message(93085141);
    let result =
        reduce_indexer_rule_matches_from_outcomes(&rule, &block, ChainId::Testnet).unwrap();
    assert_eq!(result.len(), 1);
    match &result[0].payload {
        IndexerRuleMatchPayload::Events { version, data, .. } => {
            assert_eq!(version, "1.1.0");
            assert_eq!(data, &None);
        }
        other => panic!("an Events payload was expected, not {:?}", other),
    }
}

#[test]
fn event_globs_are_held_against_one_event() {
    // `2.0.0` and `transfer` occur in the logs, but `mint` does not, and no single
    // event is a `mint` of version `2.0.0`.
    let block = read_local_streamer_message(93085141);
    let rule = event_rule("*", "mint", "nep171", "2.0.0");
    assert_eq!(
        reduce_indexer_rule_matches_from_outcomes(&rule, &block, ChainId::Testnet).unwrap(),
        vec![]
    );
    let rule = event_rule("*", "transfer", "nep141", "*");
    assert_eq!(
        reduce_indexer_rule_matches_from_outcomes(&rule, &block, ChainId::Testnet).unwrap(),
        vec![]
    );
}

#[test]
fn event_rule_on_other_contract_matches_nothing() {
    let rule = event_rule("aurora", "transfer", "nep171", "*");
    let block = read_local_streamer_message(93085141);
    assert_eq!(
        reduce_indexer_rule_matches_from_outcomes(&rule, &block, ChainId::Testnet).unwrap(),
        vec![]
    );
}

#[test]
fn one_record_for_a_block_with_hits_in_several_shards() {
    let rule = action_any("*", Status::Any);
    let block = read_local_streamer_message(93085141);
    let result =
        reduce_indexer_rule_matches_from_outcomes(&rule, &block, ChainId::Testnet).unwrap();
    assert_eq!(result.len(), 1);
    assert_eq!(
        result[0].payload.receipt_id(),
        Some("3A7cmJzJuGbxUFSyqZX2q69sg3LChXUz9tDVLfacW2nS".to_string())
    );
}

#[test]
fn failure_filter_selects_first_failed_receipt() {
    let rule = action_any("*", Status::Fail);
    let block = read_local_streamer_message(93085141);
    let result =
        reduce_indexer_rule_matches_from_outcomes(&rule, &block, ChainId::Testnet).unwrap();
    assert_eq!(result.len(), 1);
    assert_eq!(
        result[0].payload.receipt_id(),
        Some("9mtkzWpGWZeXZWFzBqkEmmVfKo8skFPQKXsNhnsGrBrK".to_string())
    );
}

#[test]
fn empty_account_pattern_matches_nothing() {
    let block = read_local_streamer_message(93085141);
    for pattern in ["", " ", ",", " , ,\t"] {
        let rule = action_any(pattern, Status::Any);
        assert_eq!(
            reduce_indexer_rule_matches_from_outcomes(&rule, &block, ChainId::Testnet).unwrap(),
            vec![]
        );
    }
}

#[test]
fn block_without_shards_yields_nothing() {
    let block = BlockMessage {
        header: BlockHeader { hash: BLOCK_HASH.to_string(), height: 1, timestamp: 0 },
        shards: vec![],
    };
    let rule = action_any("*", Status::Any);
    assert_eq!(reduce_indexer_rule_matches_sync(&rule, &block, ChainId::Testnet), vec![]);
}

#[test]
fn function_call_rule_selects_receipt_that_calls_listed_method() {
    let rule = IndexerRule {
        indexer_rule_kind: IndexerRuleKind::Action,
        matching_rule: MatchingRule::ActionFunctionCall {
            affected_account_id: "app.nearcrowd.near".to_string(),
            status: Status::Success,
            function: "approve_solution, claim_assignment".to_string(),
        },
        id: None,
        name: None,
    };
    let block = read_local_streamer_message(93085141);
    let result =
        reduce_indexer_rule_matches_from_outcomes(&rule, &block, ChainId::Testnet).unwrap();
    assert_eq!(result.len(), 1);
    assert_eq!(
        result[0].payload.receipt_id(),
        Some("6UQuhNSpTHW9VJUZWLPSgGgM9zYdVjPJNLQnQRFKYr2F".to_string())
    );
}

#[test]
fn both_forms_of_the_reducer_agree() {
    let block = read_local_streamer_message(93085141);
    let rules = vec![
        action_any("*.nearcrowd.near", Status::Success),
        action_any("*.nearcrow.near", Status::Success),
        action_any("*", Status::Fail),
        event_rule("*", "transfer", "nep171", "1.*.*"),
        event_rule("*", "*", "*", "*"),
        event_rule("nobody.near", "*", "*", "*"),
    ];
    for rule in &rules {
        let plain = reduce_indexer_rule_matches_sync(rule, &block, ChainId::Testnet);
        let fallible = reduce_indexer_rule_matches(rule, &block, ChainId::Testnet);
        let from_outcomes =
            reduce_indexer_rule_matches_from_outcomes(rule, &block, ChainId::Testnet);
        assert_eq!(fallible, Ok(plain.clone()));
        assert_eq!(from_outcomes, Ok(plain));
    }
}

#[test]
fn reduction_repeats_itself() {
    let block = read_local_streamer_message(93085141);
    let rule = event_rule("*.paras.near", "transfer", "*", "*");
    let first = reduce_indexer_rule_matches_sync(&rule, &block, ChainId::Mainnet);
    let second = reduce_indexer_rule_matches_sync(&rule, &block.clone(), ChainId::Mainnet);
    assert_eq!(first.len(), 1);
    assert_eq!(first, second);
}

#[test]
fn first_matching_outcome_follows_shard_then_receipt_order() {
    let block = read_local_streamer_message(93085141);
    let rule = MatchingRule::ActionAny {
        affected_account_id: "*.near".to_string(),
        status: Status::Success,
    };
    let found = first_matching_outcome(&rule, &block).unwrap();
    assert_eq!(found.receipt.receiver_id, "someone.near");
    let rule = MatchingRule::ActionAny {
        affected_account_id: "nothing.here".to_string(),
        status: Status::Any,
    };
    assert_eq!(first_matching_outcome(&rule, &block), None);
}

#[test]
fn payload_of_event_rule_needs_a_matching_event() {
    let block = read_local_streamer_message(93085141);
    let rule = event_rule("*", "transfer", "nep171", "*");
    let without_events = &block.shards[0].receipt_execution_outcomes[0];
    assert_eq!(
        build_indexer_rule_match_payload(&rule, without_events, BLOCK_HASH.to_string()),
        None
    );
    assert_eq!(
        build_indexer_rule_match(
            &rule,
            without_events,
            BLOCK_HASH.to_string(),
            93085141,
            ChainId::Testnet
        ),
        Err(ReduceError {
            indexer_rule_id: Some(7),
            indexer_rule_name: Some("transfers".to_string()),
            block_height: 93085141,
            cause: ReduceErrorCause::NoMatchingEvent,
        })
    );
    assert_eq!(
        ReduceErrorCause::NoMatchingEvent.description(),
        "no log of the receipt holds a matching event"
    );
    let with_events = &block.shards[3].receipt_execution_outcomes[1];
    let payload =
        build_indexer_rule_match_payload(&rule, with_events, "hash".to_string()).unwrap();
    match payload {
        IndexerRuleMatchPayload::Events { block_hash, version, data, .. } => {
            assert_eq!(block_hash, "hash");
            assert_eq!(version, "2.0.0");
            assert_eq!(data, None);
        }
        other => panic!("an Events payload was expected, not {:?}", other),
    }
}

#[test]
fn payload_of_action_rule_names_the_receipt() {
    let block = read_local_streamer_message(93085141);
    let rule = action_any("whatever", Status::Fail);
    let outcome = &block.shards[0].receipt_execution_outcomes[0];
    assert_eq!(
        build_indexer_rule_match_payload(&rule, outcome, "hash".to_string()),
        Some(IndexerRuleMatchPayload::Actions {
            block_hash: "hash".to_string(),
            receipt_id: "3A7cmJzJuGbxUFSyqZX2q69sg3LChXUz9tDVLfacW2nS".to_string(),
            transaction_hash: None,
        })
    );
}
