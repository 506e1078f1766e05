use indexer_rules_engine::registry::{IndexerFunction, IndexerRegistry, Provisioning};
use indexer_rules_engine::types::indexer_rule::{
    IndexerRule, IndexerRuleKind, MatchingRule, Status,
};

fn function(account_id: &str, function_name: &str) -> IndexerFunction {
    IndexerFunction {
        account_id: account_id.to_string(),
        function_name: function_name.to_string(),
        code: "".to_string(),
        start_block_height: None,
        schema: None,
        provisioned: false,
        indexer_rule: IndexerRule {
            indexer_rule_kind: IndexerRuleKind::Action,
            id: None,
            name: None,
            matching_rule: MatchingRule::ActionAny {
                affected_account_id: "social.near".to_string(),
                status: Status::Success,
            },
        },
    }
}

#[test]
fn set_provisioning_finds_functions_in_registry() {
    let mut indexer_registry = IndexerRegistry::new();
    let indexer_function = IndexerFunction {
        account_id: "test_near".to_string(),
        function_name: "test_indexer".to_string(),
        code: "".to_string(),
        start_block_height: None,
        schema: None,
        provisioned: false,
        indexer_rule: IndexerRule {
            indexer_rule_kind: IndexerRuleKind::Action,
            id: None,
            name: None,
            matching_rule: MatchingRule::ActionAny {
                affected_account_id: "social.near".to_string(),
                status: Status::Success,
            },
        },
    };

    indexer_registry.insert(indexer_function.clone());

    indexer_registry
        .set_provisioned_flag(&indexer_function.account_id, &indexer_function.function_name);

    let indexer_function = indexer_registry
        .get(&indexer_function.account_id, &indexer_function.function_name)
        .unwrap();

    assert!(indexer_function.provisioned);
}

#[test]
fn marking_tells_unknown_function_from_unknown_account() {
    let mut registry = IndexerRegistry::new();
    registry.insert(function("a.near", "one"));
    registry.insert(function("a.near", "two"));
    registry.insert(function("b.near", "one"));
    assert_eq!(registry.set_provisioned_flag("a.near", "two"), Provisioning::Marked);
    assert_eq!(registry.set_provisioned_flag("a.near", "three"), Provisioning::UnknownFunction);
    assert_eq!(registry.set_provisioned_flag("c.near", "one"), Provisioning::UnknownAccount);
    assert_eq!(registry.set_provisioned_flag("", ""), Provisioning::UnknownAccount);
    let flags: Vec<bool> = registry.functions().iter().map(|f| f.provisioned).collect();
    assert_eq!(flags, vec![false, true, false]);
    assert_eq!(registry.set_provisioned_flag("a.near", "two"), Provisioning::Marked);
    let flags: Vec<bool> = registry.functions().iter().map(|f| f.provisioned).collect();
    assert_eq!(flags, vec![false, true, false]);
}

#[test]
fn insert_replaces_function_of_same_account_and_name() {
    let mut registry = IndexerRegistry::new();
    assert_eq!(registry.insert(function("a.near", "one")), None);
    assert_eq!(registry.insert(function("b.near", "one")), None);
    let mut newer = function("a.near", "one");
    newer.code = "return 1".to_string();
    assert_eq!(registry.insert(newer.clone()), Some(function("a.near", "one")));
    assert_eq!(registry.functions(), &vec![newer.clone(), function("b.near", "one")]);
    assert_eq!(registry.get("a.near", "one"), Some(&newer));
    assert_eq!(registry.get("a.near", "two"), None);
    assert_eq!(registry.get("one", "a.near"), None);
    assert!(registry.knows_account("a.near"));
    assert!(registry.knows_account("b.near"));
    assert!(!registry.knows_account("one"));
}

#[test]
fn full_name_is_account_slash_function() {
    assert_eq!(function("a.near", "one").get_full_name(), "a.near/one");
    assert_eq!(function("", "").get_full_name(), "/");
}
