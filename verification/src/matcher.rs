//! The predicate matcher: whether the outcome of one receipt satisfies a rule.

use crate::glob::{glob_match, glob_matches, wildcard_matches_everything, WILDCARD};
use crate::pattern::{
    any_token_matches,
    blank_list_matches_nothing,
    contains_token,
    has_token,
    is_ascii_whitespace,
    matches_any_token,
    single_token_list,
    SEPARATOR,
};
use crate::text::{chars_of, strings_view};
use crate::types::block::{
    Action,
    ActionView,
    ExecutionStatus,
    OutcomeView,
    ReceiptExecutionOutcome,
};
use crate::types::events::{event_of_log, Event, EventView};
use crate::types::indexer_rule::{MatchingRule, MatchingRuleView, Status};
use vstd::prelude::*;

verus! {

/// Whether the status filter `filter` lets `status` pass. `Fail` lets pass whatever
/// is not a success.
pub open spec fn status_matches(filter: Status, status: ExecutionStatus) -> bool {
    match filter {
        Status::Any => true,
        Status::Success => status.is_success(),
        Status::Fail => !status.is_success(),
    }
}

/// Whether the receipt of `outcome` touches one of the accounts that the account
/// pattern `account_pattern` lists: whether one of its tokens matches the receiver.
pub open spec fn account_matches(account_pattern: Seq<char>, outcome: OutcomeView) -> bool {
    any_token_matches(account_pattern, outcome.receipt.receiver_id)
}

/// Whether `action` calls one of the methods that the method pattern `functions` lists.
pub open spec fn calls_one_of(action: ActionView, functions: Seq<char>) -> bool {
    action matches ActionView::FunctionCall { method_name, .. } && has_token(
        functions,
        method_name,
    )
}

/// Whether some action among `actions` calls one of the methods that `functions` lists.
pub open spec fn some_action_calls(actions: Seq<ActionView>, functions: Seq<char>) -> bool {
    exists|i: int| 0 <= i < actions.len() && calls_one_of(#[trigger] actions[i], functions)
}

/// Whether each of the three names of `record` matches its glob.
pub open spec fn event_matches(
    event: Seq<char>,
    standard: Seq<char>,
    version: Seq<char>,
    record: EventView,
) -> bool {
    &&& glob_matches(event, record.event)
    &&& glob_matches(standard, record.standard)
    &&& glob_matches(version, record.version)
}

/// Whether `log` is an event log whose record matches the three globs.
pub open spec fn log_matches(
    event: Seq<char>,
    standard: Seq<char>,
    version: Seq<char>,
    log: Seq<char>,
) -> bool {
    event_of_log(log) matches Ok(record) && event_matches(event, standard, version, record)
}

/// The record of the first log among `logs` that matches the three globs.
pub open spec fn first_matching_event(
    event: Seq<char>,
    standard: Seq<char>,
    version: Seq<char>,
    logs: Seq<Seq<char>>,
) -> Option<EventView>
    decreases logs.len(),
{
    if logs.len() == 0 {
        None
    } else if log_matches(event, standard, version, logs[0]) {
        Some(event_of_log(logs[0])->Ok_0)
    } else {
        first_matching_event(event, standard, version, logs.drop_first())
    }
}

/// Whether `outcome` satisfies `rule`.
///
/// Every rule asks that the receiver be one of the accounts it lists. Besides that,
/// `ActionAny` asks for the status and for an action of any kind; `ActionFunctionCall`
/// for the status and for a call of one of the listed methods; `Event` for a log that
/// holds a matching event record. An `Event` rule carries no status filter: to it every
/// status is welcome.
pub open spec fn rule_matches(rule: MatchingRuleView, outcome: OutcomeView) -> bool {
    match rule {
        MatchingRuleView::ActionAny { affected_account_id, status } => {
            &&& status_matches(status, outcome.execution_outcome.status)
            &&& account_matches(affected_account_id, outcome)
            &&& outcome.receipt.actions.len() > 0
        },
        MatchingRuleView::ActionFunctionCall { affected_account_id, status, function } => {
            &&& status_matches(status, outcome.execution_outcome.status)
            &&& account_matches(affected_account_id, outcome)
            &&& some_action_calls(outcome.receipt.actions, function)
        },
        MatchingRuleView::Event { contract_account_id, standard, version, event } => {
            &&& account_matches(contract_account_id, outcome)
            &&& first_matching_event(event, standard, version, outcome.execution_outcome.logs) is Some
        },
    }
}

/// A rule whose account pattern has no token selects nothing, whatever else it asks
/// for. The empty pattern is such a pattern.
pub proof fn blank_account_pattern_matches_nothing(rule: MatchingRuleView, outcome: OutcomeView)
    requires
        forall|k: int|
            0 <= k < rule.account_pattern().len() ==> rule.account_pattern()[k] == SEPARATOR
                || is_ascii_whitespace(#[trigger] rule.account_pattern()[k]),
    ensures
        !rule_matches(rule, outcome),
{
    blank_list_matches_nothing(rule.account_pattern(), outcome.receipt.receiver_id);
}

/// The account pattern `*` lets every receiver pass: an `ActionAny` rule with it
/// selects every receipt that has an action and passes the status filter.
pub proof fn wildcard_account_pattern_matches_every_receiver(status: Status, outcome: OutcomeView)
    ensures
        account_matches(seq![WILDCARD], outcome),
        rule_matches(
            MatchingRuleView::ActionAny { affected_account_id: seq![WILDCARD], status },
            outcome,
        ) == (status_matches(status, outcome.execution_outcome.status)
            && outcome.receipt.actions.len() > 0),
{
    let list = seq![WILDCARD];
    assert(list.len() == 1 && list[0] == WILDCARD);
    single_token_list(list, outcome.receipt.receiver_id);
    wildcard_matches_everything(outcome.receipt.receiver_id);
}

/// With `*` for each of the three globs, every event log matches.
pub proof fn wildcard_globs_match_every_event(log: Seq<char>)
    ensures
        log_matches(seq![WILDCARD], seq![WILDCARD], seq![WILDCARD], log) == (event_of_log(
            log,
        ) is Ok),
{
    if event_of_log(log) is Ok {
        let record = event_of_log(log)->Ok_0;
        wildcard_matches_everything(record.event);
        wildcard_matches_everything(record.standard);
        wildcard_matches_everything(record.version);
    }
}

/// The first match lies in what is left of the logs once logs that do not match are
/// taken off the front.
pub proof fn lemma_first_matching_event_skip(
    event: Seq<char>,
    standard: Seq<char>,
    version: Seq<char>,
    logs: Seq<Seq<char>>,
    i: int,
)
    requires
        0 <= i <= logs.len(),
        forall|k: int| 0 <= k < i ==> !log_matches(event, standard, version, #[trigger] logs[k]),
    ensures
        first_matching_event(event, standard, version, logs) == first_matching_event(
            event,
            standard,
            version,
            logs.skip(i),
        ),
    decreases i,
{
    if i == 0 {
        assert(logs.skip(0) =~= logs);
    } else {
        assert(!log_matches(event, standard, version, logs[0]));
        lemma_first_matching_event_skip(event, standard, version, logs.drop_first(), i - 1);
        assert(logs.drop_first().skip(i - 1) =~= logs.skip(i));
    }
}

/// The record that `first_matching_event` finds matches the three globs.
pub proof fn lemma_first_matching_event_matches(
    event: Seq<char>,
    standard: Seq<char>,
    version: Seq<char>,
    logs: Seq<Seq<char>>,
)
    ensures
        first_matching_event(event, standard, version, logs) matches Some(record)
            ==> event_matches(event, standard, version, record),
    decreases logs.len(),
{
    if logs.len() > 0 && !log_matches(event, standard, version, logs[0]) {
        lemma_first_matching_event_matches(event, standard, version, logs.drop_first());
    }
}

/// Whether `outcome` satisfies `matching_rule`.
pub fn matches(matching_rule: &MatchingRule, outcome: &ReceiptExecutionOutcome) -> (matched: bool)
    ensures
        matched == rule_matches(matching_rule@, outcome@),
{
    match matching_rule {
        MatchingRule::ActionAny { affected_account_id, status } => match_action_any(
            affected_account_id.as_str(),
            status,
            outcome,
        ),
        MatchingRule::ActionFunctionCall {
            affected_account_id,
            status,
            function,
        } => match_action_function_call(
            affected_account_id.as_str(),
            status,
            function.as_str(),
            outcome,
        ),
        MatchingRule::Event { contract_account_id, standard, version, event } => match_event(
            contract_account_id.as_str(),
            event.as_str(),
            standard.as_str(),
            version.as_str(),
            outcome,
        ),
    }
}

/// Whether the status filter lets the execution status pass.
pub fn match_status(status: &Status, execution_status: &ExecutionStatus) -> (matched: bool)
    ensures
        matched == status_matches(*status, *execution_status),
{
    match status {
        Status::Any => true,
        Status::Success => execution_status.succeeded(),
        Status::Fail => !execution_status.succeeded(),
    }
}

/// Whether the receiver of the receipt is one of the accounts that `account_id` lists.
pub fn match_account(account_id: &str, outcome: &ReceiptExecutionOutcome) -> (matched: bool)
    ensures
        matched == account_matches(account_id@, outcome@),
{
    let accounts = chars_of(account_id);
    let receiver = chars_of(outcome.receipt.receiver_id.as_str());
    matches_any_token(accounts.as_slice(), receiver.as_slice())
}

fn match_action_any(account_id: &str, status: &Status, outcome: &ReceiptExecutionOutcome) -> (matched:
    bool)
    ensures
        matched == (status_matches(*status, outcome@.execution_outcome.status) && account_matches(
            account_id@,
            outcome@,
        ) && outcome@.receipt.actions.len() > 0),
{
    match_status(status, &outcome.execution_outcome.status) && match_account(account_id, outcome)
        && outcome.receipt.actions.len() > 0
}

fn match_action_function_call(
    account_id: &str,
    status: &Status,
    function: &str,
    outcome: &ReceiptExecutionOutcome,
) -> (matched: bool)
    ensures
        matched == (status_matches(*status, outcome@.execution_outcome.status) && account_matches(
            account_id@,
            outcome@,
        ) && some_action_calls(outcome@.receipt.actions, function@)),
{
    if !match_status(status, &outcome.execution_outcome.status) {
        return false;
    }
    if !match_account(account_id, outcome) {
        return false;
    }
    let functions = chars_of(function);
    let actions = &outcome.receipt.actions;
    let mut i: usize = 0;
    while i < actions.len()
        invariant
            i <= actions@.len(),
            actions@ == outcome.receipt.actions@,
            functions@ == function@,
            status_matches(*status, outcome@.execution_outcome.status),
            account_matches(account_id@, outcome@),
            forall|k: int|
                0 <= k < i ==> !calls_one_of(#[trigger] outcome@.receipt.actions[k], function@),
        decreases actions@.len() - i,
    {
        assert(outcome@.receipt.actions[i as int] == actions@[i as int]@);
        if let Action::FunctionCall { method_name, .. } = &actions[i] {
            let method = chars_of(method_name.as_str());
            if contains_token(functions.as_slice(), method.as_slice()) {
                assert(calls_one_of(outcome@.receipt.actions[i as int], function@));
                return true;
            }
        }
        i = i + 1;
    }
    false
}

fn match_event(
    account_id: &str,
    event: &str,
    standard: &str,
    version: &str,
    outcome: &ReceiptExecutionOutcome,
) -> (matched: bool)
    ensures
        matched == (account_matches(account_id@, outcome@) && first_matching_event(
            event@,
            standard@,
            version@,
            outcome@.execution_outcome.logs,
        ) is Some),
{
    match_account(account_id, outcome) && first_matching_event_in(
        event,
        standard,
        version,
        &outcome.execution_outcome.logs,
    ).is_some()
}

/// Whether the text `text` matches the glob `glob`.
pub fn glob_matches_text(glob: &[char], text: &str) -> (matched: bool)
    ensures
        matched == glob_matches(glob@, text@),
{
    let chars = chars_of(text);
    glob_match(glob, chars.as_slice())
}

/// The event record of the first log, in log order, that is an event log and whose
/// `event`, `standard` and `version` each match their glob. Logs that are no event
/// logs are passed over.
pub fn first_matching_event_in(event: &str, standard: &str, version: &str, logs: &Vec<String>) -> (found:
    Option<Event>)
    ensures
        match found {
            Some(record) => first_matching_event(
                event@,
                standard@,
                version@,
                strings_view(logs@),
            ) == Some(record@),
            None => first_matching_event(event@, standard@, version@, strings_view(logs@)) is None,
        },
{
    let event_glob = chars_of(event);
    let standard_glob = chars_of(standard);
    let version_glob = chars_of(version);
    let mut i: usize = 0;
    while i < logs.len()
        invariant
            i <= logs@.len(),
            event_glob@ == event@,
            standard_glob@ == standard@,
            version_glob@ == version@,
            forall|k: int|
                0 <= k < i ==> !log_matches(
                    event@,
                    standard@,
                    version@,
                    #[trigger] strings_view(logs@)[k],
                ),
        decreases logs@.len() - i,
    {
        proof {
            lemma_first_matching_event_skip(
                event@,
                standard@,
                version@,
                strings_view(logs@),
                i as int,
            );
            assert(strings_view(logs@)[i as int] == logs@[i as int]@);
        }
        if let Ok(record) = Event::from_log(logs[i].as_str()) {
            if glob_matches_text(event_glob.as_slice(), record.event.as_str()) && glob_matches_text(
                standard_glob.as_slice(),
                record.standard.as_str(),
            ) && glob_matches_text(version_glob.as_slice(), record.version.as_str()) {
                return Some(record);
            }
        }
        i = i + 1;
    }
    proof {
        lemma_first_matching_event_skip(
            event@,
            standard@,
            version@,
            strings_view(logs@),
            i as int,
        );
    }
    None
}

} // verus!
