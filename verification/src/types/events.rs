//! Event records: what a contract reports in a log line that follows the event-log
//! convention.

use crate::json::{json_object_members, members_view, parse_json_object, JsonMember, JsonMemberView};
use crate::text::{option_view, same_text, starts_with};
use vstd::prelude::*;

verus! {

/// A parsed event log.
#[derive(Clone, Debug, PartialEq, Eq)]
pub struct Event {
    pub event: String,
    pub standard: String,
    pub version: String,
    /// The event's `data` member as compact JSON, where the log has one that is not
    /// `null`.
    pub data: Option<String>,
}

/// The mathematical content of an `Event`.
pub struct EventView {
    pub event: Seq<char>,
    pub standard: Seq<char>,
    pub version: Seq<char>,
    pub data: Option<Seq<char>>,
}

impl View for Event {
    type V = EventView;

    open spec fn view(&self) -> EventView {
        EventView {
            event: self.event@,
            standard: self.standard@,
            version: self.version@,
            data: option_view(self.data),
        }
    }
}

/// Why a log line is not an event log.
#[derive(Clone, Copy, Debug, PartialEq, Eq, Structural)]
pub enum EventError {
    /// The line does not begin with the event-log prefix.
    MissingPrefix,
    /// What follows the prefix is not one JSON object.
    NotAnObject,
    /// The object lacks `event`, `standard` or `version`.
    MissingField,
    /// `event`, `standard` or `version` is not a string.
    InvalidField,
}

/// What every event log begins with.
pub open spec fn event_log_prefix() -> Seq<char> {
    "EVENT_JSON:"@
}

/// The first member of `members` that is named `key`.
pub open spec fn find_member(members: Seq<JsonMemberView>, key: Seq<char>) -> Option<
    JsonMemberView,
>
    decreases members.len(),
{
    if members.len() == 0 {
        None
    } else if members[0].key == key {
        Some(members[0])
    } else {
        find_member(members.drop_first(), key)
    }
}

/// The string that the member `key` holds: it has to be there, and to be a string.
pub open spec fn required_string(members: Seq<JsonMemberView>, key: Seq<char>) -> Result<
    Seq<char>,
    EventError,
> {
    match find_member(members, key) {
        None => Err(EventError::MissingField),
        Some(member) => match member.string {
            Some(string) => Ok(string),
            None => Err(EventError::InvalidField),
        },
    }
}

/// The compact JSON of the member `key`, unless it is absent or `null`.
pub open spec fn optional_json(members: Seq<JsonMemberView>, key: Seq<char>) -> Option<Seq<char>> {
    match find_member(members, key) {
        Some(member) if !member.is_null => Some(member.json),
        _ => None,
    }
}

/// The event that a JSON object with the members `members` describes. `event`,
/// `standard` and `version` are looked at in this order, and the first one that is
/// missing or is not a string decides the error.
pub open spec fn event_of_members(members: Seq<JsonMemberView>) -> Result<EventView, EventError> {
    match required_string(members, "event"@) {
        Err(e) => Err(e),
        Ok(event) => match required_string(members, "standard"@) {
            Err(e) => Err(e),
            Ok(standard) => match required_string(members, "version"@) {
                Err(e) => Err(e),
                Ok(version) => Ok(
                    EventView { event, standard, version, data: optional_json(members, "data"@) },
                ),
            },
        },
    }
}

/// The event that the log line `log` holds.
pub open spec fn event_of_log(log: Seq<char>) -> Result<EventView, EventError> {
    if !event_log_prefix().is_prefix_of(log) {
        Err(EventError::MissingPrefix)
    } else {
        match json_object_members(log.skip(event_log_prefix().len() as int)) {
            None => Err(EventError::NotAnObject),
            Some(members) => event_of_members(members),
        }
    }
}

/// Whether `result` is what `expected` says, an `Event` standing for its view.
pub open spec fn is_event_result(
    result: Result<Event, EventError>,
    expected: Result<EventView, EventError>,
) -> bool {
    match result {
        Ok(event) => expected == Ok::<EventView, EventError>(event@),
        Err(error) => expected == Err::<EventView, EventError>(error),
    }
}

proof fn lemma_find_member_skip(members: Seq<JsonMemberView>, key: Seq<char>, i: int)
    requires
        0 <= i <= members.len(),
        forall|k: int| 0 <= k < i ==> members[k].key != key,
    ensures
        find_member(members, key) == find_member(members.skip(i), key),
    decreases i,
{
    if i == 0 {
        assert(members.skip(0) =~= members);
    } else {
        lemma_find_member_skip(members.drop_first(), key, i - 1);
        assert(members.drop_first().skip(i - 1) =~= members.skip(i));
    }
}

/// The first member named `key`.
fn member_named<'a>(members: &'a Vec<JsonMember>, key: &str) -> (found: Option<&'a JsonMember>)
    ensures
        match found {
            Some(member) => find_member(members_view(members@), key@) == Some(member@),
            None => find_member(members_view(members@), key@) is None,
        },
{
    let mut i: usize = 0;
    while i < members.len()
        invariant
            i <= members@.len(),
            forall|k: int| 0 <= k < i ==> members_view(members@)[k].key != key@,
        decreases members@.len() - i,
    {
        proof {
            lemma_find_member_skip(members_view(members@), key@, i as int);
        }
        if same_text(members[i].key.as_str(), key) {
            return Some(&members[i]);
        }
        i = i + 1;
    }
    proof {
        lemma_find_member_skip(members_view(members@), key@, i as int);
    }
    None
}

impl Event {
    /// Reads an event out of the members of a JSON object.
    pub fn from_members(members: &Vec<JsonMember>) -> (result: Result<Event, EventError>)
        ensures
            is_event_result(result, event_of_members(members_view(members@))),
    {
        let event = match member_named(members, "event") {
            None => { return Err(EventError::MissingField); },
            Some(member) => match &member.string {
                None => { return Err(EventError::InvalidField); },
                Some(string) => string.clone(),
            },
        };
        let standard = match member_named(members, "standard") {
            None => { return Err(EventError::MissingField); },
            Some(member) => match &member.string {
                None => { return Err(EventError::InvalidField); },
                Some(string) => string.clone(),
            },
        };
        let version = match member_named(members, "version") {
            None => { return Err(EventError::MissingField); },
            Some(member) => match &member.string {
                None => { return Err(EventError::InvalidField); },
                Some(string) => string.clone(),
            },
        };
        let data = match member_named(members, "data") {
            Some(member) => if member.is_null {
                None
            } else {
                Some(member.json.clone())
            },
            None => None,
        };
        Ok(Event { event, standard, version, data })
    }

    /// Reads an event out of a log line: the line has to begin with `EVENT_JSON:`,
    /// and what follows has to be a JSON object with the strings `event`,
    /// `standard` and `version`. Whatever else the object holds is passed over,
    /// but for `data`.
    pub fn from_log(log: &str) -> (result: Result<Event, EventError>)
        ensures
            is_event_result(result, event_of_log(log@)),
    {
        if !starts_with(log, "EVENT_JSON:") {
            return Err(EventError::MissingPrefix);
        }
        let rest = log.substring_char("EVENT_JSON:".unicode_len(), log.unicode_len());
        assert(rest@ =~= log@.skip(event_log_prefix().len() as int));
        match parse_json_object(rest) {
            Err(_) => Err(EventError::NotAnObject),
            Ok(members) => Event::from_members(&members),
        }
    }
}

} // verus!
