use vstd::prelude::*;
use vstd::string::*;

use crate::responses::EventType;
use crate::strutil::{dec_str, u32_to_dec_string};

verus! {

/// One filter group of the event-log query, as it goes on the wire:
/// `event_type` is the serialized kind, and `None` means the field is
/// omitted entirely (which is how "all" is expressed). The contract-id and
/// topic lists are always present, even when empty — an empty list is a
/// meaningful filter value, not the same as "unset".
pub struct EventFilterParam {
    pub event_type: Option<String>,
    pub contract_ids: Vec<String>,
    pub topics: Vec<String>,
}

/// The pagination object of the event-log query: a result-count limit when
/// the caller supplied one, and nothing else (cursor-based pagination is
/// not implemented).
pub struct PaginationParam {
    pub limit: Option<usize>,
}

/// The keyed parameter object of the `getEvents` method. The ledger bounds
/// are decimal strings; `filters` always holds exactly one filter group.
pub struct GetEventsParams {
    pub start_ledger: String,
    pub end_ledger: String,
    pub filters: Vec<EventFilterParam>,
    pub pagination: PaginationParam,
}

/// The serialized event kind: `All` is never serialized; `Contract` and
/// `System` become their lower-case wire words.
pub open spec fn wire_event_type(t: Option<EventType>) -> Option<Seq<char>> {
    match t {
        None => None,
        Some(EventType::All) => None,
        Some(EventType::Contract) => Some("contract"@),
        Some(EventType::System) => Some("system"@),
    }
}

/// Copies a list of id or topic strings into the parameter object.
fn copy_string_list(v: &[String]) -> (r: Vec<String>)
    ensures
        r.deep_view() == v.deep_view(),
        r@.len() == v@.len(),
        forall|j: int| 0 <= j < v@.len() ==> r@[j]@ == v@[j]@,
{
    let mut r: Vec<String> = Vec::new();
    let mut i: usize = 0;
    while i < v.len()
        invariant
            0 <= i <= v.len(),
            r.len() == i,
            forall|j: int| 0 <= j < i ==> r.deep_view()[j] == v.deep_view()[j],
            forall|j: int| 0 <= j < i ==> r@[j]@ == v@[j]@,
        decreases v.len() - i,
    {
        r.push(v[i].clone());
        i += 1;
    }
    proof {
        assert(r.deep_view() =~= v.deep_view());
    }
    r
}

/// Assembles the keyed parameter object of the `getEvents` method from the
/// caller's loosely-optional inputs: ledger bounds as decimal strings, one
/// filter group whose kind field is omitted for "all", the id and topic
/// lists always present, and a limit only when one was supplied.
pub fn build_get_events_params(
    start_ledger: u32,
    end_ledger: u32,
    event_type: Option<EventType>,
    contract_ids: &[String],
    topics: &[String],
    limit: Option<usize>,
) -> (p: GetEventsParams)
    ensures
        p.start_ledger@ == dec_str(start_ledger as nat),
        p.end_ledger@ == dec_str(end_ledger as nat),
        p.filters.len() == 1,
        p.filters[0].event_type.deep_view() == wire_event_type(event_type),
        p.filters[0].contract_ids.deep_view() == contract_ids.deep_view(),
        p.filters[0].topics.deep_view() == topics.deep_view(),
        p.filters[0].contract_ids@.len() == contract_ids@.len(),
        forall|j: int| 0 <= j < contract_ids@.len() ==> p.filters[0].contract_ids@[j]@
            == contract_ids@[j]@,
        p.filters[0].topics@.len() == topics@.len(),
        forall|j: int| 0 <= j < topics@.len() ==> p.filters[0].topics@[j]@ == topics@[j]@,
        p.pagination.limit == limit,
{
    let wire_type: Option<String> = match event_type {
        None => None,
        Some(EventType::All) => None,
        Some(EventType::Contract) => Some(String::from_str("contract")),
        Some(EventType::System) => Some(String::from_str("system")),
    };
    let filter = EventFilterParam {
        event_type: wire_type,
        contract_ids: copy_string_list(contract_ids),
        topics: copy_string_list(topics),
    };
    let mut filters: Vec<EventFilterParam> = Vec::new();
    filters.push(filter);
    GetEventsParams {
        start_ledger: u32_to_dec_string(start_ledger),
        end_ledger: u32_to_dec_string(end_ledger),
        filters,
        pagination: PaginationParam { limit },
    }
}

} // verus!
