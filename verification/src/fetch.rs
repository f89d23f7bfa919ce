//! What a request came back with, and the records read from it.

use vstd::prelude::*;
use crate::error::{result_view, FetchError, FetchFailure};
use crate::json::{
    holds_none, holds_once, json_document, lemma_field_held_by_none, lemma_field_held_once,
    JsonTree,
};
use crate::records::{
    decoded_techniques, decoded_vulnerabilities, parse_cves, parse_techniques, parsed_techniques,
    parsed_vulnerabilities, technique_of, vulnerability_of, MitreTechnique, TechniqueRecord,
    VulnerabilityRecord, CVE,
};
use crate::report::shown_description;

verus! {

/// How one GET request ended.
#[derive(Debug, PartialEq, Eq)]
pub enum Outcome {
    /// The whole response body, as it arrived.
    Body(Vec<u8>),
    /// The transport failed; the text is its own account of the failure.
    Unreachable(String),
}

/// The mathematical value of an `Outcome`.
pub ghost enum Reply {
    Body(Seq<u8>),
    Unreachable(Seq<char>),
}

impl View for Outcome {
    type V = Reply;

    open spec fn view(&self) -> Reply {
        match self {
            Outcome::Body(body) => Reply::Body(body@),
            Outcome::Unreachable(detail) => Reply::Unreachable(detail@),
        }
    }
}

/// What the vulnerability fetch gives for a reply: the records of its body,
/// a deserialization failure where the body does not hold them, a network
/// failure where the transport failed.
pub open spec fn fetched_vulnerabilities(reply: Reply) -> Result<
    Seq<VulnerabilityRecord>,
    FetchFailure,
> {
    match reply {
        Reply::Body(body) => parsed_vulnerabilities(body),
        Reply::Unreachable(detail) => Err(FetchFailure::Network(detail)),
    }
}

/// What the technique fetch gives for a reply: the records of its body, a
/// deserialization failure where the body does not hold them, a network
/// failure where the transport failed.
pub open spec fn fetched_techniques(reply: Reply) -> Result<Seq<TechniqueRecord>, FetchFailure> {
    match reply {
        Reply::Body(body) => parsed_techniques(body),
        Reply::Unreachable(detail) => Err(FetchFailure::Network(detail)),
    }
}

/// The vulnerability records that a request came back with.
pub fn cves_from(outcome: &Outcome) -> (r: Result<Vec<CVE>, FetchError>)
    ensures
        result_view(r) == fetched_vulnerabilities(outcome@),
{
    match outcome {
        Outcome::Body(body) => parse_cves(body.as_slice()),
        Outcome::Unreachable(detail) => Err(FetchError::Network(detail.clone())),
    }
}

/// The technique records that a request came back with.
pub fn techniques_from(outcome: &Outcome) -> (r: Result<Vec<MitreTechnique>, FetchError>)
    ensures
        result_view(r) == fetched_techniques(outcome@),
{
    match outcome {
        Outcome::Body(body) => parse_techniques(body.as_slice()),
        Outcome::Unreachable(detail) => Err(FetchError::Network(detail.clone())),
    }
}

/// Whether a JSON value is an object that states `record`: one `id` with the
/// record's identifier; one `description` with its description, or, where the
/// record has none, no `description` or one that is null.
pub open spec fn states_vulnerability(item: JsonTree, record: VulnerabilityRecord) -> bool {
    match item {
        JsonTree::Object(members) => {
            &&& holds_once(members, "id"@, JsonTree::Text(record.id))
            &&& match record.description {
                Some(text) => holds_once(members, "description"@, JsonTree::Text(text)),
                None => holds_none(members, "description"@) || holds_once(
                    members,
                    "description"@,
                    JsonTree::Null,
                ),
            }
        },
        _ => false,
    }
}

/// Whether a JSON value is an object that states `record`: one `id`, one
/// `name` and one `description`, each with the record's string.
pub open spec fn states_technique(item: JsonTree, record: TechniqueRecord) -> bool {
    match item {
        JsonTree::Object(members) => {
            &&& holds_once(members, "id"@, JsonTree::Text(record.id))
            &&& holds_once(members, "name"@, JsonTree::Text(record.name))
            &&& holds_once(members, "description"@, JsonTree::Text(record.description))
        },
        _ => false,
    }
}

/// A body that is a JSON array of vulnerability objects gives as many
/// records, in the same order and with the same identifiers and descriptions;
/// a record without a description is shown with the placeholder.
pub proof fn lemma_vulnerability_fetch_keeps_records(
    body: Seq<u8>,
    items: Seq<JsonTree>,
    records: Seq<VulnerabilityRecord>,
)
    requires
        json_document(body) == Some(JsonTree::Array(items)),
        items.len() == records.len(),
        forall|i: int| 0 <= i < items.len() ==> states_vulnerability(items[i], records[i]),
    ensures
        fetched_vulnerabilities(Reply::Body(body)) == Ok::<_, FetchFailure>(records),
        forall|i: int|
            0 <= i < records.len() && records[i].description is None ==> shown_description(
                #[trigger] records[i],
            ) == "No description"@,
        forall|i: int|
            0 <= i < records.len() && records[i].description is Some ==> shown_description(
                #[trigger] records[i],
            ) == records[i].description->Some_0,
{
    assert forall|i: int| 0 <= i < items.len() implies #[trigger] vulnerability_of(items[i])
        == Some(records[i]) by {
        assert(states_vulnerability(items[i], records[i]));
        let members = items[i]->Object_0;
        lemma_field_held_once(members, "id"@, JsonTree::Text(records[i].id));
        match records[i].description {
            Some(text) => {
                lemma_field_held_once(members, "description"@, JsonTree::Text(text));
            },
            None => {
                if holds_none(members, "description"@) {
                    lemma_field_held_by_none(members, "description"@);
                } else {
                    lemma_field_held_once(members, "description"@, JsonTree::Null);
                }
            },
        }
    }
    assert(decoded_vulnerabilities(JsonTree::Array(items)) is Ok);
    assert(decoded_vulnerabilities(JsonTree::Array(items))->Ok_0 =~= records);
}

/// A body that is a JSON array of technique objects gives as many records, in
/// the same order and with the same identifiers, names and descriptions.
pub proof fn lemma_technique_fetch_keeps_records(
    body: Seq<u8>,
    items: Seq<JsonTree>,
    records: Seq<TechniqueRecord>,
)
    requires
        json_document(body) == Some(JsonTree::Array(items)),
        items.len() == records.len(),
        forall|i: int| 0 <= i < items.len() ==> states_technique(items[i], records[i]),
    ensures
        fetched_techniques(Reply::Body(body)) == Ok::<_, FetchFailure>(records),
{
    assert forall|i: int| 0 <= i < items.len() implies #[trigger] technique_of(items[i]) == Some(
        records[i],
    ) by {
        assert(states_technique(items[i], records[i]));
        let members = items[i]->Object_0;
        lemma_field_held_once(members, "id"@, JsonTree::Text(records[i].id));
        lemma_field_held_once(members, "name"@, JsonTree::Text(records[i].name));
        lemma_field_held_once(members, "description"@, JsonTree::Text(records[i].description));
    }
    assert(decoded_techniques(JsonTree::Array(items)) is Ok);
    assert(decoded_techniques(JsonTree::Array(items))->Ok_0 =~= records);
}

/// A body whose array holds an object without one of the three fields of a
/// technique gives a deserialization failure and no records at all.
pub proof fn lemma_technique_missing_field_is_rejected(
    body: Seq<u8>,
    items: Seq<JsonTree>,
    at: int,
    name: Seq<char>,
)
    requires
        json_document(body) == Some(JsonTree::Array(items)),
        0 <= at < items.len(),
        items[at] is Object,
        name == "id"@ || name == "name"@ || name == "description"@,
        holds_none(items[at]->Object_0, name),
    ensures
        fetched_techniques(Reply::Body(body)) == Err::<Seq<TechniqueRecord>, _>(
            FetchFailure::Deserialization,
        ),
{
    lemma_field_held_by_none(items[at]->Object_0, name);
    assert(technique_of(items[at]) is None);
}

} // verus!
