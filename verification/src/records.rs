//! Vulnerability and technique records, and how each is read from JSON.

use vstd::prelude::*;
use crate::error::{result_view, FetchError, FetchFailure};
use crate::json::{
    item_trees, json_document, optional_text, parse_document, read_optional_text,
    read_required_text, required_text, JsonTree, JsonValue,
};

verus! {

/// A known security flaw: its identifier and, where the source gave one, its
/// description.
#[derive(Debug, PartialEq, Eq)]
pub struct CVE {
    pub id: String,
    pub description: Option<String>,
}

/// The mathematical value of a `CVE`.
pub ghost struct VulnerabilityRecord {
    pub id: Seq<char>,
    pub description: Option<Seq<char>>,
}

impl View for CVE {
    type V = VulnerabilityRecord;

    open spec fn view(&self) -> VulnerabilityRecord {
        VulnerabilityRecord { id: self.id@, description: self.description.deep_view() }
    }
}

impl DeepView for CVE {
    type V = VulnerabilityRecord;

    open spec fn deep_view(&self) -> VulnerabilityRecord {
        self@
    }
}

/// A method that adversaries use: its identifier, name and description.
#[derive(Debug, PartialEq, Eq)]
pub struct MitreTechnique {
    pub id: String,
    pub name: String,
    pub description: String,
}

/// The mathematical value of a `MitreTechnique`.
pub ghost struct TechniqueRecord {
    pub id: Seq<char>,
    pub name: Seq<char>,
    pub description: Seq<char>,
}

impl View for MitreTechnique {
    type V = TechniqueRecord;

    open spec fn view(&self) -> TechniqueRecord {
        TechniqueRecord { id: self.id@, name: self.name@, description: self.description@ }
    }
}

impl DeepView for MitreTechnique {
    type V = TechniqueRecord;

    open spec fn deep_view(&self) -> TechniqueRecord {
        self@
    }
}

/// The vulnerability record that a JSON value holds, if it has the shape of
/// one: an object with one `id`, a string, and at most one `description`, a
/// string or null. Members under other names do not count.
pub open spec fn vulnerability_of(item: JsonTree) -> Option<VulnerabilityRecord> {
    match item {
        JsonTree::Object(members) => match (
            required_text(members, "id"@),
            optional_text(members, "description"@),
        ) {
            (Some(id), Some(description)) => Some(VulnerabilityRecord { id, description }),
            _ => None,
        },
        _ => None,
    }
}

/// The technique record that a JSON value holds, if it has the shape of one:
/// an object with one `id`, one `name` and one `description`, each a string.
/// Members under other names do not count.
pub open spec fn technique_of(item: JsonTree) -> Option<TechniqueRecord> {
    match item {
        JsonTree::Object(members) => match (
            required_text(members, "id"@),
            required_text(members, "name"@),
            required_text(members, "description"@),
        ) {
            (Some(id), Some(name), Some(description)) => Some(
                TechniqueRecord { id, name, description },
            ),
            _ => None,
        },
        _ => None,
    }
}

/// The vulnerability records that a document holds: it is an array, and each
/// of its items has the shape of a record, or the whole is a deserialization
/// failure.
pub open spec fn decoded_vulnerabilities(doc: JsonTree) -> Result<
    Seq<VulnerabilityRecord>,
    FetchFailure,
> {
    match doc {
        JsonTree::Array(items) => if forall|i: int|
            0 <= i < items.len() ==> (#[trigger] vulnerability_of(items[i])) is Some {
            Ok(Seq::new(items.len(), |i: int| vulnerability_of(items[i])->Some_0))
        } else {
            Err(FetchFailure::Deserialization)
        },
        _ => Err(FetchFailure::Deserialization),
    }
}

/// The technique records that a document holds: it is an array, and each of
/// its items has the shape of a record, or the whole is a deserialization
/// failure.
pub open spec fn decoded_techniques(doc: JsonTree) -> Result<Seq<TechniqueRecord>, FetchFailure> {
    match doc {
        JsonTree::Array(items) => if forall|i: int|
            0 <= i < items.len() ==> (#[trigger] technique_of(items[i])) is Some {
            Ok(Seq::new(items.len(), |i: int| technique_of(items[i])->Some_0))
        } else {
            Err(FetchFailure::Deserialization)
        },
        _ => Err(FetchFailure::Deserialization),
    }
}

/// What a response body gives when read as vulnerability records.
pub open spec fn parsed_vulnerabilities(body: Seq<u8>) -> Result<
    Seq<VulnerabilityRecord>,
    FetchFailure,
> {
    match json_document(body) {
        Some(doc) => decoded_vulnerabilities(doc),
        None => Err(FetchFailure::Deserialization),
    }
}

/// What a response body gives when read as technique records.
pub open spec fn parsed_techniques(body: Seq<u8>) -> Result<Seq<TechniqueRecord>, FetchFailure> {
    match json_document(body) {
        Some(doc) => decoded_techniques(doc),
        None => Err(FetchFailure::Deserialization),
    }
}

/// Reads one vulnerability record from a JSON value.
pub fn decode_cve(item: &JsonValue) -> (r: Option<CVE>)
    ensures
        r.deep_view() == vulnerability_of(item@),
{
    match item {
        JsonValue::Object(members) => {
            match (read_required_text(members, "id"), read_optional_text(members, "description")) {
                (Some(id), Some(description)) => Some(CVE { id, description }),
                _ => None,
            }
        },
        _ => None,
    }
}

/// Reads one technique record from a JSON value.
pub fn decode_technique(item: &JsonValue) -> (r: Option<MitreTechnique>)
    ensures
        r.deep_view() == technique_of(item@),
{
    match item {
        JsonValue::Object(members) => {
            match (
                read_required_text(members, "id"),
                read_required_text(members, "name"),
                read_required_text(members, "description"),
            ) {
                (Some(id), Some(name), Some(description)) => Some(
                    MitreTechnique { id, name, description },
                ),
                _ => None,
            }
        },
        _ => None,
    }
}

/// Reads the vulnerability records of a decoded document.
pub fn decode_cves(doc: &JsonValue) -> (r: Result<Vec<CVE>, FetchError>)
    ensures
        result_view(r) == decoded_vulnerabilities(doc@),
{
    match doc {
        JsonValue::Array(items) => {
            let ghost trees = item_trees(items@);
            let mut records: Vec<CVE> = Vec::new();
            let mut i: usize = 0;
            while i < items.len()
                invariant
                    i <= items.len(),
                    trees == item_trees(items@),
                    doc@ == JsonTree::Array(trees),
                    records.len() == i,
                    forall|j: int|
                        #![trigger records[j]]
                        #![trigger trees[j]]
                        0 <= j < i ==> vulnerability_of(trees[j]) == Some(records[j]@),
                decreases items.len() - i,
            {
                match decode_cve(&items[i]) {
                    Some(record) => {
                        records.push(record);
                    },
                    None => {
                        assert(vulnerability_of(trees[i as int]) is None);
                        return Err(FetchError::Deserialization);
                    },
                }
                i += 1;
            }
            assert(decoded_vulnerabilities(doc@) is Ok);
            assert(records.deep_view() =~= decoded_vulnerabilities(doc@)->Ok_0);
            Ok(records)
        },
        _ => Err(FetchError::Deserialization),
    }
}

/// Reads the technique records of a decoded document.
pub fn decode_techniques(doc: &JsonValue) -> (r: Result<Vec<MitreTechnique>, FetchError>)
    ensures
        result_view(r) == decoded_techniques(doc@),
{
    match doc {
        JsonValue::Array(items) => {
            let ghost trees = item_trees(items@);
            let mut records: Vec<MitreTechnique> = Vec::new();
            let mut i: usize = 0;
            while i < items.len()
                invariant
                    i <= items.len(),
                    trees == item_trees(items@),
                    doc@ == JsonTree::Array(trees),
                    records.len() == i,
                    forall|j: int|
                        #![trigger records[j]]
                        #![trigger trees[j]]
                        0 <= j < i ==> technique_of(trees[j]) == Some(records[j]@),
                decreases items.len() - i,
            {
                match decode_technique(&items[i]) {
                    Some(record) => {
                        records.push(record);
                    },
                    None => {
                        assert(technique_of(trees[i as int]) is None);
                        return Err(FetchError::Deserialization);
                    },
                }
                i += 1;
            }
            assert(decoded_techniques(doc@) is Ok);
            assert(records.deep_view() =~= decoded_techniques(doc@)->Ok_0);
            Ok(records)
        },
        _ => Err(FetchError::Deserialization),
    }
}

/// Reads a response body as vulnerability records.
pub fn parse_cves(body: &[u8]) -> (r: Result<Vec<CVE>, FetchError>)
    ensures
        result_view(r) == parsed_vulnerabilities(body@),
{
    match parse_document(body) {
        Some(doc) => decode_cves(&doc),
        None => Err(FetchError::Deserialization),
    }
}

/// Reads a response body as technique records.
pub fn parse_techniques(body: &[u8]) -> (r: Result<Vec<MitreTechnique>, FetchError>)
    ensures
        result_view(r) == parsed_techniques(body@),
{
    match parse_document(body) {
        Some(doc) => decode_techniques(&doc),
        None => Err(FetchError::Deserialization),
    }
}

} // verus!
