use cti_query::endpoints::{cves_url, techniques_url};
use cti_query::error::FetchError;
use cti_query::records::{MitreTechnique, CVE};
use cti_query::report::{
    render_cve, render_description, render_error, render_opening, render_technique_detail,
    render_technique_heading, render_technique_section, render_vulnerability_section,
};

fn cve(id: &str, description: Option<&str>) -> CVE {
    CVE { id: id.to_string(), description: description.map(|d| d.to_string()) }
}

fn technique(id: &str, name: &str, description: &str) -> MitreTechnique {
    MitreTechnique {
        id: id.to_string(),
        name: name.to_string(),
        description: description.to_string(),
    }
}

#[test]
fn the_vulnerability_address_is_fixed() {
    assert_eq!(cves_url(), "https://services.nvd.nist.gov/rest/json/cves/2.0");
}

#[test]
fn the_technique_address_ends_in_the_group() {
    assert_eq!(techniques_url("APT41"), "https://api.mitre.org/v2/techniques?group=APT41");
    assert_eq!(techniques_url(""), "https://api.mitre.org/v2/techniques?group=");
}

#[test]
fn the_group_is_not_escaped() {
    assert_eq!(
        techniques_url("Lazarus Group&x=1#é"),
        "https://api.mitre.org/v2/techniques?group=Lazarus Group&x=1#é"
    );
}

#[test]
fn a_description_is_shown_as_it_is() {
    assert_eq!(render_description(&cve("CVE-1", Some("Example flaw"))), "Example flaw");
    assert_eq!(render_description(&cve("CVE-1", Some(""))), "");
}

#[test]
fn a_missing_description_is_shown_as_the_placeholder() {
    assert_eq!(render_description(&cve("CVE-1", None)), "No description");
}

#[test]
fn a_vulnerability_takes_one_line() {
    assert_eq!(
        render_cve(&cve("CVE-2024-0001", Some("Example flaw"))),
        "- CVE-2024-0001: Example flaw"
    );
    assert_eq!(render_cve(&cve("CVE-2024-0002", None)), "- CVE-2024-0002: No description");
}

#[test]
fn a_technique_takes_two_lines() {
    let t = technique("T1059", "Command Execution", "Adversaries execute commands");
    assert_eq!(render_technique_heading(&t), "- T1059: Command Execution");
    assert_eq!(render_technique_detail(&t), "  Description: Adversaries execute commands");
}

#[test]
fn the_opening_names_the_group() {
    assert_eq!(render_opening("APT41"), vec!["🔍 Fetching data for APT Group: APT41".to_string()]);
}

#[test]
fn the_vulnerability_section_is_a_header_and_a_line_each() {
    assert_eq!(render_vulnerability_section(&vec![]), vec!["📉 Latest CVEs:".to_string()]);
    assert_eq!(
        render_vulnerability_section(&vec![cve("CVE-2", Some("two")), cve("CVE-1", None)]),
        vec![
            "📉 Latest CVEs:".to_string(),
            "- CVE-2: two".to_string(),
            "- CVE-1: No description".to_string(),
        ]
    );
}

#[test]
fn the_technique_section_is_a_gap_a_header_and_two_lines_each() {
    assert_eq!(
        render_technique_section("APT41", &vec![]),
        vec!["".to_string(), "⚔️ Techniques used by APT41:".to_string()]
    );
    assert_eq!(
        render_technique_section(
            "APT41",
            &vec![technique("T2", "second", "b"), technique("T1", "first", "a")]
        ),
        vec![
            "".to_string(),
            "⚔️ Techniques used by APT41:".to_string(),
            "- T2: second".to_string(),
            "  Description: b".to_string(),
            "- T1: first".to_string(),
            "  Description: a".to_string(),
        ]
    );
}

#[test]
fn a_network_failure_is_reported_in_the_words_of_the_transport() {
    let error = FetchError::Network("error sending request".to_string());
    assert_eq!(error.description(), "error sending request");
    assert_eq!(render_error(&error), "Error: error sending request");
}

#[test]
fn a_deserialization_failure_is_reported_in_fixed_words() {
    assert_eq!(FetchError::Deserialization.description(), "error decoding response body");
    assert_eq!(
        render_error(&FetchError::Deserialization),
        "Error: error decoding response body"
    );
}
