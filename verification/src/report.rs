//! The lines of the console report.

use vstd::prelude::*;
use crate::error::{failure_text, FetchError, FetchFailure};
use crate::records::{MitreTechnique, TechniqueRecord, VulnerabilityRecord, CVE};

verus! {

/// The description to show for a vulnerability: its own, or a placeholder
/// where it has none.
pub open spec fn shown_description(record: VulnerabilityRecord) -> Seq<char> {
    match record.description {
        Some(text) => text,
        None => "No description"@,
    }
}

/// The line that reports one vulnerability.
pub open spec fn vulnerability_line(record: VulnerabilityRecord) -> Seq<char> {
    "- "@ + record.id + ": "@ + shown_description(record)
}

/// The first of the two lines that report one technique.
pub open spec fn technique_heading(record: TechniqueRecord) -> Seq<char> {
    "- "@ + record.id + ": "@ + record.name
}

/// The second of the two lines that report one technique.
pub open spec fn technique_detail(record: TechniqueRecord) -> Seq<char> {
    "  Description: "@ + record.description
}

/// The lines that open the report for an adversary group.
pub open spec fn opening(apt_group: Seq<char>) -> Seq<Seq<char>> {
    seq!["🔍 Fetching data for APT Group: "@ + apt_group]
}

/// The vulnerability section: a header, then one line for each record, in
/// the order of the records.
pub open spec fn vulnerability_section(records: Seq<VulnerabilityRecord>) -> Seq<Seq<char>> {
    seq!["📉 Latest CVEs:"@] + Seq::new(records.len(), |i: int| vulnerability_line(records[i]))
}

/// The technique section: an empty line, a header, then two lines for each
/// record, in the order of the records.
pub open spec fn technique_section(apt_group: Seq<char>, records: Seq<TechniqueRecord>) -> Seq<
    Seq<char>,
> {
    seq![Seq::<char>::empty(), "⚔️ Techniques used by "@ + apt_group + ":"@] + Seq::new(
        2 * records.len(),
        |i: int|
            if i % 2 == 0 {
                technique_heading(records[i / 2])
            } else {
                technique_detail(records[i / 2])
            },
    )
}

/// The line that reports a failure.
pub open spec fn error_line(failure: FetchFailure) -> Seq<char> {
    "Error: "@ + failure_text(failure)
}

/// The description to show for a vulnerability.
pub fn render_description(cve: &CVE) -> (text: String)
    ensures
        text@ == shown_description(cve@),
{
    match &cve.description {
        Some(text) => text.clone(),
        None => String::from_str("No description"),
    }
}

/// The line that reports one vulnerability.
pub fn render_cve(cve: &CVE) -> (line: String)
    ensures
        line@ == vulnerability_line(cve@),
{
    let mut line = String::from_str("- ");
    line.append(cve.id.as_str());
    line.append(": ");
    let description = render_description(cve);
    line.append(description.as_str());
    line
}

/// The first of the two lines that report one technique.
pub fn render_technique_heading(technique: &MitreTechnique) -> (line: String)
    ensures
        line@ == technique_heading(technique@),
{
    let mut line = String::from_str("- ");
    line.append(technique.id.as_str());
    line.append(": ");
    line.append(technique.name.as_str());
    line
}

/// The second of the two lines that report one technique.
pub fn render_technique_detail(technique: &MitreTechnique) -> (line: String)
    ensures
        line@ == technique_detail(technique@),
{
    let mut line = String::from_str("  Description: ");
    line.append(technique.description.as_str());
    line
}

/// The lines that open the report for an adversary group.
pub fn render_opening(apt_group: &str) -> (lines: Vec<String>)
    ensures
        lines.deep_view() == opening(apt_group@),
{
    let mut line = String::from_str("🔍 Fetching data for APT Group: ");
    line.append(apt_group);
    let mut lines: Vec<String> = Vec::new();
    lines.push(line);
    assert(lines.deep_view() =~= opening(apt_group@));
    lines
}

/// The vulnerability section of the report.
pub fn render_vulnerability_section(cves: &Vec<CVE>) -> (lines: Vec<String>)
    ensures
        lines.deep_view() == vulnerability_section(cves.deep_view()),
{
    let mut lines: Vec<String> = Vec::new();
    lines.push(String::from_str("📉 Latest CVEs:"));
    let mut i: usize = 0;
    while i < cves.len()
        invariant
            i <= cves.len(),
            lines.len() == 1 + i,
            lines[0]@ == "📉 Latest CVEs:"@,
            forall|j: int| 0 <= j < i ==> (#[trigger] lines[1 + j])@ == vulnerability_line(cves[j]@),
        decreases cves.len() - i,
    {
        lines.push(render_cve(&cves[i]));
        i += 1;
    }
    assert(lines.deep_view() =~= vulnerability_section(cves.deep_view())) by {
        let expected = vulnerability_section(cves.deep_view());
        assert(lines.deep_view().len() == expected.len());
        assert forall|k: int| 0 <= k < expected.len() implies lines.deep_view()[k] == expected[k] by {
            if k >= 1 {
                let j = k - 1;
                assert(k == 1 + j);
            }
        }
    }
    lines
}

/// The technique section of the report for an adversary group.
pub fn render_technique_section(apt_group: &str, techniques: &Vec<MitreTechnique>) -> (lines: Vec<
    String,
>)
    ensures
        lines.deep_view() == technique_section(apt_group@, techniques.deep_view()),
{
    let mut header = String::from_str("⚔️ Techniques used by ");
    header.append(apt_group);
    header.append(":");
    let mut lines: Vec<String> = Vec::new();
    lines.push(String::new());
    lines.push(header);
    let mut i: usize = 0;
    while i < techniques.len()
        invariant
            i <= techniques.len(),
            lines.len() == 2 + 2 * i,
            lines[0]@ == Seq::<char>::empty(),
            lines[1]@ == "⚔️ Techniques used by "@ + apt_group@ + ":"@,
            forall|j: int|
                0 <= j < i ==> (#[trigger] lines[2 + 2 * j])@ == technique_heading(techniques[j]@),
            forall|j: int|
                0 <= j < i ==> (#[trigger] lines[3 + 2 * j])@ == technique_detail(techniques[j]@),
        decreases techniques.len() - i,
    {
        lines.push(render_technique_heading(&techniques[i]));
        lines.push(render_technique_detail(&techniques[i]));
        i += 1;
    }
    assert(lines.deep_view() =~= technique_section(apt_group@, techniques.deep_view())) by {
        let expected = technique_section(apt_group@, techniques.deep_view());
        assert(lines.deep_view().len() == expected.len());
        assert forall|k: int| 0 <= k < expected.len() implies lines.deep_view()[k] == expected[k] by {
            if k >= 2 {
                let j = (k - 2) / 2;
                if (k - 2) % 2 == 0 {
                    assert(k == 2 + 2 * j);
                } else {
                    assert(k == 3 + 2 * j);
                }
            }
        }
    }
    lines
}

/// The line that reports a failure.
pub fn render_error(error: &FetchError) -> (line: String)
    ensures
        line@ == error_line(error@),
{
    let mut line = String::from_str("Error: ");
    let text = error.description();
    line.append(text.as_str());
    line
}

} // verus!
