//! The addresses of the two services.

use vstd::prelude::*;

verus! {

/// The address of the vulnerability database's list of records.
pub open spec fn vulnerabilities_address() -> Seq<char> {
    "https://services.nvd.nist.gov/rest/json/cves/2.0"@
}

/// The address of the technique catalogue's list for one adversary group: the
/// group's identifier follows the fixed part as it is, with nothing escaped.
pub open spec fn techniques_address(apt_group: Seq<char>) -> Seq<char> {
    "https://api.mitre.org/v2/techniques?group="@ + apt_group
}

/// The address to ask for vulnerability records.
pub fn cves_url() -> (url: String)
    ensures
        url@ == vulnerabilities_address(),
{
    String::from_str("https://services.nvd.nist.gov/rest/json/cves/2.0")
}

/// The address to ask for the techniques of `apt_group`.
pub fn techniques_url(apt_group: &str) -> (url: String)
    ensures
        url@ == techniques_address(apt_group@),
{
    let mut url = String::from_str("https://api.mitre.org/v2/techniques?group=");
    url.append(apt_group);
    url
}

} // verus!
