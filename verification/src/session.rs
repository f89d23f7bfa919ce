//! The run of one query, as a machine that is told how each request ended and
//! says what to print and what to ask next.

use vstd::prelude::*;
use crate::endpoints::{cves_url, techniques_address, techniques_url, vulnerabilities_address};
use crate::error::FetchFailure;
use crate::fetch::{
    cves_from, fetched_techniques, fetched_vulnerabilities, techniques_from, Outcome, Reply,
};
use crate::records::{TechniqueRecord, VulnerabilityRecord};
use crate::report::{
    error_line, opening, render_error, render_opening, render_technique_section,
    render_vulnerability_section, technique_section, vulnerability_section,
};

verus! {

/// How far a run has come.
#[derive(Debug, Clone, Copy, PartialEq, Eq, Structural)]
pub enum Stage {
    /// The vulnerability records have been asked for.
    Start,
    /// The vulnerability records are reported and the techniques asked for.
    VulnerabilitiesFetched,
    /// The techniques are reported too.
    TechniquesFetched,
    /// A fetch has failed and the failure is reported.
    Failed,
    /// Nothing is left to do.
    Done,
}

/// What the caller is to do next.
#[derive(Debug, PartialEq, Eq)]
pub enum Action {
    /// Print the lines, then GET the address and hand its outcome to `step`.
    Fetch { lines: Vec<String>, url: String },
    /// Print the lines: the run has succeeded.
    Finish { lines: Vec<String> },
    /// Write the line to standard error: the run has failed.
    Fail { line: String },
    /// Do nothing: the run was over before.
    Halt,
}

/// The mathematical value of an `Action`.
pub ghost enum Directive {
    Fetch { lines: Seq<Seq<char>>, url: Seq<char> },
    Finish { lines: Seq<Seq<char>> },
    Fail { line: Seq<char> },
    Halt,
}

impl View for Action {
    type V = Directive;

    open spec fn view(&self) -> Directive {
        match self {
            Action::Fetch { lines, url } => Directive::Fetch {
                lines: lines.deep_view(),
                url: url@,
            },
            Action::Finish { lines } => Directive::Finish { lines: lines.deep_view() },
            Action::Fail { line } => Directive::Fail { line: line@ },
            Action::Halt => Directive::Halt,
        }
    }
}

/// The mathematical value of a `Session`.
pub ghost struct SessionState {
    pub apt_group: Seq<char>,
    pub stage: Stage,
}

impl SessionState {
    /// This state, moved to another stage.
    pub open spec fn at(self, stage: Stage) -> SessionState {
        SessionState { apt_group: self.apt_group, stage }
    }

    /// The state in which a run for `apt_group` begins, and its first
    /// directive: print the opening and ask for the vulnerability records.
    pub open spec fn start(apt_group: Seq<char>) -> (SessionState, Directive) {
        (
            SessionState { apt_group, stage: Stage::Start },
            Directive::Fetch { lines: opening(apt_group), url: vulnerabilities_address() },
        )
    }

    /// The state and directive that follow when the request that is out
    /// comes back with `reply`.
    pub open spec fn step(self, reply: Reply) -> (SessionState, Directive) {
        match self.stage {
            Stage::Start => match fetched_vulnerabilities(reply) {
                Ok(records) => (
                    self.at(Stage::VulnerabilitiesFetched),
                    Directive::Fetch {
                        lines: vulnerability_section(records),
                        url: techniques_address(self.apt_group),
                    },
                ),
                Err(failure) => (
                    self.at(Stage::Failed),
                    Directive::Fail { line: error_line(failure) },
                ),
            },
            Stage::VulnerabilitiesFetched => match fetched_techniques(reply) {
                Ok(records) => (
                    self.at(Stage::TechniquesFetched),
                    Directive::Finish { lines: technique_section(self.apt_group, records) },
                ),
                Err(failure) => (
                    self.at(Stage::Failed),
                    Directive::Fail { line: error_line(failure) },
                ),
            },
            _ => (self.at(Stage::Done), Directive::Halt),
        }
    }
}

/// One run of the query for an adversary group.
pub struct Session {
    apt_group: String,
    stage: Stage,
}

impl View for Session {
    type V = SessionState;

    closed spec fn view(&self) -> SessionState {
        SessionState { apt_group: self.apt_group@, stage: self.stage }
    }
}

impl Session {
    /// Begins a run for `apt_group`.
    pub fn start(apt_group: &str) -> (r: (Session, Action))
        ensures
            (r.0@, r.1@) == SessionState::start(apt_group@),
    {
        let session = Session { apt_group: String::from_str(apt_group), stage: Stage::Start };
        let action = Action::Fetch { lines: render_opening(apt_group), url: cves_url() };
        (session, action)
    }

    /// How far the run has come.
    pub fn stage(&self) -> (stage: Stage)
        ensures
            stage == self@.stage,
    {
        self.stage
    }

    /// The adversary group that the run asks about.
    pub fn apt_group(&self) -> (apt_group: &str)
        ensures
            apt_group@ == self@.apt_group,
    {
        self.apt_group.as_str()
    }

    /// Takes the outcome of the request that is out and says what to do next.
    pub fn step(&mut self, outcome: &Outcome) -> (action: Action)
        ensures
            (final(self)@, action@) == old(self)@.step(outcome@),
    {
        match self.stage {
            Stage::Start => match cves_from(outcome) {
                Ok(cves) => {
                    self.stage = Stage::VulnerabilitiesFetched;
                    Action::Fetch {
                        lines: render_vulnerability_section(&cves),
                        url: techniques_url(self.apt_group.as_str()),
                    }
                },
                Err(error) => {
                    self.stage = Stage::Failed;
                    Action::Fail { line: render_error(&error) }
                },
            },
            Stage::VulnerabilitiesFetched => match techniques_from(outcome) {
                Ok(techniques) => {
                    self.stage = Stage::TechniquesFetched;
                    Action::Finish {
                        lines: render_technique_section(self.apt_group.as_str(), &techniques),
                    }
                },
                Err(error) => {
                    self.stage = Stage::Failed;
                    Action::Fail { line: render_error(&error) }
                },
            },
            _ => {
                self.stage = Stage::Done;
                Action::Halt
            },
        }
    }
}

/// One thing that a run does that the world can see.
pub ghost enum Emission {
    /// A line written to standard output.
    Printed(Seq<char>),
    /// A GET request to an address.
    Requested(Seq<char>),
    /// A line written to standard error.
    Reported(Seq<char>),
}

/// The lines, each as one line printed.
pub open spec fn printed(lines: Seq<Seq<char>>) -> Seq<Emission> {
    Seq::new(lines.len(), |i: int| Emission::Printed(lines[i]))
}

/// What carrying out one directive emits, in order.
pub open spec fn emissions(directive: Directive) -> Seq<Emission> {
    match directive {
        Directive::Fetch { lines, url } => printed(lines).push(Emission::Requested(url)),
        Directive::Finish { lines } => printed(lines),
        Directive::Fail { line } => seq![Emission::Reported(line)],
        Directive::Halt => Seq::empty(),
    }
}

/// What a run emits from a state and the directive given there, when its
/// requests come back with `replies` in turn. A request is answered by the
/// next reply; the run goes no further than its replies, nor past a
/// directive that asks for nothing.
pub open spec fn run_from(state: SessionState, directive: Directive, replies: Seq<Reply>) -> Seq<
    Emission,
>
    decreases replies.len(),
{
    if directive is Fetch && replies.len() > 0 {
        let next = state.step(replies.first());
        emissions(directive) + run_from(next.0, next.1, replies.drop_first())
    } else {
        emissions(directive)
    }
}

/// What a whole run for `apt_group` emits when its requests come back with
/// `replies` in turn.
pub open spec fn run(apt_group: Seq<char>, replies: Seq<Reply>) -> Seq<Emission> {
    let begun = SessionState::start(apt_group);
    run_from(begun.0, begun.1, replies)
}

/// The two services have different addresses, whatever the group.
pub proof fn lemma_addresses_differ(apt_group: Seq<char>)
    ensures
        vulnerabilities_address() != techniques_address(apt_group),
{
    reveal_strlit("https://services.nvd.nist.gov/rest/json/cves/2.0");
    reveal_strlit("https://api.mitre.org/v2/techniques?group=");
    assert(vulnerabilities_address()[8] == 's');
    assert(techniques_address(apt_group)[8] == 'a');
}

/// Where the vulnerability fetch fails, as it does whenever the service is
/// unreachable, the run prints its opening, makes that one request, and
/// reports one error line: whatever replies would have followed, the
/// techniques are never asked for.
pub proof fn lemma_failed_vulnerabilities_end_the_run(
    apt_group: Seq<char>,
    first: Reply,
    later: Seq<Reply>,
    failure: FetchFailure,
)
    requires
        fetched_vulnerabilities(first) == Err::<Seq<VulnerabilityRecord>, _>(failure),
    ensures
        first is Unreachable ==> failure == FetchFailure::Network(first->Unreachable_0),
        run(apt_group, seq![first] + later) == printed(opening(apt_group)) + seq![
            Emission::Requested(vulnerabilities_address()),
            Emission::Reported(error_line(failure)),
        ],
        !run(apt_group, seq![first] + later).contains(
            Emission::Requested(techniques_address(apt_group)),
        ),
{
    let replies = seq![first] + later;
    let begun = SessionState::start(apt_group);
    let failed = begun.0.step(replies.first());
    assert(replies.first() == first);
    assert(failed.1 == Directive::Fail { line: error_line(failure) });
    assert(run_from(failed.0, failed.1, replies.drop_first()) == emissions(failed.1));
    let emitted = printed(opening(apt_group)) + seq![
        Emission::Requested(vulnerabilities_address()),
        Emission::Reported(error_line(failure)),
    ];
    assert(run(apt_group, replies) =~= emitted);
    lemma_addresses_differ(apt_group);
    assert forall|i: int| 0 <= i < emitted.len() implies emitted[i] != Emission::Requested(
        techniques_address(apt_group),
    ) by {
        if i < printed(opening(apt_group)).len() {
            assert(emitted[i] is Printed);
        }
    }
}

/// Where the vulnerability fetch gives records and the technique fetch then
/// fails, the whole vulnerability section is printed before the techniques
/// are asked for, and the one error line comes after both.
pub proof fn lemma_vulnerabilities_are_printed_before_a_technique_failure(
    apt_group: Seq<char>,
    first: Reply,
    second: Reply,
    later: Seq<Reply>,
    records: Seq<VulnerabilityRecord>,
    failure: FetchFailure,
)
    requires
        fetched_vulnerabilities(first) == Ok::<_, FetchFailure>(records),
        fetched_techniques(second) == Err::<Seq<TechniqueRecord>, _>(failure),
    ensures
        second is Body ==> failure == FetchFailure::Deserialization,
        run(apt_group, seq![first, second] + later) == printed(opening(apt_group)) + seq![
            Emission::Requested(vulnerabilities_address()),
        ] + printed(vulnerability_section(records)) + seq![
            Emission::Requested(techniques_address(apt_group)),
            Emission::Reported(error_line(failure)),
        ],
{
    let replies = seq![first, second] + later;
    let begun = SessionState::start(apt_group);
    let fetched = begun.0.step(first);
    let failed = fetched.0.step(second);
    assert(replies.first() == first);
    assert(replies.drop_first().first() == second);
    assert(failed.1 == Directive::Fail { line: error_line(failure) });
    assert(run_from(failed.0, failed.1, replies.drop_first().drop_first()) == emissions(
        failed.1,
    ));
    assert(run_from(fetched.0, fetched.1, replies.drop_first()) == emissions(fetched.1)
        + emissions(failed.1));
    assert(run(apt_group, replies) =~= printed(opening(apt_group)) + seq![
        Emission::Requested(vulnerabilities_address()),
    ] + printed(vulnerability_section(records)) + seq![
        Emission::Requested(techniques_address(apt_group)),
        Emission::Reported(error_line(failure)),
    ]);
}

} // verus!
