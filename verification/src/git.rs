//! The command dispatcher: filter and aggregate what one external
//! command produced in every repository of a pool.
//!
//! Spawning the subprocesses (and running them concurrently) happens
//! outside the library; each invocation's captured output arrives here
//! in a slot indexed by its repository's position in the manifest, so
//! the report's order never depends on completion order.

use vstd::prelude::*;
use vstd::string::StringExecFns;
use vstd::utf8::decode_utf8;
use vstd::utf8::valid_utf8;

use crate::errors::Error;
use crate::externals::regex_match;
use crate::externals::regex_match_of;
use crate::externals::regex_ok;
use crate::externals::trim;
use crate::externals::trim_of;
use crate::repository::Repository;
use crate::text::path_join;
use crate::text::spec_opt_str;
use crate::text::spec_path_join;

verus! {

/// What one repository's invocation came to: the captured output
/// streams, or the failure to spawn at all.
pub enum CommandOutcome {
    /// The subprocess ran; both streams were drained to the end.
    Captured { stdout: Vec<u8>, stderr: Vec<u8> },
    /// The subprocess could not be started; the message describes why.
    SpawnFailed { message: String },
}

/// One repository's contribution after decoding and filtering.
pub struct FilteredOutput {
    /// What remains of standard output.
    pub out: Option<String>,
    /// Error-channel content; never filtered.
    pub err: Option<String>,
}

/// One surfaced repository section of the report.
pub struct Section {
    /// The header line naming the repository.
    pub header: String,
    /// The repository's filtered output.
    pub body: FilteredOutput,
}

/// What a captured byte stream decodes to: nothing when it is empty or
/// not text, its characters otherwise.
pub open spec fn spec_decoded(bytes: Seq<u8>) -> Option<Seq<char>> {
    if bytes.len() == 0 {
        Option::None
    } else if valid_utf8(bytes) {
        Option::Some(decode_utf8(bytes))
    } else {
        Option::None
    }
}

/// Whether an optional filter pattern compiles.
pub open spec fn spec_pattern_ok(p: Option<String>) -> bool {
    match p {
        Option::None => true,
        Option::Some(s) => regex_ok(s@),
    }
}

/// Filtering of a decoded standard-output text: `exclude` drops a
/// matching text first, then `filter` drops a text it does not match.
pub open spec fn spec_filtered(
    msg: Seq<char>,
    filter: Option<String>,
    exclude: Option<String>,
) -> Option<Seq<char>> {
    if exclude matches Some(p) && regex_match_of(p@, msg) {
        Option::None
    } else if filter matches Some(p) && !regex_match_of(p@, msg) {
        Option::None
    } else {
        Option::Some(msg)
    }
}

/// What of one outcome's standard output survives decoding and
/// filtering.  A spawn failure has no standard output.
pub open spec fn spec_outcome_out(
    o: CommandOutcome,
    filter: Option<String>,
    exclude: Option<String>,
) -> Option<Seq<char>> {
    match o {
        CommandOutcome::Captured { stdout, stderr } => match spec_decoded(stdout@) {
            Option::None => Option::None,
            Option::Some(m) => spec_filtered(m, filter, exclude),
        },
        CommandOutcome::SpawnFailed { message: _ } => Option::None,
    }
}

/// What of one outcome surfaces on the error channel: the decoded
/// standard error, or the spawn failure's description.  Filters never
/// apply here.
pub open spec fn spec_outcome_err(o: CommandOutcome) -> Option<Seq<char>> {
    match o {
        CommandOutcome::Captured { stdout: _, stderr } => spec_decoded(stderr@),
        CommandOutcome::SpawnFailed { message } => Option::Some(message@),
    }
}

/// The rendered body of one contribution: each surviving channel,
/// trimmed, on its own line.
pub open spec fn spec_render_views(out: Option<Seq<char>>, err: Option<Seq<char>>) -> Seq<char> {
    (match out {
        Option::Some(o) => trim_of(o) + "\n"@,
        Option::None => Seq::<char>::empty(),
    }) + (match err {
        Option::Some(e) => trim_of(e) + "\n"@,
        Option::None => Seq::<char>::empty(),
    })
}

/// The rendered body of one filtered output.
pub open spec fn spec_render(fo: FilteredOutput) -> Seq<char> {
    spec_render_views(spec_opt_str(fo.out), spec_opt_str(fo.err))
}

/// The header line naming a repository by its manifest-relative path.
pub open spec fn spec_header(repo: Repository) -> Seq<char> {
    "- "@ + spec_path_join(repo.path@, repo.name@) + "\n"@
}

/// The whole report: in manifest order, a section for every repository
/// that contributes output, and nothing for the others.
pub open spec fn spec_report(
    repos: Seq<Repository>,
    outcomes: Seq<CommandOutcome>,
    filter: Option<String>,
    exclude: Option<String>,
) -> Seq<char>
    decreases repos.len(),
{
    if repos.len() == 0 || outcomes.len() == 0 {
        Seq::<char>::empty()
    } else {
        let out = spec_outcome_out(outcomes[0], filter, exclude);
        let err = spec_outcome_err(outcomes[0]);
        let rest = spec_report(repos.drop_first(), outcomes.drop_first(), filter, exclude);
        if out is None && err is None {
            rest
        } else {
            spec_header(repos[0]) + "\n"@ + spec_render_views(out, err) + rest
        }
    }
}

/// The positions, among the first `n` outcomes, whose repository
/// contributes a section — in ascending order.
pub open spec fn spec_kept(
    outcomes: Seq<CommandOutcome>,
    filter: Option<String>,
    exclude: Option<String>,
    n: int,
) -> Seq<int>
    decreases n,
{
    if n <= 0 {
        Seq::<int>::empty()
    } else {
        let prev = spec_kept(outcomes, filter, exclude, n - 1);
        if spec_outcome_out(outcomes[n - 1], filter, exclude) is None && spec_outcome_err(
            outcomes[n - 1],
        ) is None {
            prev
        } else {
            prev.push(n - 1)
        }
    }
}

impl FilteredOutput {
    /// Decode a captured stream: nothing when it is empty or not UTF-8
    /// text, the text otherwise.
    pub fn bytes_to_string(bytes: &Vec<u8>) -> (r: Option<String>)
        ensures
            spec_opt_str(r) == spec_decoded(bytes@),
    {
        if bytes.len() == 0 {
            None
        } else {
            crate::externals::utf8_to_string(bytes.as_slice())
        }
    }

    /// Whether the pattern matches the text.
    pub fn is_match(message: &str, pattern: &str) -> (r: bool)
        requires
            regex_ok(pattern@),
        ensures
            r == regex_match_of(pattern@, message@),
    {
        regex_match(pattern, message).unwrap()
    }

    /// Apply the `exclude` and `filter` filters to a decoded
    /// standard-output text.
    pub fn filter(message: String, filter: &Option<String>, exclude: &Option<String>) -> (r:
        Option<String>)
        requires
            spec_pattern_ok(*filter),
            spec_pattern_ok(*exclude),
        ensures
            spec_opt_str(r) == spec_filtered(message@, *filter, *exclude),
    {
        match exclude {
            Some(pattern) => {
                if FilteredOutput::is_match(message.as_str(), pattern.as_str()) {
                    return None;
                }
            },
            None => {},
        }
        match filter {
            Some(pattern) => {
                if !FilteredOutput::is_match(message.as_str(), pattern.as_str()) {
                    return None;
                }
            },
            None => {},
        }
        Some(message)
    }

    /// Decode and filter one outcome.  Standard output passes through
    /// the filters; the error channel — captured standard error, or the
    /// description of a spawn failure — always surfaces.
    pub fn from(outcome: CommandOutcome, filter: &Option<String>, exclude: &Option<String>) -> (r:
        FilteredOutput)
        requires
            spec_pattern_ok(*filter),
            spec_pattern_ok(*exclude),
        ensures
            spec_opt_str(r.out) == spec_outcome_out(outcome, *filter, *exclude),
            spec_opt_str(r.err) == spec_outcome_err(outcome),
    {
        match outcome {
            CommandOutcome::Captured { stdout, stderr } => {
                let out = match FilteredOutput::bytes_to_string(&stdout) {
                    Some(message) => FilteredOutput::filter(message, filter, exclude),
                    None => None,
                };
                let err = FilteredOutput::bytes_to_string(&stderr);
                FilteredOutput { out, err }
            },
            CommandOutcome::SpawnFailed { message } => FilteredOutput {
                out: None,
                err: Some(message),
            },
        }
    }

    /// Whether nothing survived on either channel.
    pub fn is_empty(&self) -> (r: bool)
        ensures
            r == (self.out is None && self.err is None),
    {
        self.out.is_none() && self.err.is_none()
    }

    /// Render the contribution: each surviving channel, trimmed, on its
    /// own line.
    pub fn render(&self) -> (r: String)
        ensures
            r@ == spec_render(*self),
    {
        let mut s = String::new();
        match &self.out {
            Some(o) => {
                s.append(trim(o.as_str()).as_str());
                s.append("\n");
            },
            None => {},
        }
        match &self.err {
            Some(e) => {
                s.append(trim(e.as_str()).as_str());
                s.append("\n");
            },
            None => {},
        }
        proof {
            assert(s@ =~= spec_render(*self));
        }
        s
    }
}

/// The header line naming a repository.
pub fn repository_header(repo: &Repository) -> (r: String)
    ensures
        r@ == spec_header(*repo),
{
    let rel = path_join(repo.path.as_str(), repo.name.as_str());
    let r = String::from_str("- ").concat(rel.as_str()).concat("\n");
    proof {
        assert(r@ =~= spec_header(*repo));
    }
    r
}

/// Check that an optional filter pattern compiles.
fn pattern_ok(p: &Option<String>) -> (r: bool)
    ensures
        r == spec_pattern_ok(*p),
{
    match p {
        Some(s) => regex_match(s.as_str(), "").is_some(),
        None => true,
    }
}

/// Aggregate the outcomes of one command over a pool's repositories
/// into the report text, in manifest order (`outcomes[i]` belongs to
/// `repositories[i]`).  Fails exactly when a filter pattern does not
/// compile.
pub fn dispatch_report(
    repositories: &Vec<Repository>,
    outcomes: Vec<CommandOutcome>,
    filter: &Option<String>,
    exclude: &Option<String>,
) -> (r: Result<String, Error>)
    requires
        repositories@.len() == outcomes@.len(),
    ensures
        r is Ok <==> spec_pattern_ok(*filter) && spec_pattern_ok(*exclude),
        r matches Ok(s) ==> s@ == spec_report(repositories@, outcomes@, *filter, *exclude),
        r matches Err(e) ==> e matches Error::InvalidPattern { pattern } && !regex_ok(pattern@),
{
    if !pattern_ok(filter) {
        let p = match filter {
            Some(p) => p.clone(),
            None => String::new(),
        };
        return Err(Error::InvalidPattern { pattern: p });
    }
    if !pattern_ok(exclude) {
        let p = match exclude {
            Some(p) => p.clone(),
            None => String::new(),
        };
        return Err(Error::InvalidPattern { pattern: p });
    }
    let ghost orig_repos = repositories@;
    let ghost orig_outcomes = outcomes@;
    let n = repositories.len();
    let mut outcomes = outcomes;
    let mut report = String::new();
    let mut i: usize = 0;
    proof {
        assert(orig_repos.subrange(0, orig_repos.len() as int) =~= orig_repos);
    }
    while outcomes.len() > 0
        invariant
            spec_pattern_ok(*filter),
            spec_pattern_ok(*exclude),
            n == orig_repos.len(),
            orig_outcomes.len() == orig_repos.len(),
            i + outcomes@.len() == orig_repos.len(),
            orig_repos == repositories@,
            orig_outcomes.subrange(i as int, orig_outcomes.len() as int) == outcomes@,
            spec_report(orig_repos, orig_outcomes, *filter, *exclude) == report@ + spec_report(
                orig_repos.subrange(i as int, orig_repos.len() as int),
                outcomes@,
                *filter,
                *exclude,
            ),
        decreases outcomes@.len(),
    {
        let ghost pre = outcomes@;
        let ghost repos_rest = orig_repos.subrange(i as int, orig_repos.len() as int);
        let outcome = outcomes.remove(0);
        proof {
            assert(pre.drop_first() =~= outcomes@);
            assert(repos_rest[0] == orig_repos[i as int]);
            assert(repos_rest.drop_first() =~= orig_repos.subrange(
                i as int + 1,
                orig_repos.len() as int,
            ));
            assert(orig_outcomes.subrange(i as int + 1, orig_outcomes.len() as int) =~= outcomes@);
        }
        let fo = FilteredOutput::from(outcome, filter, exclude);
        if !fo.is_empty() {
            report.append(repository_header(&repositories[i]).as_str());
            report.append("\n");
            report.append(fo.render().as_str());
        }
        i += 1;
        proof {
            assert(spec_report(orig_repos, orig_outcomes, *filter, *exclude) =~= report@
                + spec_report(
                orig_repos.subrange(i as int, orig_repos.len() as int),
                outcomes@,
                *filter,
                *exclude,
            ));
        }
    }
    proof {
        assert(spec_report(orig_repos, orig_outcomes, *filter, *exclude) =~= report@);
    }
    Ok(report)
}

/// How a section list corresponds to the first `n` outcomes: one
/// section per kept position, in order, bearing that repository's
/// header and filtered output.
pub open spec fn spec_sections_match(
    sections: Seq<Section>,
    repos: Seq<Repository>,
    outcomes: Seq<CommandOutcome>,
    filter: Option<String>,
    exclude: Option<String>,
    n: int,
) -> bool {
    let kept = spec_kept(outcomes, filter, exclude, n);
    &&& sections.len() == kept.len()
    &&& forall|j: int|
        0 <= j < kept.len() ==> {
            &&& (#[trigger] sections[j]).header@ == spec_header(repos[kept[j]])
            &&& spec_opt_str(sections[j].body.out) == spec_outcome_out(
                outcomes[kept[j]],
                filter,
                exclude,
            )
            &&& spec_opt_str(sections[j].body.err) == spec_outcome_err(outcomes[kept[j]])
        }
}

/// Aggregate the outcomes of one command into the list of surfaced
/// sections, in manifest order, keeping standard output and the error
/// channel apart so a caller can present them differently.  Fails
/// exactly when a filter pattern does not compile.
pub fn dispatch_sections(
    repositories: &Vec<Repository>,
    outcomes: Vec<CommandOutcome>,
    filter: &Option<String>,
    exclude: &Option<String>,
) -> (r: Result<Vec<Section>, Error>)
    requires
        repositories@.len() == outcomes@.len(),
    ensures
        r is Ok <==> spec_pattern_ok(*filter) && spec_pattern_ok(*exclude),
        r matches Ok(sections) ==> spec_sections_match(
            sections@,
            repositories@,
            outcomes@,
            *filter,
            *exclude,
            outcomes@.len() as int,
        ),
        r matches Err(e) ==> e matches Error::InvalidPattern { pattern } && !regex_ok(pattern@),
{
    if !pattern_ok(filter) {
        let p = match filter {
            Some(p) => p.clone(),
            None => String::new(),
        };
        return Err(Error::InvalidPattern { pattern: p });
    }
    if !pattern_ok(exclude) {
        let p = match exclude {
            Some(p) => p.clone(),
            None => String::new(),
        };
        return Err(Error::InvalidPattern { pattern: p });
    }
    let ghost orig_repos = repositories@;
    let ghost orig_outcomes = outcomes@;
    let n = repositories.len();
    let mut outcomes = outcomes;
    let mut sections: Vec<Section> = Vec::new();
    let mut i: usize = 0;
    while outcomes.len() > 0
        invariant
            spec_pattern_ok(*filter),
            spec_pattern_ok(*exclude),
            n == orig_repos.len(),
            orig_outcomes.len() == orig_repos.len(),
            i + outcomes@.len() == orig_repos.len(),
            orig_repos == repositories@,
            orig_outcomes.subrange(i as int, orig_outcomes.len() as int) == outcomes@,
            spec_sections_match(
                sections@,
                orig_repos,
                orig_outcomes,
                *filter,
                *exclude,
                i as int,
            ),
        decreases outcomes@.len(),
    {
        let ghost pre = outcomes@;
        let outcome = outcomes.remove(0);
        proof {
            assert(pre.drop_first() =~= outcomes@);
            assert(pre[0] == orig_outcomes[i as int]);
            assert(orig_outcomes.subrange(i as int + 1, orig_outcomes.len() as int) =~= outcomes@);
        }
        let fo = FilteredOutput::from(outcome, filter, exclude);
        let ghost old_sections = sections@;
        if !fo.is_empty() {
            let header = repository_header(&repositories[i]);
            sections.push(Section { header, body: fo });
        }
        i += 1;
        proof {
            let kept_pre = spec_kept(orig_outcomes, *filter, *exclude, i as int - 1);
            let kept = spec_kept(orig_outcomes, *filter, *exclude, i as int);
            if spec_outcome_out(orig_outcomes[i as int - 1], *filter, *exclude) is None
                && spec_outcome_err(orig_outcomes[i as int - 1]) is None {
                assert(kept == kept_pre);
                assert(sections@ == old_sections);
            } else {
                assert(kept == kept_pre.push(i as int - 1));
                assert forall|j: int| 0 <= j < kept.len() implies {
                    &&& (#[trigger] sections@[j]).header@ == spec_header(orig_repos[kept[j]])
                    &&& spec_opt_str(sections@[j].body.out) == spec_outcome_out(
                        orig_outcomes[kept[j]],
                        *filter,
                        *exclude,
                    )
                    &&& spec_opt_str(sections@[j].body.err) == spec_outcome_err(
                        orig_outcomes[kept[j]],
                    )
                } by {
                    if j < kept_pre.len() {
                        assert(kept[j] == kept_pre[j]);
                        assert(sections@[j] == old_sections[j]);
                    } else {
                        assert(kept[j] == i - 1);
                    }
                }
            }
        }
    }
    Ok(sections)
}

/// The sections of a report keep the manifest's order: the kept
/// positions are strictly ascending, whatever each subprocess produced
/// and in whatever order the invocations finished.
pub proof fn lemma_report_order(
    outcomes: Seq<CommandOutcome>,
    filter: Option<String>,
    exclude: Option<String>,
    n: int,
)
    ensures
        forall|a: int, b: int|
            0 <= a < b < spec_kept(outcomes, filter, exclude, n).len() ==> #[trigger] spec_kept(
                outcomes,
                filter,
                exclude,
                n,
            )[a] < #[trigger] spec_kept(outcomes, filter, exclude, n)[b],
        forall|a: int|
            0 <= a < spec_kept(outcomes, filter, exclude, n).len() ==> 0 <= #[trigger] spec_kept(
                outcomes,
                filter,
                exclude,
                n,
            )[a] < n,
    decreases n,
{
    if n > 0 {
        lemma_report_order(outcomes, filter, exclude, n - 1);
        let prev = spec_kept(outcomes, filter, exclude, n - 1);
        let kept = spec_kept(outcomes, filter, exclude, n);
        assert forall|a: int| 0 <= a < kept.len() implies 0 <= #[trigger] kept[a] < n by {
            if a < prev.len() {
                assert(kept[a] == prev[a]);
            }
        }
        assert forall|a: int, b: int| 0 <= a < b < kept.len() implies #[trigger] kept[a]
            < #[trigger] kept[b] by {
            if b < prev.len() {
                assert(kept[a] == prev[a] && kept[b] == prev[b]);
            } else if b == prev.len() && kept.len() == prev.len() + 1 {
                assert(kept[a] == prev[a]);
                assert(0 <= prev[a] < n - 1);
                assert(kept[b] == n - 1);
            }
        }
    }
}

/// Standard-output text matched by an active `exclude` pattern is
/// omitted, even when the subprocess succeeded with nothing on the
/// error channel: the repository then contributes no section at all.
pub proof fn lemma_excluded_output_omitted(
    o: CommandOutcome,
    filter: Option<String>,
    exclude: Option<String>,
)
    requires
        o matches CommandOutcome::Captured { stdout, stderr } && stderr@.len() == 0 && (
        spec_decoded(stdout@) matches Some(m) && (exclude matches Some(p) && regex_match_of(
            p@,
            m,
        ))),
    ensures
        spec_outcome_out(o, filter, exclude) is None,
        spec_outcome_err(o) is None,
{
}

/// Error-channel content always surfaces: whatever `filter` and
/// `exclude` say, what reaches the error channel is exactly the decoded
/// standard error (or the spawn failure's description), and a
/// repository whose outcome carries such content always contributes a
/// section — the filters apply to standard output only.
pub proof fn lemma_error_channel_surfaces(
    outcomes: Seq<CommandOutcome>,
    filter: Option<String>,
    exclude: Option<String>,
    i: int,
    n: int,
)
    requires
        0 <= i < n <= outcomes.len(),
        spec_outcome_err(outcomes[i]) is Some,
    ensures
        outcomes[i] matches CommandOutcome::Captured { stdout, stderr } ==> spec_outcome_err(
            outcomes[i],
        ) == spec_decoded(stderr@),
        spec_kept(outcomes, filter, exclude, n).contains(i),
    decreases n,
{
    let kept = spec_kept(outcomes, filter, exclude, n);
    let prev = spec_kept(outcomes, filter, exclude, n - 1);
    if i == n - 1 {
        assert(kept == prev.push(n - 1));
        assert(kept[kept.len() - 1] == i);
    } else {
        lemma_error_channel_surfaces(outcomes, filter, exclude, i, n - 1);
        let j = choose|j: int| 0 <= j < prev.len() && prev[j] == i;
        assert(kept[j] == i);
    }
}

/// The report-level face of the exclusion rule: a repository whose
/// subprocess succeeded silently on the error channel and whose
/// standard output the `exclude` pattern matches contributes no
/// section.
pub proof fn lemma_excluded_repository_not_reported(
    outcomes: Seq<CommandOutcome>,
    filter: Option<String>,
    exclude: Option<String>,
    i: int,
    n: int,
)
    requires
        0 <= i < n <= outcomes.len(),
        outcomes[i] matches CommandOutcome::Captured { stdout, stderr } && stderr@.len() == 0 && (
        spec_decoded(stdout@) matches Some(m) && (exclude matches Some(p) && regex_match_of(
            p@,
            m,
        ))),
    ensures
        !spec_kept(outcomes, filter, exclude, n).contains(i),
    decreases n,
{
    let kept = spec_kept(outcomes, filter, exclude, n);
    let prev = spec_kept(outcomes, filter, exclude, n - 1);
    lemma_report_order(outcomes, filter, exclude, n - 1);
    if i == n - 1 {
        lemma_excluded_output_omitted(outcomes[i], filter, exclude);
        assert(kept == prev);
        assert forall|j: int| 0 <= j < kept.len() implies #[trigger] kept[j] != i by {
            assert(prev[j] < n - 1);
        }
    } else {
        lemma_excluded_repository_not_reported(outcomes, filter, exclude, i, n - 1);
        assert forall|j: int| 0 <= j < kept.len() implies #[trigger] kept[j] != i by {
            if j < prev.len() {
                assert(kept[j] == prev[j]);
                assert(prev.contains(prev[j]) || !prev.contains(i)) by {
                    assert(prev[j] == prev[j]);
                }
                if prev[j] == i {
                    assert(prev.contains(i));
                }
            } else {
                assert(kept[j] == n - 1);
            }
        }
    }
}

} // verus!
