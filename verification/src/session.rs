use vstd::prelude::*;
use vstd::string::*;
use vstd::utf8::*;

use crate::state::{default_pass_rate, default_rate, prior_outcome, PassRate, State};

verus! {

/// The first `n` bytes of the UTF-8 encoding of `s`, read back as characters.
pub open spec fn abbreviation(s: Seq<char>, n: nat) -> Seq<char> {
    decode_utf8(encode_utf8(s).subrange(0, n as int))
}

/// Whether byte offset `n` of the UTF-8 encoding of `s` starts a character.
pub open spec fn can_abbreviate(s: Seq<char>, n: nat) -> bool {
    is_char_boundary(encode_utf8(s), n as int)
}

/// The first `n` bytes of a revision id, as shown in messages.
pub fn abbreviate(sha: &str, n: usize) -> (short: &str)
    requires
        can_abbreviate(sha@, n as nat),
    ensures
        short@ == abbreviation(sha@, n as nat),
{
    let (short, _rest) = sha.split_at(n);
    proof {
        broadcast use vstd::utf8::encode_utf8_decode_utf8;

        assert(short.spec_bytes() == encode_utf8(short@));
    }
    short
}

/// For an id written in ASCII, as git writes object ids, cutting after the
/// `n`-th byte is possible whenever the id is at least `n` long, and keeps
/// exactly its first `n` characters.
pub proof fn law_ascii_abbreviation(s: Seq<char>, n: nat)
    requires
        is_ascii_chars(s),
        n <= s.len(),
    ensures
        can_abbreviate(s, n),
        abbreviation(s, n) == s.take(n as int),
{
    broadcast use is_ascii_chars_encode_utf8, encode_utf8_valid_utf8, encode_utf8_decode_utf8;

    let bytes = encode_utf8(s);
    let prefix = s.take(n as int);
    assert(is_ascii_chars(prefix));
    assert(encode_utf8(prefix) =~= bytes.subrange(0, n as int));
    if n == s.len() {
        is_char_boundary_start_end_of_seq(bytes);
    } else {
        is_char_boundary_iff_not_is_continuation_byte(bytes, n as int);
        assert(s[n as int] as u8 == bytes[n as int]);
        assert((s[n as int] as u8) < 128);
    }
}

/// One end of the searched range: a revision from before the regression
/// (`Old`) or one from after it (`New`).
#[derive(Clone, Copy, Debug, PartialEq, Eq, Structural)]
pub enum Bound {
    Old,
    New,
}

/// The other end of the range.
pub open spec fn other(bound: Bound) -> Bound {
    match bound {
        Bound::Old => Bound::New,
        Bound::New => Bound::Old,
    }
}

pub open spec fn bound_name(bound: Bound) -> Seq<char> {
    match bound {
        Bound::Old => "old"@,
        Bound::New => "new"@,
    }
}

pub open spec fn bound_relation(bound: Bound) -> Seq<char> {
    match bound {
        Bound::Old => "before"@,
        Bound::New => "after"@,
    }
}

impl Bound {
    /// The bound's name on the command line: `old` or `new`.
    pub fn name(&self) -> (name: &'static str)
        ensures
            name@ == bound_name(*self),
    {
        match self {
            Bound::Old => "old",
            Bound::New => "new",
        }
    }

    /// Where the bound's revisions stand relative to the regression.
    pub fn relation(&self) -> (word: &'static str)
        ensures
            word@ == bound_relation(*self),
    {
        match self {
            Bound::Old => "before",
            Bound::New => "after",
        }
    }
}

/// A request that the session refuses.
#[derive(Clone, Debug, PartialEq, Eq)]
pub enum ValidationError {
    /// The bound already has a revision.
    OnlyOneRevision(Bound),
    /// The new revision does not descend from the old one.
    NotDescendant { old_sha: String, new_sha: String },
    /// The range between the bounds holds no commit.
    NoCommits,
    /// A recorded sample is not among the candidate revisions.
    SampleNotFound(String),
    /// The bound has not been marked yet.
    BoundNotMarked(Bound),
}

/// Whether the message of `e` can be written: every revision id it quotes
/// can be cut after its tenth byte.
pub open spec fn can_describe(e: ValidationError) -> bool {
    match e {
        ValidationError::NotDescendant { old_sha, new_sha } => can_abbreviate(old_sha@, 10)
            && can_abbreviate(new_sha@, 10),
        ValidationError::SampleNotFound(revision) => can_abbreviate(revision@, 10),
        _ => true,
    }
}

/// The text shown for `e`.
pub open spec fn description(e: ValidationError) -> Seq<char> {
    match e {
        ValidationError::OnlyOneRevision(b) => "only one "@ + bound_name(b)
            + " revision is supported for now"@,
        ValidationError::NotDescendant { old_sha, new_sha } => "'"@ + abbreviation(new_sha@, 10)
            + "' is not a descendant of '"@ + abbreviation(old_sha@, 10) + "'"@,
        ValidationError::NoCommits => "no commits found between old and new revisions"@,
        ValidationError::SampleNotFound(revision) => "sample "@ + abbreviation(revision@, 10)
            + " not found in candidate list"@,
        ValidationError::BoundNotMarked(b) => "run 'git psect "@ + bound_name(b) + " <rev>' first"@,
    }
}

impl ValidationError {
    /// The message shown to the user.
    pub fn message(&self) -> (text: String)
        requires
            can_describe(*self),
        ensures
            text@ == description(*self),
    {
        match self {
            ValidationError::OnlyOneRevision(b) => {
                let mut text = String::from_str("only one ");
                text.append(b.name());
                text.append(" revision is supported for now");
                text
            },
            ValidationError::NotDescendant { old_sha, new_sha } => {
                let mut text = String::from_str("'");
                text.append(abbreviate(new_sha.as_str(), 10));
                text.append("' is not a descendant of '");
                text.append(abbreviate(old_sha.as_str(), 10));
                text.append("'");
                text
            },
            ValidationError::NoCommits => String::from_str(
                "no commits found between old and new revisions",
            ),
            ValidationError::SampleNotFound(revision) => {
                let mut text = String::from_str("sample ");
                text.append(abbreviate(revision.as_str(), 10));
                text.append(" not found in candidate list");
                text
            },
            ValidationError::BoundNotMarked(b) => {
                let mut text = String::from_str("run 'git psect ");
                text.append(b.name());
                text.append(" <rev>' first");
                text
            },
        }
    }
}

/// The revision a bound is set to when the user names none: `HEAD`.
pub fn refspec(rev: &Option<String>) -> (spec_text: &str)
    ensures
        spec_text@ == (match rev {
            Some(r) => r@,
            None => "HEAD"@,
        }),
{
    match rev {
        Some(r) => r.as_str(),
        None => "HEAD",
    }
}

/// What marking `bound` with `sha` does to the session `pre`: a bound that
/// already has a revision is refused and nothing changes; otherwise the
/// revision is added, the bound's pass rate keeps the value the user set or
/// takes the default, and that rate is returned.
pub open spec fn mark_outcome(
    pre: State,
    sha: String,
    bound: Bound,
    res: Result<PassRate, ValidationError>,
    post: State,
) -> bool {
    if pre.revisions(bound).len() > 0 {
        &&& res == Err::<PassRate, ValidationError>(ValidationError::OnlyOneRevision(bound))
        &&& post == pre
    } else {
        let rate = match pre.pass_rate(bound) {
            Some(r) => r,
            None => default_rate(bound),
        };
        &&& res == Ok::<PassRate, ValidationError>(rate)
        &&& post.revisions(bound) == pre.revisions(bound).push(sha)
        &&& post.revisions(other(bound)) == pre.revisions(other(bound))
        &&& post.pass_rate(bound) == Some(rate)
        &&& post.pass_rate(other(bound)) == pre.pass_rate(other(bound))
        &&& post.meta == pre.meta
        &&& post.samples == pre.samples
    }
}

/// Marks `sha` as the revision of `bound`, filling in the bound's default
/// pass rate if none is set. Returns the pass rate now in force.
pub fn mark(state: &mut State, sha: String, bound: Bound) -> (res: Result<PassRate, ValidationError>)
    ensures
        mark_outcome(*old(state), sha, bound, res, *final(state)),
        old(state).well_formed() ==> final(state).well_formed(),
{
    match bound {
        Bound::Old => {
            if state.old_revisions.len() > 0 {
                return Err(ValidationError::OnlyOneRevision(Bound::Old));
            }
            state.old_revisions.push(sha);
            let rate = match state.priors.old_pass_rate {
                Some(r) => r,
                None => default_pass_rate(Bound::Old),
            };
            state.priors.old_pass_rate = Some(rate);
            Ok(rate)
        },
        Bound::New => {
            if state.new_revisions.len() > 0 {
                return Err(ValidationError::OnlyOneRevision(Bound::New));
            }
            state.new_revisions.push(sha);
            let rate = match state.priors.new_pass_rate {
                Some(r) => r,
                None => default_pass_rate(Bound::New),
            };
            state.priors.new_pass_rate = Some(rate);
            Ok(rate)
        },
    }
}

/// The prompt shown while a bound is still missing; `None` once both are marked.
pub open spec fn waiting_prompt(state: State) -> Option<Seq<char>> {
    if state.old_revisions@.len() == 0 && state.new_revisions@.len() == 0 {
        Some(
            "Waiting for reference pre-regression and post-regression revisions.\nMark them with 'git psect old <rev>' and 'git psect new <rev>'."@,
        )
    } else if state.old_revisions@.len() == 0 {
        Some("Now mark a reference pre-regression revision with 'git psect old <rev>'."@)
    } else if state.new_revisions@.len() == 0 {
        Some("Now mark a reference post-regression revision with 'git psect new <rev>'."@)
    } else {
        None
    }
}

/// The next step of a session after a change of its bounds.
pub enum Advance {
    /// A bound is missing: show this prompt.
    Prompt(String),
    /// Both bounds are marked: search between these revisions.
    Bisect { old_sha: String, new_sha: String },
}

/// Decides whether the session waits for a bound or can search, and between
/// which revisions.
pub fn advance(state: &State) -> (res: Advance)
    ensures
        match res {
            Advance::Prompt(prompt) => waiting_prompt(*state) == Some(prompt@),
            Advance::Bisect { old_sha, new_sha } => {
                &&& waiting_prompt(*state) is None
                &&& old_sha == state.old_revisions@[0]
                &&& new_sha == state.new_revisions@[0]
            },
        },
        state.old_revisions@.len() == 0 && state.new_revisions@.len() > 0 ==> (res matches Advance::Prompt(
            prompt,
        ) && prompt@
            == "Now mark a reference pre-regression revision with 'git psect old <rev>'."@),
        state.old_revisions@.len() > 0 && state.new_revisions@.len() == 0 ==> (res matches Advance::Prompt(
            prompt,
        ) && prompt@
            == "Now mark a reference post-regression revision with 'git psect new <rev>'."@),
        state.old_revisions@.len() > 0 && state.new_revisions@.len() > 0 ==> res is Bisect,
{
    if state.old_revisions.len() == 0 && state.new_revisions.len() == 0 {
        return Advance::Prompt(
            String::from_str(
                "Waiting for reference pre-regression and post-regression revisions.\nMark them with 'git psect old <rev>' and 'git psect new <rev>'.",
            ),
        );
    }
    if state.old_revisions.len() == 0 {
        return Advance::Prompt(
            String::from_str(
                "Now mark a reference pre-regression revision with 'git psect old <rev>'.",
            ),
        );
    }
    if state.new_revisions.len() == 0 {
        return Advance::Prompt(
            String::from_str(
                "Now mark a reference post-regression revision with 'git psect new <rev>'.",
            ),
        );
    }
    Advance::Bisect {
        old_sha: state.old_revisions[0].clone(),
        new_sha: state.new_revisions[0].clone(),
    }
}

/// Whether the search may start between two marked revisions: a new revision
/// that does not descend from the old one is refused first (git does not count
/// a commit as its own descendant, so equal bounds are refused too), then a
/// range that holds no candidate commit.
pub open spec fn gate(old_sha: String, new_sha: String, descends: bool, n_candidates: nat) -> Result<
    (),
    ValidationError,
> {
    if !descends {
        Err(ValidationError::NotDescendant { old_sha, new_sha })
    } else if n_candidates == 0 {
        Err(ValidationError::NoCommits)
    } else {
        Ok(())
    }
}

/// Decides `gate` on git's answer to the ancestry question and the number of
/// candidate commits.
pub fn search_gate(old_sha: String, new_sha: String, descends: bool, n_candidates: usize) -> (res:
    Result<(), ValidationError>)
    ensures
        res == gate(old_sha, new_sha, descends, n_candidates as nat),
        !descends ==> res == Err::<(), ValidationError>(
            ValidationError::NotDescendant { old_sha, new_sha },
        ),
        descends && n_candidates == 0 ==> res == Err::<(), ValidationError>(
            ValidationError::NoCommits,
        ),
        descends && n_candidates > 0 ==> res == Ok::<(), ValidationError>(()),
{
    if !descends {
        return Err(ValidationError::NotDescendant { old_sha, new_sha });
    }
    if n_candidates == 0 {
        return Err(ValidationError::NoCommits);
    }
    Ok(())
}

/// What a command that marks a bound does next.
pub enum MarkAction {
    /// The mark is refused; nothing is to be written.
    Refuse(ValidationError),
    /// The mark stands and a bound is still missing: write the session and
    /// report, ending with `prompt`.
    Report { rate: PassRate, prompt: String },
    /// The mark stands and both bounds are set: ask git whether `new_sha`
    /// descends from `old_sha`, then pass the answer to `search_gate`.
    CheckAncestry { rate: PassRate, old_sha: String, new_sha: String },
}

/// What starting to mark `bound` with `sha` decides on the session `pre`,
/// leaving `post`: the mark itself, as `mark_outcome`, then the next step as
/// `advance` decides it on the marked session.
pub open spec fn start_mark_outcome(
    pre: State,
    sha: String,
    bound: Bound,
    action: MarkAction,
    post: State,
) -> bool {
    match action {
        MarkAction::Refuse(e) => mark_outcome(pre, sha, bound, Err(e), post),
        MarkAction::Report { rate, prompt } => {
            &&& mark_outcome(pre, sha, bound, Ok(rate), post)
            &&& waiting_prompt(post) == Some(prompt@)
        },
        MarkAction::CheckAncestry { rate, old_sha, new_sha } => {
            &&& mark_outcome(pre, sha, bound, Ok(rate), post)
            &&& waiting_prompt(post) is None
            &&& old_sha == post.old_revisions@[0]
            &&& new_sha == post.new_revisions@[0]
        },
    }
}

/// Marks `bound` with `sha` and decides what comes next: a refusal, a report
/// with the prompt for the missing bound, or the ancestry question.
pub fn start_mark(state: &mut State, sha: String, bound: Bound) -> (action: MarkAction)
    ensures
        start_mark_outcome(*old(state), sha, bound, action, *final(state)),
        old(state).well_formed() ==> final(state).well_formed(),
{
    let rate = match mark(state, sha, bound) {
        Err(e) => return MarkAction::Refuse(e),
        Ok(rate) => rate,
    };
    match advance(state) {
        Advance::Prompt(prompt) => MarkAction::Report { rate, prompt },
        Advance::Bisect { old_sha, new_sha } => MarkAction::CheckAncestry { rate, old_sha, new_sha },
    }
}

/// Marking the missing bound of a session whose other bound holds `other_sha`
/// asks git about exactly those two revisions, the old one first; and a
/// revision that does not descend is refused, naming both, whatever the
/// candidates.
pub proof fn law_second_bound_must_descend(
    pre: State,
    other_sha: String,
    sha: String,
    bound: Bound,
    action: MarkAction,
    post: State,
    n_candidates: nat,
)
    requires
        pre.revisions(other(bound)) == seq![other_sha],
        pre.revisions(bound).len() == 0,
        start_mark_outcome(pre, sha, bound, action, post),
    ensures
        action matches MarkAction::CheckAncestry { old_sha, new_sha, .. } && {
            &&& old_sha == (if bound == Bound::New {
                other_sha
            } else {
                sha
            })
            &&& new_sha == (if bound == Bound::New {
                sha
            } else {
                other_sha
            })
            &&& gate(old_sha, new_sha, false, n_candidates) == Err::<(), ValidationError>(
                ValidationError::NotDescendant { old_sha, new_sha },
            )
        },
{
    assert(post.revisions(bound) =~= seq![sha]);
    assert(post.revisions(other(bound)) =~= seq![other_sha]);
}

/// The report printed after a bound is marked, with the pass rate already
/// written as `percent` (a whole number of percent).
pub open spec fn mark_report_text(
    sha: Seq<char>,
    bound: Bound,
    percent: Seq<char>,
    prompt: Seq<char>,
) -> Seq<char> {
    "Marked "@ + abbreviation(sha, 10) + " as "@ + bound_name(bound) + "."@ + "\n"@
        + "Expecting the test to pass "@ + percent + "% of the time "@ + bound_relation(bound)
        + " the regression.\n"@ + ("Change with 'git psect set-prior "@ + bound_name(bound)
        + " <rate>'."@) + "\n"@ + prompt + "\n"@
}

/// Writes the report of a mark: what was marked, the pass rate expected on
/// that side of the regression, how to change it, and the next prompt.
pub fn mark_report(sha: &str, bound: Bound, percent: &str, prompt: &str) -> (text: String)
    requires
        can_abbreviate(sha@, 10),
    ensures
        text@ == mark_report_text(sha@, bound, percent@, prompt@),
{
    let mut text = marked_message(sha, bound);
    text.append("\n");
    text.append("Expecting the test to pass ");
    text.append(percent);
    text.append("% of the time ");
    text.append(bound.relation());
    text.append(" the regression.\n");
    text.append(set_prior_hint(bound).as_str());
    text.append("\n");
    text.append(prompt);
    text.append("\n");
    text
}

/// The prompt shown once the next revision to test is checked out.
pub open spec fn checkout_text(next_sha: Seq<char>, summary: Seq<char>) -> Seq<char> {
    "Checking out "@ + abbreviation(next_sha, 10) + " \""@ + summary
        + "\".\nNow either:\n- run your test and call 'git psect pass' or 'git psect fail', or\n- use 'git psect run <test>' to run on autopilot."@
}

/// Tells the user which revision was checked out and what to do next.
pub fn checkout_prompt(next_sha: &str, summary: &str) -> (prompt: String)
    requires
        can_abbreviate(next_sha@, 10),
    ensures
        prompt@ == checkout_text(next_sha@, summary@),
{
    let mut prompt = String::from_str("Checking out ");
    prompt.append(abbreviate(next_sha, 10));
    prompt.append(" \"");
    prompt.append(summary);
    prompt.append(
        "\".\nNow either:\n- run your test and call 'git psect pass' or 'git psect fail', or\n- use 'git psect run <test>' to run on autopilot.",
    );
    prompt
}

/// A bound is marked once: after a revision was accepted for `bound`,
/// marking the same bound again is refused, whatever the revision, and
/// leaves the session as it was.
pub proof fn law_bound_marked_once(
    s0: State,
    first: String,
    second: String,
    bound: Bound,
    r1: Result<PassRate, ValidationError>,
    s1: State,
    r2: Result<PassRate, ValidationError>,
    s2: State,
)
    requires
        mark_outcome(s0, first, bound, r1, s1),
        r1 is Ok,
        mark_outcome(s1, second, bound, r2, s2),
    ensures
        r2 == Err::<PassRate, ValidationError>(ValidationError::OnlyOneRevision(bound)),
        s2 == s1,
{
}

/// Marking both bounds of a session that had neither, in either order,
/// lets the session search between exactly those two revisions, with a
/// pass rate in force on both sides of the regression.
pub proof fn law_both_bounds_start_search(
    s0: State,
    first_bound: Bound,
    first: String,
    second: String,
    r1: Result<PassRate, ValidationError>,
    s1: State,
    r2: Result<PassRate, ValidationError>,
    s2: State,
)
    requires
        s0.old_revisions@.len() == 0,
        s0.new_revisions@.len() == 0,
        mark_outcome(s0, first, first_bound, r1, s1),
        mark_outcome(s1, second, other(first_bound), r2, s2),
    ensures
        r1 is Ok,
        r2 is Ok,
        waiting_prompt(s2) is None,
        s2.revisions(first_bound) == seq![first],
        s2.revisions(other(first_bound)) == seq![second],
        s2.priors.old_pass_rate is Some,
        s2.priors.new_pass_rate is Some,
{
    assert(s2.revisions(first_bound) =~= seq![first]);
    assert(s2.revisions(other(first_bound)) =~= seq![second]);
}

/// A pass rate that the user set for a bound is the one in force after the
/// bound is marked: the default never overwrites it.
pub proof fn law_user_prior_kept(
    s0: State,
    bound: Bound,
    rate: PassRate,
    s1: State,
    sha: String,
    res: Result<PassRate, ValidationError>,
    s2: State,
)
    requires
        prior_outcome(s0, bound, rate, s1),
        s1.revisions(bound).len() == 0,
        mark_outcome(s1, sha, bound, res, s2),
    ensures
        res == Ok::<PassRate, ValidationError>(rate),
        s2.pass_rate(bound) == Some(rate),
{
}

/// Once a session is well formed and both bounds are marked, both pass rates
/// are set, so the search can always build its outcome distributions.
pub proof fn law_search_has_pass_rates(state: State)
    requires
        state.well_formed(),
        waiting_prompt(state) is None,
    ensures
        state.priors.old_pass_rate is Some,
        state.priors.new_pass_rate is Some,
{
}

/// The line confirming that `sha` was marked as `bound`.
pub fn marked_message(sha: &str, bound: Bound) -> (text: String)
    requires
        can_abbreviate(sha@, 10),
    ensures
        text@ == "Marked "@ + abbreviation(sha@, 10) + " as "@ + bound_name(bound) + "."@,
{
    let mut text = String::from_str("Marked ");
    text.append(abbreviate(sha, 10));
    text.append(" as ");
    text.append(bound.name());
    text.append(".");
    text
}

/// The hint telling how to change the pass rate of `bound`.
pub fn set_prior_hint(bound: Bound) -> (text: String)
    ensures
        text@ == "Change with 'git psect set-prior "@ + bound_name(bound) + " <rate>'."@,
{
    let mut text = String::from_str("Change with 'git psect set-prior ");
    text.append(bound.name());
    text.append(" <rate>'.");
    text
}

/// How a test outcome is reported: `passed` or `failed`.
pub fn outcome_verb(outcome: bool) -> (verb: &'static str)
    ensures
        verb@ == (if outcome {
            "passed"@
        } else {
            "failed"@
        }),
{
    if outcome {
        "passed"
    } else {
        "failed"
    }
}

/// The line confirming a recorded outcome on `head_sha`.
pub fn outcome_message(head_sha: &str, outcome: bool) -> (text: String)
    requires
        can_abbreviate(head_sha@, 10),
    ensures
        text@ == abbreviation(head_sha@, 10) + " "@ + (if outcome {
            "passed"@
        } else {
            "failed"@
        }) + "."@,
{
    let mut text = String::new();
    text.append(abbreviate(head_sha, 10));
    text.append(" ");
    text.append(outcome_verb(outcome));
    text.append(".");
    text
}

/// The prompt after checking out the next revision to test, showing the
/// first `width` bytes of its id.
pub fn next_test_prompt(next_sha: &str, width: usize) -> (text: String)
    requires
        can_abbreviate(next_sha@, width as nat),
    ensures
        text@ == "Checking out "@ + abbreviation(next_sha@, width as nat)
            + ". Run your test then call 'git psect pass' or 'git psect fail'."@,
{
    let mut text = String::from_str("Checking out ");
    text.append(abbreviate(next_sha, width));
    text.append(". Run your test then call 'git psect pass' or 'git psect fail'.");
    text
}

/// Marking a bound that has neither a revision nor a pass rate yet puts that
/// bound's own default in force, whatever the other bound holds: 0.95 before
/// the regression, 0.5 after it (the binary64 encodings below).
pub proof fn law_unset_bound_takes_its_default(
    pre: State,
    sha: String,
    bound: Bound,
    res: Result<PassRate, ValidationError>,
    post: State,
)
    requires
        mark_outcome(pre, sha, bound, res, post),
        pre.revisions(bound).len() == 0,
        pre.pass_rate(bound) is None,
    ensures
        bound == Bound::Old ==> res == Ok::<PassRate, ValidationError>(
            PassRate { bits: 0x3FEE_6666_6666_6666 },
        ) && post.priors.old_pass_rate == Some(PassRate { bits: 0x3FEE_6666_6666_6666 }),
        bound == Bound::New ==> res == Ok::<PassRate, ValidationError>(
            PassRate { bits: 0x3FE0_0000_0000_0000 },
        ) && post.priors.new_pass_rate == Some(PassRate { bits: 0x3FE0_0000_0000_0000 }),
{
}

/// Two sessions that differ only in the other bound's pass rate give the
/// same result when the same bound is marked with the same revision.
pub proof fn law_mark_ignores_other_prior(
    pre1: State,
    pre2: State,
    sha: String,
    bound: Bound,
    res1: Result<PassRate, ValidationError>,
    post1: State,
    res2: Result<PassRate, ValidationError>,
    post2: State,
)
    requires
        pre1.revisions(bound) == pre2.revisions(bound),
        pre1.pass_rate(bound) == pre2.pass_rate(bound),
        mark_outcome(pre1, sha, bound, res1, post1),
        mark_outcome(pre2, sha, bound, res2, post2),
    ensures
        res1 == res2,
        post1.pass_rate(bound) == post2.pass_rate(bound),
{
}

/// The search gate refuses a new revision that does not descend from the old
/// one, naming both; otherwise it refuses only an empty range, and any range
/// with at least one candidate is accepted.
pub proof fn law_gate_accepts_any_nonempty_range(
    old_sha: String,
    new_sha: String,
    descends: bool,
    n_candidates: nat,
)
    ensures
        !descends ==> gate(old_sha, new_sha, descends, n_candidates) == Err::<(), ValidationError>(
            ValidationError::NotDescendant { old_sha, new_sha },
        ),
        descends && n_candidates == 0 ==> gate(old_sha, new_sha, descends, n_candidates) == Err::<
            (),
            ValidationError,
        >(ValidationError::NoCommits),
        descends && n_candidates > 0 ==> gate(old_sha, new_sha, descends, n_candidates) == Ok::<
            (),
            ValidationError,
        >(()),
{
}

/// The prompt after a change of bounds depends only on which bounds hold a
/// revision, never on the pass rates: it asks for exactly the missing bound,
/// for both when neither is marked, and there is none once both are marked.
pub proof fn law_prompt_names_missing_bound(state: State)
    ensures
        state.old_revisions@.len() == 0 && state.new_revisions@.len() == 0 ==> waiting_prompt(state)
            == Some(
            "Waiting for reference pre-regression and post-regression revisions.\nMark them with 'git psect old <rev>' and 'git psect new <rev>'."@,
        ),
        state.old_revisions@.len() == 0 && state.new_revisions@.len() > 0 ==> waiting_prompt(state)
            == Some("Now mark a reference pre-regression revision with 'git psect old <rev>'."@),
        state.old_revisions@.len() > 0 && state.new_revisions@.len() == 0 ==> waiting_prompt(state)
            == Some("Now mark a reference post-regression revision with 'git psect new <rev>'."@),
        state.old_revisions@.len() > 0 && state.new_revisions@.len() > 0 ==> waiting_prompt(state)
            is None,
{
}

/// Changing only the pass rates of a session does not change what follows a
/// change of its bounds.
pub proof fn law_prompt_ignores_priors(s1: State, s2: State)
    requires
        s1.old_revisions@.len() == s2.old_revisions@.len(),
        s1.new_revisions@.len() == s2.new_revisions@.len(),
    ensures
        waiting_prompt(s1) == waiting_prompt(s2),
{
}

} // verus!
