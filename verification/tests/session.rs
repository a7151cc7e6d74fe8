use psect::commands::new::run;
use psect::session::{marked_message, next_test_prompt, outcome_message, outcome_verb, set_prior_hint};
use psect::session::{mark_report, search_gate, start_mark, MarkAction};
use psect::session::{abbreviate, advance, checkout_prompt, mark, refspec, Advance, Bound, ValidationError};
use psect::state::{stamp_from_reading, ClockError};
use psect::state::{default_pass_rate, PassRate, State, DEFAULT_NEW_PASS_RATE_BITS, DEFAULT_OLD_PASS_RATE_BITS};

const OLD_SHA: &str = "d81b7c493a0123456789abcdef0123456789abcd";
const NEW_SHA: &str = "11cc33a4200123456789abcdef0123456789abcd";

fn empty_state() -> State {
    State::new("0.1.0".to_string()).unwrap()
}

fn rate(value: f64) -> PassRate {
    PassRate { bits: value.to_bits() }
}

#[test]
fn advance_prompt_when_no_bounds() {
    let state = empty_state();
    match advance(&state) {
        Advance::Prompt(prompt) => {
            assert!(prompt.contains("old") && prompt.contains("new"), "{prompt}");
        }
        Advance::Bisect { .. } => panic!("expected a prompt"),
    }
}

#[test]
fn advance_prompts_name_the_missing_bound() {
    let mut state = empty_state();
    match advance(&state) {
        Advance::Prompt(p) => assert_eq!(
            p,
            "Waiting for reference pre-regression and post-regression revisions.\nMark them with 'git psect old <rev>' and 'git psect new <rev>'."
        ),
        _ => panic!("expected a prompt"),
    }
    mark(&mut state, NEW_SHA.to_string(), Bound::New).unwrap();
    match advance(&state) {
        Advance::Prompt(p) => assert_eq!(
            p,
            "Now mark a reference pre-regression revision with 'git psect old <rev>'."
        ),
        _ => panic!("expected a prompt"),
    }
    let mut state = empty_state();
    mark(&mut state, OLD_SHA.to_string(), Bound::Old).unwrap();
    match advance(&state) {
        Advance::Prompt(p) => assert_eq!(
            p,
            "Now mark a reference post-regression revision with 'git psect new <rev>'."
        ),
        _ => panic!("expected a prompt"),
    }
}

#[test]
fn marking_both_bounds_starts_the_search() {
    let mut state = empty_state();
    assert_eq!(mark(&mut state, NEW_SHA.to_string(), Bound::New), Ok(default_pass_rate(Bound::New)));
    assert_eq!(mark(&mut state, OLD_SHA.to_string(), Bound::Old), Ok(default_pass_rate(Bound::Old)));
    match advance(&state) {
        Advance::Bisect { old_sha, new_sha } => {
            assert_eq!(old_sha, OLD_SHA);
            assert_eq!(new_sha, NEW_SHA);
        }
        Advance::Prompt(p) => panic!("unexpected prompt {p}"),
    }
    assert!(state.priors.old_pass_rate.is_some());
    assert!(state.priors.new_pass_rate.is_some());
}

#[test]
fn default_pass_rates() {
    assert_eq!(f64::from_bits(DEFAULT_OLD_PASS_RATE_BITS), 0.95);
    assert_eq!(f64::from_bits(DEFAULT_NEW_PASS_RATE_BITS), 0.5);
    assert_eq!(default_pass_rate(Bound::Old), rate(0.95));
    assert_eq!(default_pass_rate(Bound::New), rate(0.5));
}

#[test]
fn second_mark_of_a_bound_is_refused() {
    let mut state = empty_state();
    mark(&mut state, OLD_SHA.to_string(), Bound::Old).unwrap();
    let err = mark(&mut state, NEW_SHA.to_string(), Bound::Old).unwrap_err();
    assert_eq!(err, ValidationError::OnlyOneRevision(Bound::Old));
    assert_eq!(err.message(), "only one old revision is supported for now");
    assert_eq!(state.old_revisions, vec![OLD_SHA.to_string()]);

    mark(&mut state, NEW_SHA.to_string(), Bound::New).unwrap();
    let err = mark(&mut state, OLD_SHA.to_string(), Bound::New).unwrap_err();
    assert_eq!(err.message(), "only one new revision is supported for now");
    assert_eq!(state.new_revisions, vec![NEW_SHA.to_string()]);
}

#[test]
fn user_prior_is_kept_when_marking() {
    let mut state = empty_state();
    state.set_prior(Bound::Old, rate(0.99));
    state.set_prior(Bound::New, rate(0.1));
    assert_eq!(mark(&mut state, OLD_SHA.to_string(), Bound::Old), Ok(rate(0.99)));
    assert_eq!(mark(&mut state, NEW_SHA.to_string(), Bound::New), Ok(rate(0.1)));
    assert_eq!(state.priors.old_pass_rate, Some(rate(0.99)));
    assert_eq!(state.priors.new_pass_rate, Some(rate(0.1)));
}

#[test]
fn set_prior_changes_only_its_bound() {
    let mut state = empty_state();
    state.set_prior(Bound::New, rate(0.25));
    assert_eq!(state.priors.new_pass_rate, Some(rate(0.25)));
    assert_eq!(state.priors.old_pass_rate, None);
    state.set_prior(Bound::New, rate(0.75));
    assert_eq!(state.priors.new_pass_rate, Some(rate(0.75)));
}

#[test]
fn new_command_marks_the_new_bound() {
    let mut state = empty_state();
    match run(&mut state, NEW_SHA.to_string()) {
        MarkAction::Report { rate: r, prompt } => {
            assert_eq!(r, rate(0.5));
            assert_eq!(
                prompt,
                "Now mark a reference pre-regression revision with 'git psect old <rev>'."
            );
        }
        _ => panic!("expected a report"),
    }
    assert_eq!(state.new_revisions, vec![NEW_SHA.to_string()]);
    assert!(state.old_revisions.is_empty());
    match run(&mut state, OLD_SHA.to_string()) {
        MarkAction::Refuse(e) => assert_eq!(e, ValidationError::OnlyOneRevision(Bound::New)),
        _ => panic!("expected a refusal"),
    }
    assert_eq!(state.new_revisions, vec![NEW_SHA.to_string()]);
}

#[test]
fn new_bound_after_old_asks_for_ancestry() {
    let mut state = empty_state();
    start_mark(&mut state, OLD_SHA.to_string(), Bound::Old);
    match run(&mut state, NEW_SHA.to_string()) {
        MarkAction::CheckAncestry { rate: r, old_sha, new_sha } => {
            assert_eq!(r, rate(0.5));
            assert_eq!(old_sha, OLD_SHA);
            assert_eq!(new_sha, NEW_SHA);
            let refusal = search_gate(old_sha, new_sha, false, 4).unwrap_err();
            assert_eq!(
                refusal.message(),
                "'11cc33a420' is not a descendant of 'd81b7c493a'"
            );
        }
        _ => panic!("expected the ancestry question"),
    }
}

#[test]
fn old_bound_after_new_asks_for_ancestry() {
    let mut state = empty_state();
    start_mark(&mut state, NEW_SHA.to_string(), Bound::New);
    match start_mark(&mut state, OLD_SHA.to_string(), Bound::Old) {
        MarkAction::CheckAncestry { rate: r, old_sha, new_sha } => {
            assert_eq!(r, rate(0.95));
            assert_eq!(old_sha, OLD_SHA);
            assert_eq!(new_sha, NEW_SHA);
        }
        _ => panic!("expected the ancestry question"),
    }
}

#[test]
fn report_after_marking() {
    assert_eq!(
        mark_report(
            NEW_SHA,
            Bound::New,
            "50",
            "Now mark a reference pre-regression revision with 'git psect old <rev>'."
        ),
        "Marked 11cc33a420 as new.\nExpecting the test to pass 50% of the time after the regression.\nChange with 'git psect set-prior new <rate>'.\nNow mark a reference pre-regression revision with 'git psect old <rev>'.\n"
    );
    assert_eq!(
        mark_report(OLD_SHA, Bound::Old, "95", "next"),
        "Marked d81b7c493a as old.\nExpecting the test to pass 95% of the time before the regression.\nChange with 'git psect set-prior old <rate>'.\nnext\n"
    );
}

#[test]
fn fresh_session_is_empty() {
    let state = empty_state();
    assert_eq!(state.meta.tool_version, "0.1.0");
    assert!(state.meta.started_at.contains('T'));
    assert!(state.old_revisions.is_empty());
    assert!(state.new_revisions.is_empty());
    assert!(state.samples.is_empty());
    assert!(state.priors.old_pass_rate.is_none() && state.priors.new_pass_rate.is_none());
}

#[test]
fn outcomes_need_both_bounds() {
    let mut state = empty_state();
    assert_eq!(state.require_bounds(), Err(ValidationError::BoundNotMarked(Bound::Old)));
    assert_eq!(
        ValidationError::BoundNotMarked(Bound::Old).message(),
        "run 'git psect old <rev>' first"
    );
    mark(&mut state, OLD_SHA.to_string(), Bound::Old).unwrap();
    assert_eq!(state.require_bounds(), Err(ValidationError::BoundNotMarked(Bound::New)));
    assert_eq!(
        ValidationError::BoundNotMarked(Bound::New).message(),
        "run 'git psect new <rev>' first"
    );
    mark(&mut state, NEW_SHA.to_string(), Bound::New).unwrap();
    assert_eq!(state.require_bounds(), Ok(()));
}

#[test]
fn outcomes_are_appended_in_order() {
    let mut state = empty_state();
    state.record_outcome(OLD_SHA.to_string(), true, None).unwrap();
    state.record_outcome(NEW_SHA.to_string(), false, Some("flaky".to_string())).unwrap();
    assert_eq!(state.samples.len(), 2);
    assert_eq!(state.samples[0].revision, OLD_SHA);
    assert!(state.samples[0].outcome);
    assert_eq!(state.samples[0].comment, None);
    assert_eq!(state.samples[1].revision, NEW_SHA);
    assert!(!state.samples[1].outcome);
    assert_eq!(state.samples[1].comment.as_deref(), Some("flaky"));
    assert!(state.samples[1].recorded_at.contains('T'));
}

#[test]
fn head_is_the_default_revision() {
    assert_eq!(refspec(&None), "HEAD");
    assert_eq!(refspec(&Some("main".to_string())), "main");
}

#[test]
fn revision_ids_are_cut_after_ten_bytes() {
    assert_eq!(abbreviate(OLD_SHA, 10), "d81b7c493a");
    assert_eq!(abbreviate(OLD_SHA, 8), "d81b7c49");
    assert_eq!(abbreviate("äbcdefghijk", 10), "äbcdefghi");
}

#[test]
fn checkout_prompt_names_the_commit() {
    let prompt = checkout_prompt(NEW_SHA, "break test.sh");
    assert_eq!(
        prompt,
        "Checking out 11cc33a420 \"break test.sh\".\nNow either:\n- run your test and call 'git psect pass' or 'git psect fail', or\n- use 'git psect run <test>' to run on autopilot."
    );
}

#[test]
fn validation_messages() {
    let err = ValidationError::NotDescendant {
        old_sha: OLD_SHA.to_string(),
        new_sha: NEW_SHA.to_string(),
    };
    assert_eq!(err.message(), "'11cc33a420' is not a descendant of 'd81b7c493a'");
    assert_eq!(
        ValidationError::NoCommits.message(),
        "no commits found between old and new revisions"
    );
    assert_eq!(
        ValidationError::SampleNotFound(OLD_SHA.to_string()).message(),
        "sample d81b7c493a not found in candidate list"
    );
}

#[test]
fn bound_words() {
    assert_eq!(Bound::Old.name(), "old");
    assert_eq!(Bound::New.name(), "new");
    assert_eq!(Bound::Old.relation(), "before");
    assert_eq!(Bound::New.relation(), "after");
}

#[test]
fn report_lines() {
    assert_eq!(marked_message(OLD_SHA, Bound::Old), "Marked d81b7c493a as old.");
    assert_eq!(marked_message(NEW_SHA, Bound::New), "Marked 11cc33a420 as new.");
    assert_eq!(set_prior_hint(Bound::New), "Change with 'git psect set-prior new <rate>'.");
    assert_eq!(outcome_verb(true), "passed");
    assert_eq!(outcome_verb(false), "failed");
    assert_eq!(outcome_message(OLD_SHA, false), "d81b7c493a failed.");
    assert_eq!(
        next_test_prompt(NEW_SHA, 8),
        "Checking out 11cc33a4. Run your test then call 'git psect pass' or 'git psect fail'."
    );
}

#[test]
fn search_refuses_non_descendants_then_empty_ranges() {
    assert_eq!(
        search_gate(OLD_SHA.to_string(), NEW_SHA.to_string(), false, 5),
        Err(ValidationError::NotDescendant {
            old_sha: OLD_SHA.to_string(),
            new_sha: NEW_SHA.to_string(),
        })
    );
    assert_eq!(
        search_gate(OLD_SHA.to_string(), OLD_SHA.to_string(), false, 0),
        Err(ValidationError::NotDescendant {
            old_sha: OLD_SHA.to_string(),
            new_sha: OLD_SHA.to_string(),
        })
    );
    assert_eq!(
        search_gate(OLD_SHA.to_string(), NEW_SHA.to_string(), true, 0),
        Err(ValidationError::NoCommits)
    );
    assert_eq!(search_gate(OLD_SHA.to_string(), NEW_SHA.to_string(), true, 3), Ok(()));
}

#[test]
fn time_stamps_are_utc_rfc3339() {
    let mut state = empty_state();
    state.record_outcome(OLD_SHA.to_string(), true, None).unwrap();
    for stamp in [&state.meta.started_at, &state.samples[0].recorded_at] {
        assert!(stamp.is_ascii());
        assert!(stamp.len() >= 25);
        assert!(stamp.ends_with("+00:00"), "{stamp}");
        assert_eq!(stamp.as_bytes()[10], b'T');
    }
}

#[test]
fn advance_rejects_non_ancestor_new() {
    // Reversed bounds: the old revision is newer than the new one, so git
    // answers that the new one does not descend from it.
    let mut state = State::new_at("0.1.0".to_string(), "2024-01-01T00:00:00Z".to_string());
    mark(&mut state, NEW_SHA.to_string(), Bound::Old).unwrap();
    mark(&mut state, OLD_SHA.to_string(), Bound::New).unwrap();
    let err = match advance(&state) {
        Advance::Bisect { old_sha, new_sha } => search_gate(old_sha, new_sha, false, 3).unwrap_err(),
        Advance::Prompt(p) => panic!("unexpected prompt {p}"),
    };
    assert!(matches!(err, ValidationError::NotDescendant { .. }));
    assert_eq!(err.message(), "'d81b7c493a' is not a descendant of '11cc33a420'");
}

#[test]
fn clock_readings_are_written_as_utc() {
    assert_eq!(stamp_from_reading(None), Err(ClockError::BeforeEpoch));
    assert_eq!(stamp_from_reading(Some((u64::MAX, 0))), Err(ClockError::OutOfRange));
    assert_eq!(stamp_from_reading(Some((i64::MAX as u64, 0))), Err(ClockError::OutOfRange));
    assert_eq!(stamp_from_reading(Some((0, 0))).unwrap(), "1970-01-01T00:00:00+00:00");
    assert_eq!(
        stamp_from_reading(Some((1_431_648_000, 0))).unwrap(),
        "2015-05-15T00:00:00+00:00"
    );
    assert_eq!(
        stamp_from_reading(Some((1_431_648_000, 500_000_000))).unwrap(),
        "2015-05-15T00:00:00.500+00:00"
    );
}

#[test]
fn stamped_constructors_keep_the_given_time() {
    let mut state = State::new_at("0.2.0".to_string(), "2024-01-01T00:00:00+00:00".to_string());
    assert_eq!(state.meta.started_at, "2024-01-01T00:00:00+00:00");
    assert_eq!(state.meta.tool_version, "0.2.0");
    state.record_outcome_at(OLD_SHA.to_string(), false, None, "2024-01-02T03:04:05+00:00".to_string());
    assert_eq!(state.samples.len(), 1);
    assert_eq!(state.samples[0].recorded_at, "2024-01-02T03:04:05+00:00");
    assert_eq!(state.samples[0].revision, OLD_SHA);
    assert!(!state.samples[0].outcome);
}
