//! Whole runs of the machine: what a sequence of events leads to, and which
//! actions it draws.

use crate::config::ConfigView;
use crate::device::binding_of;
use crate::error::DeviceError;
use crate::orchestrator::{
    next, version_or_empty, ActionView, EventView, Phase, SessionView, POLL_INTERVAL_SECS,
};
use vstd::prelude::*;

verus! {

/// One step's input: the event, and what the store holds when it happens.
pub struct Stimulus {
    pub config: ConfigView,
    pub event: EventView,
}

/// The run after the steps of `trace`, in order, starting from `s`.
pub open spec fn run(s: SessionView, trace: Seq<Stimulus>) -> SessionView
    decreases trace.len(),
{
    if trace.len() == 0 {
        s
    } else {
        run(next(s, trace[0].config, trace[0].event).0, trace.drop_first())
    }
}

/// The actions that the steps of `trace` draw, in order, starting from `s`.
pub open spec fn actions(s: SessionView, trace: Seq<Stimulus>) -> Seq<ActionView>
    decreases trace.len(),
{
    if trace.len() == 0 {
        Seq::empty()
    } else {
        seq![next(s, trace[0].config, trace[0].event).1] + actions(
            next(s, trace[0].config, trace[0].event).0,
            trace.drop_first(),
        )
    }
}

/// How often `action` occurs in `drawn`.
pub open spec fn occurrences(drawn: Seq<ActionView>, action: ActionView) -> nat
    decreases drawn.len(),
{
    if drawn.len() == 0 {
        0
    } else {
        occurrences(drawn.drop_last(), action) + if drawn.last() == action {
            1nat
        } else {
            0nat
        }
    }
}

/// `rounds` times: the device reports that it is not done, and the caller
/// waits.
pub open spec fn waiting(rounds: nat, config: ConfigView) -> Seq<Stimulus>
    decreases rounds,
{
    if rounds == 0 {
        Seq::empty()
    } else {
        seq![
            Stimulus { config, event: EventView::StatusRead(Ok(false)) },
            Stimulus { config, event: EventView::Slept },
        ] + waiting((rounds - 1) as nat, config)
    }
}

/// `rounds` times: a sleep, then the next progress query.
pub open spec fn waiting_actions(rounds: nat) -> Seq<ActionView>
    decreases rounds,
{
    if rounds == 0 {
        Seq::empty()
    } else {
        seq![ActionView::Sleep { secs: POLL_INTERVAL_SECS }, ActionView::CheckStatus]
            + waiting_actions((rounds - 1) as nat)
    }
}

/// A run in which nothing fails: it begins while the store holds `at_start`,
/// the device runs `before`, the store holds `at_upload` when the upload is
/// due, the device reports `rounds` times that it is not done and then that it
/// is, and it runs `after` in the end.
pub open spec fn smooth_trace(
    at_start: ConfigView,
    at_upload: ConfigView,
    before: Seq<char>,
    rounds: nat,
    after: Seq<char>,
) -> Seq<Stimulus> {
    seq![
        Stimulus { config: at_start, event: EventView::Started },
        Stimulus { config: at_upload, event: EventView::VersionRead(Ok(before)) },
        Stimulus { config: at_upload, event: EventView::Uploaded(Ok(())) },
        Stimulus { config: at_upload, event: EventView::Triggered(Ok(())) },
    ] + waiting(rounds, at_upload) + seq![
        Stimulus { config: at_upload, event: EventView::StatusRead(Ok(true)) },
        Stimulus { config: at_upload, event: EventView::VersionRead(Ok(after)) },
    ]
}

/// What the caller is asked to do in the course of [`smooth_trace`].
pub open spec fn smooth_actions(
    at_upload: ConfigView,
    before: Seq<char>,
    rounds: nat,
    after: Seq<char>,
) -> Seq<ActionView> {
    seq![
        ActionView::GetVersion,
        ActionView::Upload { path: at_upload.os_file_path },
        ActionView::Trigger,
        ActionView::CheckStatus,
    ] + waiting_actions(rounds) + seq![
        ActionView::GetVersion,
        ActionView::Report { previous: before, current: after },
    ]
}

/// The run that [`smooth_trace`] ends in.
pub open spec fn smooth_end(at_start: ConfigView, before: Seq<char>, after: Seq<char>) -> SessionView {
    SessionView {
        phase: Phase::Done,
        binding: Some(binding_of(at_start)),
        current_version: Some(before),
        upload_complete: true,
        upgrade_triggered: true,
        sleeping: false,
        final_version: Some(after),
        failure: None,
    }
}

/// A trace in two parts is run part after part.
pub proof fn lemma_run_in_parts(s: SessionView, first: Seq<Stimulus>, second: Seq<Stimulus>)
    ensures
        run(s, first + second) == run(run(s, first), second),
        actions(s, first + second) == actions(s, first) + actions(run(s, first), second),
    decreases first.len(),
{
    if first.len() == 0 {
        assert(first + second =~= second);
        assert(actions(s, first) + actions(run(s, first), second) =~= actions(s, second));
    } else {
        let after = next(s, first[0].config, first[0].event).0;
        assert((first + second).drop_first() =~= first.drop_first() + second);
        lemma_run_in_parts(after, first.drop_first(), second);
        assert(actions(s, first + second) =~= actions(s, first) + actions(run(s, first), second));
    }
}

/// A run that is well formed stays so, whatever happens to it and in whatever
/// order; a run that begins at the beginning is one such.
pub proof fn lemma_every_run_is_wf(s: SessionView, trace: Seq<Stimulus>)
    requires
        s.wf(),
    ensures
        run(s, trace).wf(),
        SessionView::initial().wf(),
    decreases trace.len(),
{
    if trace.len() > 0 {
        crate::orchestrator::lemma_step_keeps_wf(s, trace[0].config, trace[0].event);
        lemma_every_run_is_wf(next(s, trace[0].config, trace[0].event).0, trace.drop_first());
    }
}

/// Each step draws one action.
pub proof fn lemma_one_action_per_step(s: SessionView, trace: Seq<Stimulus>)
    ensures
        actions(s, trace).len() == trace.len(),
    decreases trace.len(),
{
    if trace.len() > 0 {
        lemma_one_action_per_step(next(s, trace[0].config, trace[0].event).0, trace.drop_first());
    }
}

/// Whether `event` says that the upload succeeded.
pub open spec fn answers_upload(event: EventView) -> bool {
    event matches EventView::Uploaded(Ok(_))
}

/// Nowhere in a run is the device told to start the upgrade but in answer to
/// an upload that succeeded: a run in which no upload succeeds never triggers.
pub proof fn lemma_trigger_only_after_upload(s: SessionView, trace: Seq<Stimulus>)
    ensures
        actions(s, trace).len() == trace.len(),
        forall|i: int|
            0 <= i < trace.len() && actions(s, trace)[i] is Trigger ==> answers_upload(
                trace[i].event,
            ),
    decreases trace.len(),
{
    if trace.len() > 0 {
        let after = next(s, trace[0].config, trace[0].event).0;
        let rest = trace.drop_first();
        lemma_trigger_only_after_upload(after, rest);
        assert forall|i: int|
            0 <= i < trace.len() && actions(s, trace)[i] is Trigger implies answers_upload(
            trace[i].event,
        ) by {
            if i == 0 {
                crate::orchestrator::lemma_trigger_follows_upload(s, trace[0].config, trace[0].event);
            } else {
                assert(actions(s, trace)[i] == actions(after, rest)[i - 1]);
                assert(trace[i] == rest[i - 1]);
            }
        }
    }
}

/// Once a run is over, nothing that happens changes it or draws an action:
/// after a failure in particular, no later step is ever taken.
pub proof fn lemma_finished_run_is_silent(s: SessionView, trace: Seq<Stimulus>)
    requires
        s.finished(),
    ensures
        run(s, trace) == s,
        actions(s, trace).len() == trace.len(),
        forall|i: int| 0 <= i < trace.len() ==> actions(s, trace)[i] == ActionView::Nothing,
    decreases trace.len(),
{
    if trace.len() > 0 {
        lemma_finished_run_is_silent(s, trace.drop_first());
    }
}

/// A run that fails draws nothing from then on: if `failing` is the awaited
/// event and reports an error, then whatever `later` holds, the caller is told
/// once to abort, the run stays `Failed` with that error, and every later
/// action is `Nothing`.
pub proof fn lemma_nothing_follows_a_failure(
    s: SessionView,
    failing: Stimulus,
    error: DeviceError,
    later: Seq<Stimulus>,
)
    requires
        s.awaits(failing.event),
        crate::orchestrator::error_in(failing.event) == Some(error),
    ensures
        run(s, seq![failing] + later) == s.failed_with(error),
        actions(s, seq![failing] + later).len() == 1 + later.len(),
        actions(s, seq![failing] + later)[0] == (ActionView::Abort { error }),
        forall|i: int|
            1 <= i <= later.len() ==> actions(s, seq![failing] + later)[i] == ActionView::Nothing,
{
    let failed = s.failed_with(error);
    assert(next(s, failing.config, failing.event) == crate::orchestrator::fail(s, error));
    let first = seq![failing];
    assert(first.drop_first() =~= Seq::<Stimulus>::empty());
    assert(run(s, first) == failed) by {
        assert(run(failed, first.drop_first()) == failed);
    }
    assert(actions(s, first) =~= seq![ActionView::Abort { error }]) by {
        assert(actions(failed, first.drop_first()) =~= Seq::<ActionView>::empty());
    }
    lemma_run_in_parts(s, first, later);
    lemma_finished_run_is_silent(failed, later);
}

/// The polling loop: while the device reports that it is not done, the run
/// stays where it is, and each report draws one sleep and one further query.
pub proof fn lemma_waiting_rounds(s: SessionView, rounds: nat, config: ConfigView)
    requires
        s.phase is Polling,
        !s.sleeping,
    ensures
        run(s, waiting(rounds, config)) == s,
        actions(s, waiting(rounds, config)) == waiting_actions(rounds),
    decreases rounds,
{
    if rounds > 0 {
        let round = seq![
            Stimulus { config, event: EventView::StatusRead(Ok(false)) },
            Stimulus { config, event: EventView::Slept },
        ];
        let asleep = next(s, config, EventView::StatusRead(Ok(false))).0;
        assert(next(asleep, config, EventView::Slept).0 == s);
        assert(round.drop_first() =~= seq![Stimulus { config, event: EventView::Slept }]);
        assert(round.drop_first().drop_first() =~= Seq::<Stimulus>::empty());
        assert(run(s, round) == s) by {
            assert(run(asleep, round.drop_first()) == s) by {
                assert(run(s, round.drop_first().drop_first()) == s);
            }
        }
        assert(actions(s, round) =~= seq![
            ActionView::Sleep { secs: POLL_INTERVAL_SECS },
            ActionView::CheckStatus,
        ]) by {
            assert(actions(s, round.drop_first().drop_first()) =~= Seq::<ActionView>::empty());
            assert(actions(asleep, round.drop_first()) =~= seq![ActionView::CheckStatus]);
        }
        lemma_waiting_rounds(s, (rounds - 1) as nat, config);
        lemma_run_in_parts(s, round, waiting((rounds - 1) as nat, config));
    }
}

/// The occurrences in a sequence in two parts are those of the parts.
pub proof fn lemma_occurrences_in_parts(
    first: Seq<ActionView>,
    second: Seq<ActionView>,
    action: ActionView,
)
    ensures
        occurrences(first + second, action) == occurrences(first, action) + occurrences(second, action),
    decreases second.len(),
{
    if second.len() == 0 {
        assert(first + second =~= first);
    } else {
        assert((first + second).drop_last() =~= first + second.drop_last());
        lemma_occurrences_in_parts(first, second.drop_last(), action);
    }
}

/// Waiting `rounds` rounds takes `rounds` sleeps and `rounds` further queries,
/// and nothing else.
pub proof fn lemma_waiting_counts(rounds: nat)
    ensures
        waiting_actions(rounds).len() == 2 * rounds,
        occurrences(waiting_actions(rounds), ActionView::Sleep { secs: POLL_INTERVAL_SECS }) == rounds,
        occurrences(waiting_actions(rounds), ActionView::CheckStatus) == rounds,
    decreases rounds,
{
    if rounds > 0 {
        let round = seq![ActionView::Sleep { secs: POLL_INTERVAL_SECS }, ActionView::CheckStatus];
        let rest = waiting_actions((rounds - 1) as nat);
        lemma_waiting_counts((rounds - 1) as nat);
        lemma_counts_of_four(round, ActionView::Sleep { secs: POLL_INTERVAL_SECS });
        lemma_counts_of_four(round, ActionView::CheckStatus);
        lemma_occurrences_in_parts(round, rest, ActionView::Sleep { secs: POLL_INTERVAL_SECS });
        lemma_occurrences_in_parts(round, rest, ActionView::CheckStatus);
    }
}

/// The occurrences in a sequence of at most four actions, one by one.
proof fn lemma_counts_of_four(drawn: Seq<ActionView>, action: ActionView)
    requires
        drawn.len() <= 4,
    ensures
        occurrences(drawn, action) == (if drawn.len() > 0 && drawn[0] == action {
            1nat
        } else {
            0nat
        }) + (if drawn.len() > 1 && drawn[1] == action {
            1nat
        } else {
            0nat
        }) + (if drawn.len() > 2 && drawn[2] == action {
            1nat
        } else {
            0nat
        }) + (if drawn.len() > 3 && drawn[3] == action {
            1nat
        } else {
            0nat
        }),
    decreases drawn.len(),
{
    if drawn.len() > 0 {
        lemma_counts_of_four(drawn.drop_last(), action);
    }
}

/// A run in which nothing fails ends in `Done`, with the binding taken from
/// the store as it was at the start, the image path taken from the store as it
/// was when the upload was due, and both versions on record; and it draws
/// exactly the actions of [`smooth_actions`], in that order.
pub proof fn lemma_smooth_run(
    at_start: ConfigView,
    at_upload: ConfigView,
    before: Seq<char>,
    rounds: nat,
    after: Seq<char>,
)
    ensures
        run(SessionView::initial(), smooth_trace(at_start, at_upload, before, rounds, after))
            == smooth_end(at_start, before, after),
        actions(SessionView::initial(), smooth_trace(at_start, at_upload, before, rounds, after))
            == smooth_actions(at_upload, before, rounds, after),
{
    let s0 = SessionView::initial();
    let head = seq![
        Stimulus { config: at_start, event: EventView::Started },
        Stimulus { config: at_upload, event: EventView::VersionRead(Ok(before)) },
        Stimulus { config: at_upload, event: EventView::Uploaded(Ok(())) },
        Stimulus { config: at_upload, event: EventView::Triggered(Ok(())) },
    ];
    let tail = seq![
        Stimulus { config: at_upload, event: EventView::StatusRead(Ok(true)) },
        Stimulus { config: at_upload, event: EventView::VersionRead(Ok(after)) },
    ];
    let s1 = next(s0, at_start, EventView::Started).0;
    let s2 = next(s1, at_upload, EventView::VersionRead(Ok(before))).0;
    let s3 = next(s2, at_upload, EventView::Uploaded(Ok(()))).0;
    let s4 = next(s3, at_upload, EventView::Triggered(Ok(()))).0;
    let s5 = next(s4, at_upload, EventView::StatusRead(Ok(true))).0;
    let s6 = next(s5, at_upload, EventView::VersionRead(Ok(after))).0;
    assert(s6 == smooth_end(at_start, before, after));

    let h1 = head.drop_first();
    let h2 = h1.drop_first();
    let h3 = h2.drop_first();
    let h4 = h3.drop_first();
    assert(h4 =~= Seq::<Stimulus>::empty());
    assert(run(s4, h4) == s4);
    assert(run(s3, h3) == s4);
    assert(run(s2, h2) == s4);
    assert(run(s1, h1) == s4);
    assert(run(s0, head) == s4);
    assert(actions(s4, h4) =~= Seq::<ActionView>::empty());
    assert(actions(s3, h3) =~= seq![ActionView::CheckStatus]);
    assert(actions(s2, h2) =~= seq![ActionView::Trigger, ActionView::CheckStatus]);
    assert(actions(s1, h1) =~= seq![
        ActionView::Upload { path: at_upload.os_file_path },
        ActionView::Trigger,
        ActionView::CheckStatus,
    ]);
    assert(actions(s0, head) =~= seq![
        ActionView::GetVersion,
        ActionView::Upload { path: at_upload.os_file_path },
        ActionView::Trigger,
        ActionView::CheckStatus,
    ]);

    let t1 = tail.drop_first();
    let t2 = t1.drop_first();
    assert(t2 =~= Seq::<Stimulus>::empty());
    assert(run(s6, t2) == s6);
    assert(run(s5, t1) == s6);
    assert(run(s4, tail) == s6);
    assert(actions(s6, t2) =~= Seq::<ActionView>::empty());
    assert(actions(s5, t1) =~= seq![ActionView::Report { previous: before, current: after }]);
    assert(actions(s4, tail) =~= seq![
        ActionView::GetVersion,
        ActionView::Report { previous: before, current: after },
    ]);

    lemma_waiting_rounds(s4, rounds, at_upload);
    lemma_run_in_parts(s0, head, waiting(rounds, at_upload));
    lemma_run_in_parts(s0, head + waiting(rounds, at_upload), tail);
}

/// In a run in which nothing fails, the device is asked for its progress once
/// more than it reports that it is not done, and the caller sleeps once for
/// each such report: `rounds + 1` queries and `rounds` sleeps.
pub proof fn lemma_smooth_run_counts(
    at_upload: ConfigView,
    before: Seq<char>,
    rounds: nat,
    after: Seq<char>,
)
    ensures
        occurrences(smooth_actions(at_upload, before, rounds, after), ActionView::CheckStatus) == rounds
            + 1,
        occurrences(
            smooth_actions(at_upload, before, rounds, after),
            ActionView::Sleep { secs: POLL_INTERVAL_SECS },
        ) == rounds,
        occurrences(smooth_actions(at_upload, before, rounds, after), ActionView::Trigger) == 1,
{
    let head = seq![
        ActionView::GetVersion,
        ActionView::Upload { path: at_upload.os_file_path },
        ActionView::Trigger,
        ActionView::CheckStatus,
    ];
    let tail = seq![ActionView::GetVersion, ActionView::Report { previous: before, current: after }];
    let sleep = ActionView::Sleep { secs: POLL_INTERVAL_SECS };
    lemma_waiting_counts(rounds);
    lemma_waiting_has_no_trigger(rounds);
    lemma_counts_of_four(head, ActionView::CheckStatus);
    lemma_counts_of_four(head, sleep);
    lemma_counts_of_four(head, ActionView::Trigger);
    lemma_counts_of_four(tail, ActionView::CheckStatus);
    lemma_counts_of_four(tail, sleep);
    lemma_counts_of_four(tail, ActionView::Trigger);
    lemma_occurrences_in_parts(head, waiting_actions(rounds), ActionView::CheckStatus);
    lemma_occurrences_in_parts(head, waiting_actions(rounds), sleep);
    lemma_occurrences_in_parts(head, waiting_actions(rounds), ActionView::Trigger);
    lemma_occurrences_in_parts(head + waiting_actions(rounds), tail, ActionView::CheckStatus);
    lemma_occurrences_in_parts(head + waiting_actions(rounds), tail, sleep);
    lemma_occurrences_in_parts(head + waiting_actions(rounds), tail, ActionView::Trigger);
}

/// Waiting never tells the device to start.
proof fn lemma_waiting_has_no_trigger(rounds: nat)
    ensures
        occurrences(waiting_actions(rounds), ActionView::Trigger) == 0,
    decreases rounds,
{
    if rounds > 0 {
        let round = seq![ActionView::Sleep { secs: POLL_INTERVAL_SECS }, ActionView::CheckStatus];
        lemma_waiting_has_no_trigger((rounds - 1) as nat);
        lemma_counts_of_four(round, ActionView::Trigger);
        lemma_occurrences_in_parts(round, waiting_actions((rounds - 1) as nat), ActionView::Trigger);
    }
}

} // verus!
