//! What holds of every session and of every line, proved from the model of
//! the state machine and of the codec.

use crate::actions::{ActionView, NotificationView};
use crate::json::{json_parse, member_of, Json};
use crate::machine::{
    after_all, after_failure, after_press, after_release, after_timeout, after_worker_lost,
    deadline_after, emitted, emitted_by_all, failure_actions, next, press_actions, press_starts,
    release_actions, timeout_actions, timeout_message, Failure, SessionState, SessionView,
    TriggerView,
};
use crate::protocol::{
    decoded_events, events_of, fields_of, first_event, result_event, EventView,
};
use vstd::prelude::*;

verus! {

/// The transition table of the session: whether a trigger may lead from the
/// session `s` to the state `to`. A press starts a recording from `Idle`
/// where a worker runs, a release turns `Recording` into `Transcribing`, a
/// result, an error or a timeout at or after the deadline turns
/// `Transcribing` into `Idle`, the loss of the worker leads to `Idle` from
/// anywhere, and nothing else changes the state.
pub open spec fn table_allows(s: SessionView, t: TriggerView, to: SessionState) -> bool {
    match (s.state, t) {
        (SessionState::Idle, TriggerView::Press { .. }) => to == if s.worker_input is Some {
            SessionState::Recording
        } else {
            SessionState::Idle
        },
        (SessionState::Recording, TriggerView::Release { .. }) => to == SessionState::Transcribing,
        (SessionState::Transcribing, TriggerView::Event(e)) => to == if e.is_terminal() {
            SessionState::Idle
        } else {
            SessionState::Transcribing
        },
        (SessionState::Transcribing, TriggerView::Timeout { now }) => to == if s.deadline is Some
            && now >= s.deadline->0 {
            SessionState::Idle
        } else {
            SessionState::Transcribing
        },
        (_, TriggerView::WorkerLost) => to == SessionState::Idle,
        _ => to == s.state,
    }
}

/// Whether an action sends the command that starts a recording.
pub open spec fn is_start_command(a: ActionView) -> bool {
    a matches ActionView::Send(c) && c is StartRecording
}

/// How many of the actions send the command that starts a recording.
pub open spec fn count_start_commands(actions: Seq<ActionView>) -> nat
    decreases actions.len(),
{
    if actions.len() == 0 {
        0
    } else {
        count_start_commands(actions.drop_last()) + if is_start_command(actions.last()) {
            1nat
        } else {
            0nat
        }
    }
}

/// Whether none of the actions sends a command to the worker.
pub open spec fn sends_nothing(actions: Seq<ActionView>) -> bool {
    forall|i: int| 0 <= i < actions.len() ==> !(#[trigger] actions[i] is Send)
}

/// Whether a run of triggers holds neither a release of the hotkey nor the
/// start of a worker.
pub open spec fn holds_no_release(triggers: Seq<TriggerView>) -> bool {
    forall|i: int|
        0 <= i < triggers.len() ==> !(#[trigger] triggers[i] is Release) && !(triggers[i]
            is WorkerStarted)
}

/// Whether a trigger can end the wait for a transcript: a result or an
/// error from the worker, the loss of the worker, or a timeout.
pub open spec fn ends_wait(t: TriggerView) -> bool {
    ||| t is WorkerLost
    ||| t is Timeout
    ||| (t matches TriggerView::Event(e) && e.is_terminal())
}

/// Whether a run of triggers holds none that can end the wait for a
/// transcript.
pub open spec fn holds_no_end(triggers: Seq<TriggerView>) -> bool {
    forall|i: int| 0 <= i < triggers.len() ==> !ends_wait(#[trigger] triggers[i])
}

/// Every trigger takes a well-formed session to a well-formed session along
/// a row of the transition table.
pub proof fn lemma_step_follows_table(s: SessionView, t: TriggerView)
    requires
        s.wf(),
    ensures
        next(s, t).wf(),
        table_allows(s, t, next(s, t).state),
{
}

/// Whatever the order in which triggers arrive, the states that a watcher
/// sees form a path through the transition table: each trigger makes
/// exactly one step, from the state that the trigger before it left, along
/// a row of the table.
pub proof fn lemma_run_follows_table(s: SessionView, triggers: Seq<TriggerView>)
    requires
        s.wf(),
    ensures
        after_all(s, triggers).wf(),
        forall|i: int|
            #![trigger triggers[i]]
            0 <= i < triggers.len() ==> {
                let before = after_all(s, triggers.take(i));
                let after = after_all(s, triggers.take(i + 1));
                &&& before.wf()
                &&& after == next(before, triggers[i])
                &&& table_allows(before, triggers[i], after.state)
            },
    decreases triggers.len(),
{
    if triggers.len() > 0 {
        let shorter = triggers.drop_last();
        lemma_run_follows_table(s, shorter);
        lemma_step_follows_table(after_all(s, shorter), triggers.last());
        assert forall|i: int| #![trigger triggers[i]] 0 <= i < triggers.len() implies {
            let before = after_all(s, triggers.take(i));
            let after = after_all(s, triggers.take(i + 1));
            &&& before.wf()
            &&& after == next(before, triggers[i])
            &&& table_allows(before, triggers[i], after.state)
        } by {
            if i < shorter.len() {
                assert(shorter.take(i) =~= triggers.take(i));
                assert(shorter.take(i + 1) =~= triggers.take(i + 1));
                assert(shorter[i] == triggers[i]);
            } else {
                assert(triggers.take(i) =~= shorter);
                assert(triggers.take(i + 1) =~= triggers);
            }
        }
    }
}

proof fn lemma_count_is_additive(a: Seq<ActionView>, b: Seq<ActionView>)
    ensures
        count_start_commands(a + b) == count_start_commands(a) + count_start_commands(b),
    decreases b.len(),
{
    if b.len() == 0 {
        assert(a + b =~= a);
    } else {
        assert((a + b).drop_last() =~= a + b.drop_last());
        lemma_count_is_additive(a, b.drop_last());
    }
}

proof fn lemma_count_without_start(actions: Seq<ActionView>)
    requires
        forall|i: int| 0 <= i < actions.len() ==> !is_start_command(#[trigger] actions[i]),
    ensures
        count_start_commands(actions) == 0,
    decreases actions.len(),
{
    if actions.len() > 0 {
        assert(!is_start_command(actions[actions.len() - 1]));
        lemma_count_without_start(actions.drop_last());
    }
}

/// One trigger sends the command that starts a recording exactly where it
/// is a press that finds the session idle with a worker, and then once.
pub proof fn lemma_only_a_fresh_press_starts(s: SessionView, t: TriggerView)
    requires
        s.wf(),
    ensures
        count_start_commands(emitted(s, t)) == if t is Press && press_starts(s) {
            1nat
        } else {
            0nat
        },
{
    let actions = emitted(s, t);
    if t is Press && press_starts(s) {
        let head = seq![actions[0]];
        let tail = seq![actions[1]];
        assert(actions =~= head + tail);
        assert(is_start_command(head.last()));
        lemma_count_without_start(head.drop_last());
        lemma_count_without_start(tail);
        lemma_count_is_additive(head, tail);
    } else {
        assert forall|i: int| 0 <= i < actions.len() implies !is_start_command(
            #[trigger] actions[i],
        ) by {
            match t {
                TriggerView::Event(e) => {
                    assert(!(actions[i] is Send));
                },
                _ => {},
            }
        }
        lemma_count_without_start(actions);
    }
}

/// A second press changes nothing and asks for nothing, so two presses in a
/// row send the command that starts a recording exactly once where the
/// first press found the session idle with a worker, and never otherwise.
pub proof fn lemma_second_press_sends_nothing(s: SessionView, first: u64, second: u64)
    requires
        s.wf(),
    ensures
        after_press(after_press(s, first), second) == after_press(s, first),
        press_actions(after_press(s, first), second) == Seq::<ActionView>::empty(),
        count_start_commands(
            press_actions(s, first) + press_actions(after_press(s, first), second),
        ) == if press_starts(s) {
            1nat
        } else {
            0nat
        },
{
    let both = press_actions(s, first) + press_actions(after_press(s, first), second);
    assert(both =~= press_actions(s, first));
    lemma_only_a_fresh_press_starts(s, TriggerView::Press { now: first });
}

/// However many presses arrive with no release between them, and whatever
/// else happens to the one worker in the meantime, the command that starts
/// a recording is sent at most once.
pub proof fn lemma_presses_start_once(s: SessionView, triggers: Seq<TriggerView>)
    requires
        s.wf(),
        holds_no_release(triggers),
    ensures
        after_all(s, triggers).wf(),
        count_start_commands(emitted_by_all(s, triggers)) <= 1,
        count_start_commands(emitted_by_all(s, triggers)) == 1 ==> after_all(s, triggers).state
            == SessionState::Recording || after_all(s, triggers).worker_input is None,
    decreases triggers.len(),
{
    if triggers.len() > 0 {
        let shorter = triggers.drop_last();
        let last = triggers.last();
        assert forall|i: int| 0 <= i < shorter.len() implies !(#[trigger] shorter[i] is Release)
            && !(shorter[i] is WorkerStarted) by {
            assert(shorter[i] == triggers[i]);
        }
        lemma_presses_start_once(s, shorter);
        let before = after_all(s, shorter);
        assert(!(last is Release) && !(last is WorkerStarted)) by {
            assert(last == triggers[triggers.len() - 1]);
        }
        lemma_only_a_fresh_press_starts(before, last);
        lemma_count_is_additive(emitted_by_all(s, shorter), emitted(before, last));
        lemma_step_follows_table(before, last);
    }
}

/// A release that finds the session idle changes nothing and asks for
/// nothing.
pub proof fn lemma_stray_release(s: SessionView, now: u64)
    requires
        s.wf(),
        s.state == SessionState::Idle,
    ensures
        after_release(s, now) == s,
        release_actions(s, now) == Seq::<ActionView>::empty(),
{
}

/// A line that is no JSON stands for no event.
pub proof fn lemma_malformed_line_is_discarded(line: Seq<char>)
    requires
        json_parse(line) is None,
    ensures
        decoded_events(line) == Seq::<EventView>::empty(),
        first_event(decoded_events(line)) is None,
{
}

/// A line whose JSON has none of the members `audio_level`, `status`, `text`
/// and `error` stands for no event.
pub proof fn lemma_unrecognised_line_is_discarded(line: Seq<char>)
    requires
        json_parse(line) matches Some(j) && member_of(j, "audio_level"@) is None && member_of(
            j,
            "status"@,
        ) is None && member_of(j, "text"@) is None && member_of(j, "error"@) is None,
    ensures
        decoded_events(line) == Seq::<EventView>::empty(),
        first_event(decoded_events(line)) is None,
{
    assert(decoded_events(line) =~= Seq::<EventView>::empty());
}

/// Of the members of a line the first one present wins, in the order audio
/// level, status, transcript, error: its event is the first that the line
/// stands for.
pub proof fn lemma_first_member_wins(j: Json)
    ensures
        ({
            let f = fields_of(j);
            let first = first_event(events_of(f));
            &&& f.audio_level is Some ==> first == Some(
                EventView::AudioLevel { bits: f.audio_level->0 },
            )
            &&& f.audio_level is None && f.status is Some ==> first == Some(
                EventView::StatusChanged { name: f.status->0 },
            )
            &&& f.audio_level is None && f.status is None && f.text is Some ==> first == Some(
                result_event(f),
            )
            &&& f.audio_level is None && f.status is None && f.text is None && f.error is Some
                ==> first == Some(EventView::TranscriptionError { message: f.error->0 })
            &&& f.audio_level is None && f.status is None && f.text is None && f.error is None
                ==> first is None
        }),
{
}

/// Once the worker is lost the session has no sink and is idle, and a press
/// changes nothing and sends nothing.
pub proof fn lemma_lost_worker_blocks_press(s: SessionView, now: u64)
    requires
        s.wf(),
    ensures
        ({
            let lost = after_worker_lost(s);
            &&& lost.wf()
            &&& lost.worker_input is None
            &&& lost.state == SessionState::Idle
            &&& after_press(lost, now) == lost
            &&& press_actions(lost, now) == Seq::<ActionView>::empty()
        }),
{
}

/// While no worker runs, nothing but the start of a worker sends a command
/// or brings a sink.
pub proof fn lemma_no_worker_no_command(s: SessionView, t: TriggerView)
    requires
        s.wf(),
        s.worker_input is None,
        !(t is WorkerStarted),
    ensures
        sends_nothing(emitted(s, t)),
        next(s, t).worker_input is None,
{
}

/// No failure leaves a session in progress hanging: it either changes
/// nothing, or it leaves the session idle and without a sink, and then a
/// session that was in progress has told the user interface. No failure
/// sends a command.
pub proof fn lemma_failures_degrade(s: SessionView, failure: Failure)
    requires
        s.wf(),
    ensures
        after_failure(s, failure).wf(),
        sends_nothing(failure_actions(s, failure)),
        !failure.loses_worker() ==> after_failure(s, failure) == s && failure_actions(s, failure)
            == Seq::<ActionView>::empty(),
        failure.loses_worker() ==> after_failure(s, failure).state == SessionState::Idle
            && after_failure(s, failure).worker_input is None,
        failure.loses_worker() && s.state != SessionState::Idle ==> failure_actions(
            s,
            failure,
        ).last() is Notify,
{
}

/// A release arms a deadline no later than the ceiling after it, and a
/// timeout reported at or after that deadline brings the session back to
/// idle and tells the user interface.
pub proof fn lemma_timeout_ends_wait(s: SessionView, released: u64, now: u64)
    requires
        s.wf(),
        s.state == SessionState::Recording,
        now >= deadline_after(released, s.ceiling_ms),
    ensures
        ({
            let waiting = after_release(s, released);
            &&& waiting.state == SessionState::Transcribing
            &&& waiting.deadline == Some(deadline_after(released, s.ceiling_ms))
            &&& deadline_after(released, s.ceiling_ms) - released <= s.ceiling_ms
            &&& after_timeout(waiting, now).state == SessionState::Idle
            &&& timeout_actions(waiting, now) == seq![
                ActionView::Notify(
                    NotificationView::TranscriptionFailed { error: timeout_message() },
                ),
            ]
        }),
{
}

/// Nothing but a result, an error, the loss of the worker or a timeout ends
/// the wait for a transcript or moves its deadline.
pub proof fn lemma_wait_goes_on(s: SessionView, triggers: Seq<TriggerView>)
    requires
        s.wf(),
        s.state == SessionState::Transcribing,
        holds_no_end(triggers),
    ensures
        after_all(s, triggers).wf(),
        after_all(s, triggers).state == SessionState::Transcribing,
        after_all(s, triggers).deadline == s.deadline,
    decreases triggers.len(),
{
    if triggers.len() > 0 {
        let shorter = triggers.drop_last();
        assert forall|i: int| 0 <= i < shorter.len() implies !ends_wait(#[trigger] shorter[i]) by {
            assert(shorter[i] == triggers[i]);
        }
        lemma_wait_goes_on(s, shorter);
        assert(!ends_wait(triggers.last())) by {
            assert(triggers.last() == triggers[triggers.len() - 1]);
        }
        lemma_step_follows_table(after_all(s, shorter), triggers.last());
    }
}

/// The wait for a transcript is bounded: where no result and no error ever
/// arrives, whatever else happens after the release, a timeout reported at
/// or after the deadline brings the session back to idle and tells the user
/// interface.
pub proof fn lemma_wait_is_bounded(
    s: SessionView,
    released: u64,
    between: Seq<TriggerView>,
    now: u64,
)
    requires
        s.wf(),
        s.state == SessionState::Recording,
        holds_no_end(between),
        now >= deadline_after(released, s.ceiling_ms),
    ensures
        ({
            let waiting = after_all(after_release(s, released), between);
            &&& after_timeout(waiting, now).state == SessionState::Idle
            &&& timeout_actions(waiting, now) == seq![
                ActionView::Notify(
                    NotificationView::TranscriptionFailed { error: timeout_message() },
                ),
            ]
        }),
{
    lemma_wait_goes_on(after_release(s, released), between);
}

} // verus!
