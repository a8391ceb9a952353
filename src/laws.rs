//! What holds of every use of the spinner.
use crate::spinner::{default_message, frame_glyph, fresh, halt_note, resolve, run, AnimationView, ControlView, DirectiveView, PollView, SpinnerView, TickView};
use crate::stream::{esc, holds_at, lemma_final_line_is_one_line, renders, State};
use vstd::prelude::*;

verus! {

/// The state of a task after a run of ticks.
pub open spec fn settle(a: AnimationView, polls: Seq<PollView>) -> AnimationView
    decreases polls.len(),
{
    if polls.len() == 0 {
        a
    } else {
        settle(a.step(polls[0]).0, polls.drop_first())
    }
}

proof fn lemma_run_len(a: AnimationView, polls: Seq<PollView>)
    ensures
        run(a, polls).len() == polls.len(),
    decreases polls.len(),
{
    if polls.len() > 0 {
        lemma_run_len(a.step(polls[0]).0, polls.drop_first());
    }
}

proof fn lemma_run_append(a: AnimationView, p: Seq<PollView>, q: Seq<PollView>)
    ensures
        run(a, p + q) == run(a, p) + run(settle(a, p), q),
    decreases p.len(),
{
    if p.len() == 0 {
        assert(p + q =~= q);
        assert(run(a, p) + run(settle(a, p), q) =~= run(a, q));
    } else {
        let next = a.step(p[0]).0;
        assert((p + q)[0] == p[0]);
        assert((p + q).drop_first() =~= p.drop_first() + q);
        lemma_run_append(next, p.drop_first(), q);
        assert(run(a, p + q) =~= run(a, p) + run(settle(a, p), q));
    }
}

proof fn lemma_run_ended(a: AnimationView, polls: Seq<PollView>)
    requires
        a.done,
    ensures
        forall|i: int| 0 <= i < run(a, polls).len() ==> run(a, polls)[i] is Quit,
    decreases polls.len(),
{
    if polls.len() > 0 {
        lemma_run_ended(a, polls.drop_first());
        lemma_run_len(a, polls.drop_first());
        let rest = run(a, polls.drop_first());
        assert forall|i: int| 0 <= i < run(a, polls).len() implies run(a, polls)[i] is Quit by {
            if i > 0 {
                assert(run(a, polls)[i] == rest[i - 1]);
            }
        }
    }
}

proof fn lemma_frame_glyph_plain(i: int)
    ensures
        !frame_glyph(i).contains(esc()),
        !frame_glyph(i).contains('\n'),
{
    let g = frame_glyph(i);
    assert(g.len() == 1);
    assert forall|j: int| 0 <= j < g.len() implies g[j] != esc() && g[j] != '\n' by {}
}

/// A tick that draws a loading frame of `message` with a plain glyph.
pub open spec fn draws_frame(t: TickView, message: Seq<char>) -> bool {
    t matches TickView::Frame { glyph, message: m } && m == message && !glyph.contains(esc())
        && !glyph.contains('\n')
}

proof fn lemma_run_empties(a: AnimationView, polls: Seq<PollView>)
    requires
        a.wf(),
        !a.done,
        forall|i: int| 0 <= i < polls.len() ==> polls[i] == PollView::Empty,
    ensures
        settle(a, polls).wf(),
        !settle(a, polls).done,
        settle(a, polls).message == a.message,
        forall|i: int| 0 <= i < run(a, polls).len() ==> draws_frame(#[trigger] run(a, polls)[i], a.message),
    decreases polls.len(),
{
    if polls.len() > 0 {
        let next = a.step(polls[0]).0;
        lemma_run_empties(next, polls.drop_first());
        let rest = run(next, polls.drop_first());
        lemma_frame_glyph_plain(a.frame);
        assert forall|i: int| 0 <= i < run(a, polls).len() implies draws_frame(
            #[trigger] run(a, polls)[i],
            a.message,
        ) by {
            if i > 0 {
                assert(run(a, polls)[i] == rest[i - 1]);
            }
        }
    }
}

/// A final status is drawn exactly once. Whether or not a task runs, the
/// status call carries the status with the resolved message and leaves no
/// task running. Where a task runs and has so far seen nothing on its
/// channel, it drew only loading frames, draws the final line on the tick
/// that receives the control message, and draws nothing on any later tick.
/// A loading frame leaves the line open and the final line closes it: as
/// long as the message holds no newline, every rendering of the final line
/// ends with the one newline it holds.
pub proof fn law_final_line_exactly_once(
    s: SpinnerView,
    a: AnimationView,
    state: State,
    arg: Option<Seq<char>>,
    before: Seq<PollView>,
    after: Seq<PollView>,
)
    requires
        state.is_final(),
        a.wf(),
        !a.done,
        forall|i: int| 0 <= i < before.len() ==> before[i] == PollView::Empty,
    ensures
        ({
            let (s2, d) = s.finish(state, arg);
            let note = ControlView { state, message: resolve(arg, s.message) };
            let trace = run(a, before + seq![PollView::Message(note)] + after);
            &&& d.note() == note
            &&& !s2.animating
            &&& !s.animating ==> d == DirectiveView::Print(note)
            &&& s.animating ==> d == DirectiveView::Signal(note)
            &&& trace.len() == before.len() + 1 + after.len()
            &&& forall|i: int| 0 <= i < before.len() ==> draws_frame(#[trigger] trace[i], a.message)
            &&& trace[before.len() as int] == TickView::Finish(note)
            &&& forall|i: int| before.len() < i < trace.len() ==> trace[i] is Quit
            &&& !note.message.contains('\n') ==> forall|line: Seq<char>, frame: Seq<char>|
                #[trigger] renders(line, frame, note.message, state) ==> {
                    &&& line.len() > 0
                    &&& line.last() == '\n'
                    &&& forall|i: int| 0 <= i < line.len() - 1 ==> line[i] != '\n'
                }
        }),
{
    let note = ControlView { state, message: resolve(arg, s.message) };
    let tail = seq![PollView::Message(note)] + after;
    assert(before + seq![PollView::Message(note)] + after =~= before + tail);
    lemma_run_append(a, before, tail);
    lemma_run_empties(a, before);
    lemma_run_len(a, before);
    let mid = settle(a, before);
    let ended = mid.step(PollView::Message(note)).0;
    assert(tail[0] == PollView::Message(note));
    assert(tail.drop_first() =~= after);
    lemma_run_ended(ended, after);
    lemma_run_len(ended, after);
    let trace = run(a, before + tail);
    let first = run(a, before);
    let last = run(mid, tail);
    assert(last == seq![TickView::Finish(note)] + run(ended, after));
    assert forall|i: int| 0 <= i < before.len() implies draws_frame(#[trigger] trace[i], a.message) by {
        assert(trace[i] == first[i]);
    }
    assert(trace[before.len() as int] == last[0]);
    assert forall|i: int| before.len() < i < trace.len() implies trace[i] is Quit by {
        assert(trace[i] == run(ended, after)[i - before.len() - 1]);
    }
    if !note.message.contains('\n') {
        assert forall|line: Seq<char>, frame: Seq<char>|
            #[trigger] renders(line, frame, note.message, state) implies {
            &&& line.len() > 0
            &&& line.last() == '\n'
            &&& forall|i: int| 0 <= i < line.len() - 1 ==> line[i] != '\n'
        } by {
            lemma_final_line_is_one_line(line, frame, note.message, state);
        }
    }
}

/// A final status given no message shows the stored one: the message given
/// at construction ("Loading..." when none), which starting without a message
/// or with the same message, and a final status, leave as it is.
pub proof fn law_message_fallback(s: SpinnerView, m: Seq<char>, state: State, line: Seq<char>, frame: Seq<char>)
    requires
        state.is_final(),
        s.message == m,
        renders(line, frame, s.finish(state, None).1.note().message, state),
    ensures
        fresh(Some(m)).message == m,
        fresh(None).message == default_message(),
        s.start(None).0.message == m,
        s.start(Some(m)).0.message == m,
        s.finish(state, None).0.message == m,
        s.finish(state, None).1.note().message == m,
        exists|k: int| #[trigger] holds_at(line, m, k),
{
    crate::stream::lemma_line_shows_message(line, frame, m, state);
}

/// After a final status returns, no task runs, and the task that received the
/// control message has ended and draws nothing more, whatever it receives.
pub proof fn law_no_task_after_final(
    s: SpinnerView,
    a: AnimationView,
    state: State,
    arg: Option<Seq<char>>,
    after: Seq<PollView>,
)
    requires
        state.is_final(),
        a.wf(),
    ensures
        !s.finish(state, arg).0.animating,
        a.step(PollView::Message(s.finish(state, arg).1.note())).0.done,
        ({
            let ended = a.step(PollView::Message(s.finish(state, arg).1.note())).0;
            forall|i: int| 0 <= i < run(ended, after).len() ==> run(ended, after)[i] is Quit
        }),
{
    let ended = a.step(PollView::Message(s.finish(state, arg).1.note())).0;
    lemma_run_ended(ended, after);
}

/// Tearing a spinner down stops its task, if one runs, and leaves none
/// running. The task ends on the stop message, or when the channel closes,
/// and draws nothing from then on: not even a final line.
pub proof fn law_teardown(s: SpinnerView, a: AnimationView, after: Seq<PollView>)
    requires
        a.wf(),
    ensures
        !s.teardown().0.animating,
        s.teardown().0.message == s.message,
        s.animating <==> s.teardown().1 is Some,
        s.teardown().1 is Some ==> ({
            let polls = seq![PollView::Message(s.teardown().1->Some_0)] + after;
            forall|i: int| 0 <= i < run(a, polls).len() ==> run(a, polls)[i] is Quit
        }),
        ({
            let polls = seq![PollView::Disconnected] + after;
            forall|i: int| 0 <= i < run(a, polls).len() ==> run(a, polls)[i] is Quit
        }),
{
    let ended = a.ended();
    lemma_run_ended(ended, after);
    lemma_run_len(ended, after);
    if s.animating {
        let polls = seq![PollView::Message(halt_note())] + after;
        assert(polls[0] == PollView::Message(halt_note()));
        assert(polls.drop_first() =~= after);
        assert forall|i: int| 0 <= i < run(a, polls).len() implies run(a, polls)[i] is Quit by {
            if i > 0 {
                assert(run(a, polls)[i] == run(ended, after)[i - 1]);
            }
        }
    }
    let polls = seq![PollView::Disconnected] + after;
    assert(polls[0] == PollView::Disconnected);
    assert(polls.drop_first() =~= after);
    assert forall|i: int| 0 <= i < run(a, polls).len() implies run(a, polls)[i] is Quit by {
        if i > 0 {
            assert(run(a, polls)[i] == run(ended, after)[i - 1]);
        }
    }
}

/// A final status with no task running waits for nothing: the caller draws
/// the one final line itself, and the spinner stays idle.
pub proof fn law_final_when_idle(s: SpinnerView, state: State, arg: Option<Seq<char>>)
    requires
        !s.animating,
    ensures
        s.finish(state, arg).1 == DirectiveView::Print(
            ControlView { state, message: resolve(arg, s.message) },
        ),
        s.finish(state, arg).0 == s,
{
}

} // verus!
