//! The session loop, modeled as a state machine over the replies of the
//! terminal backend.  Each iteration renders one frame and then blocks for
//! one input event; a press of the quit key ends the loop, any backend error
//! aborts it, and the shutdown sequence runs exactly once on every ending.

use vstd::prelude::*;

verus! {

/// One input event, reduced to what the loop can distinguish: a character
/// key, any other key, a mouse event, or a resize.
#[derive(Clone, Copy, Debug, PartialEq, Eq, Structural)]
pub enum InputEvent {
    Character(char),
    OtherKey,
    Mouse,
    Resize,
}

/// Whether an event is the quit request: a press of the lowercase letter `q`.
pub open spec fn is_quit(e: InputEvent) -> bool {
    e == InputEvent::Character('q')
}

/// Decide whether an event ends the session.  Every other event is ignored
/// and the loop renders again.
pub fn is_quit_event(e: &InputEvent) -> (r: bool)
    ensures
        r == is_quit(*e),
{
    match e {
        InputEvent::Character(c) => *c == 'q',
        _ => false,
    }
}

/// One reply of the terminal backend: the outcome of a draw call, or the
/// outcome of a blocking read.
#[derive(Clone, Copy, Debug, PartialEq, Eq, Structural)]
pub enum BackendReply {
    RenderOk,
    RenderFailed,
    Received(InputEvent),
    ReadFailed,
}

/// One observable step of the session: a call into the backend, a shutdown
/// step, or the final error report.
#[derive(Clone, Copy, Debug, PartialEq, Eq, Structural)]
pub enum TraceItem {
    RenderCall,
    ReadCall,
    RestoreRawMode,
    LeaveAltScreen,
    ShowCursor,
    ReportError,
}

/// How a session ends: the quit key was pressed, a backend call failed, or
/// the script ran out while the loop was still waiting (the real loop would
/// block forever on such a stream).
#[derive(Clone, Copy, Debug, PartialEq, Eq, Structural)]
pub enum SessionEnd {
    Quit,
    Failed,
    Blocked,
}

/// Whether a reply answers a draw call (rather than a read).
pub open spec fn is_render_reply(r: BackendReply) -> bool {
    r == BackendReply::RenderOk || r == BackendReply::RenderFailed
}

/// Whether a reply is a received event that requests quitting.
pub open spec fn quit_reply(r: BackendReply) -> bool {
    match r {
        BackendReply::Received(e) => is_quit(e),
        _ => false,
    }
}

/// A script is well formed when draw replies and read replies alternate,
/// starting with a draw reply, as the loop consumes them.
pub open spec fn wf_script(s: Seq<BackendReply>) -> bool {
    forall|i: int| 0 <= i < s.len() ==> (is_render_reply(#[trigger] s[i]) <==> i % 2 == 0)
}

/// The shutdown sequence, in the order the session performs it: restore the
/// normal input mode, leave the alternate screen (which also releases mouse
/// capture), and show the cursor again.
pub open spec fn teardown_seq() -> Seq<TraceItem> {
    seq![TraceItem::RestoreRawMode, TraceItem::LeaveAltScreen, TraceItem::ShowCursor]
}

/// The trace of backend calls and shutdown steps that a session performs when
/// the backend answers with the given script.
pub open spec fn spec_trace(s: Seq<BackendReply>) -> Seq<TraceItem>
    decreases s.len(),
{
    if s.len() == 0 {
        Seq::empty()
    } else if s[0] == BackendReply::RenderFailed {
        seq![TraceItem::RenderCall] + teardown_seq() + seq![TraceItem::ReportError]
    } else if s.len() == 1 {
        seq![TraceItem::RenderCall, TraceItem::ReadCall]
    } else if s[1] == BackendReply::ReadFailed {
        seq![TraceItem::RenderCall, TraceItem::ReadCall] + teardown_seq()
            + seq![TraceItem::ReportError]
    } else if quit_reply(s[1]) {
        seq![TraceItem::RenderCall, TraceItem::ReadCall] + teardown_seq()
    } else {
        seq![TraceItem::RenderCall, TraceItem::ReadCall] + spec_trace(s.skip(2))
    }
}

/// How the session ends when the backend answers with the given script.
pub open spec fn spec_end(s: Seq<BackendReply>) -> SessionEnd
    decreases s.len(),
{
    if s.len() == 0 {
        SessionEnd::Blocked
    } else if s[0] == BackendReply::RenderFailed {
        SessionEnd::Failed
    } else if s.len() == 1 {
        SessionEnd::Blocked
    } else if s[1] == BackendReply::ReadFailed {
        SessionEnd::Failed
    } else if quit_reply(s[1]) {
        SessionEnd::Quit
    } else {
        spec_end(s.skip(2))
    }
}

/// The number of occurrences of a step in a trace.
pub open spec fn count_item(t: Seq<TraceItem>, x: TraceItem) -> int
    decreases t.len(),
{
    if t.len() == 0 {
        0
    } else {
        count_item(t.drop_last(), x) + if t.last() == x {
            1int
        } else {
            0int
        }
    }
}

proof fn lemma_count_concat(a: Seq<TraceItem>, b: Seq<TraceItem>, x: TraceItem)
    ensures
        count_item(a + b, x) == count_item(a, x) + count_item(b, x),
    decreases b.len(),
{
    if b.len() == 0 {
        assert(a + b =~= a);
    } else {
        assert((a + b).drop_last() =~= a + b.drop_last());
        lemma_count_concat(a, b.drop_last(), x);
    }
}

proof fn lemma_count_singleton(x: TraceItem, y: TraceItem)
    ensures
        count_item(seq![x], y) == (if x == y {
            1int
        } else {
            0int
        }),
{
    assert(seq![x].len() == 1);
    assert(seq![x].last() == x);
    assert(seq![x].drop_last() =~= Seq::<TraceItem>::empty());
    assert(count_item(Seq::<TraceItem>::empty(), y) == 0);
}

proof fn lemma_count_pair(x0: TraceItem, x1: TraceItem, y: TraceItem)
    ensures
        count_item(seq![x0, x1], y) == (if x0 == y {
            1int
        } else {
            0int
        }) + (if x1 == y {
            1int
        } else {
            0int
        }),
{
    assert(seq![x0, x1] =~= seq![x0] + seq![x1]);
    lemma_count_concat(seq![x0], seq![x1], y);
    lemma_count_singleton(x0, y);
    lemma_count_singleton(x1, y);
}

proof fn lemma_count_teardown(y: TraceItem)
    ensures
        count_item(teardown_seq(), y) == (if y == TraceItem::RestoreRawMode || y
            == TraceItem::LeaveAltScreen || y == TraceItem::ShowCursor {
            1int
        } else {
            0int
        }),
{
    assert(teardown_seq() =~= seq![TraceItem::RestoreRawMode] + seq![TraceItem::LeaveAltScreen]
        + seq![TraceItem::ShowCursor]);
    lemma_count_concat(
        seq![TraceItem::RestoreRawMode] + seq![TraceItem::LeaveAltScreen],
        seq![TraceItem::ShowCursor],
        y,
    );
    lemma_count_concat(seq![TraceItem::RestoreRawMode], seq![TraceItem::LeaveAltScreen], y);
    lemma_count_singleton(TraceItem::RestoreRawMode, y);
    lemma_count_singleton(TraceItem::LeaveAltScreen, y);
    lemma_count_singleton(TraceItem::ShowCursor, y);
}

proof fn lemma_wf_script_skip(s: Seq<BackendReply>)
    requires
        wf_script(s),
        s.len() >= 2,
    ensures
        wf_script(s.skip(2)),
{
    assert forall|i: int|
        0 <= i < s.skip(2).len() implies (is_render_reply(#[trigger] s.skip(2)[i]) <==> i % 2
        == 0) by {
        assert(s.skip(2)[i] == s[i + 2]);
        assert(is_render_reply(s[i + 2]) <==> (i + 2) % 2 == 0);
    }
}

/// Teardown on every ending: however the session ends, quit or error, each
/// shutdown step is performed exactly once, the three steps stand at the end
/// of the trace in their required order, and the error report comes only
/// after them and only on a failure.  A session that is still waiting has
/// performed no shutdown step.
pub proof fn lemma_teardown_exactly_once(s: Seq<BackendReply>)
    requires
        wf_script(s),
    ensures
        ({
            let t = spec_trace(s);
            let once: int = if spec_end(s) == SessionEnd::Blocked {
                0int
            } else {
                1int
            };
            &&& count_item(t, TraceItem::RestoreRawMode) == once
            &&& count_item(t, TraceItem::LeaveAltScreen) == once
            &&& count_item(t, TraceItem::ShowCursor) == once
            &&& count_item(t, TraceItem::ReportError) == (if spec_end(s) == SessionEnd::Failed {
                1int
            } else {
                0int
            })
            &&& spec_end(s) == SessionEnd::Quit ==> t.len() >= 5 && t.skip(t.len() - 3)
                == teardown_seq()
            &&& spec_end(s) == SessionEnd::Failed ==> t.len() >= 5 && t.skip(t.len() - 4)
                == teardown_seq() + seq![TraceItem::ReportError]
        }),
    decreases s.len(),
{
    let t = spec_trace(s);
    if s.len() == 0 {
    } else if s[0] == BackendReply::RenderFailed {
        lemma_trace_with_teardown_counts(seq![TraceItem::RenderCall], true);
        assert(t.skip(t.len() - 4) =~= teardown_seq() + seq![TraceItem::ReportError]);
    } else if s.len() == 1 {
        lemma_count_pair_calls();
    } else if s[1] == BackendReply::ReadFailed {
        lemma_trace_with_teardown_counts(seq![TraceItem::RenderCall, TraceItem::ReadCall], true);
        assert(t.skip(t.len() - 4) =~= teardown_seq() + seq![TraceItem::ReportError]);
    } else if quit_reply(s[1]) {
        lemma_trace_with_teardown_counts(seq![TraceItem::RenderCall, TraceItem::ReadCall], false);
        assert(t.skip(t.len() - 3) =~= teardown_seq());
    } else {
        lemma_wf_script_skip(s);
        lemma_teardown_exactly_once(s.skip(2));
        let t2 = spec_trace(s.skip(2));
        lemma_count_concat(seq![TraceItem::RenderCall, TraceItem::ReadCall], t2,
            TraceItem::RestoreRawMode);
        lemma_count_concat(seq![TraceItem::RenderCall, TraceItem::ReadCall], t2,
            TraceItem::LeaveAltScreen);
        lemma_count_concat(seq![TraceItem::RenderCall, TraceItem::ReadCall], t2,
            TraceItem::ShowCursor);
        lemma_count_concat(seq![TraceItem::RenderCall, TraceItem::ReadCall], t2,
            TraceItem::ReportError);
        lemma_count_pair_calls();
        if spec_end(s.skip(2)) == SessionEnd::Quit {
            assert(t.skip(t.len() - 3) =~= t2.skip(t2.len() - 3));
        }
        if spec_end(s.skip(2)) == SessionEnd::Failed {
            assert(t.skip(t.len() - 4) =~= t2.skip(t2.len() - 4));
        }
    }
}

proof fn lemma_count_pair_calls()
    ensures
        count_item(seq![TraceItem::RenderCall, TraceItem::ReadCall], TraceItem::RestoreRawMode)
            == 0,
        count_item(seq![TraceItem::RenderCall, TraceItem::ReadCall], TraceItem::LeaveAltScreen)
            == 0,
        count_item(seq![TraceItem::RenderCall, TraceItem::ReadCall], TraceItem::ShowCursor) == 0,
        count_item(seq![TraceItem::RenderCall, TraceItem::ReadCall], TraceItem::ReportError) == 0,
{
    lemma_count_pair(TraceItem::RenderCall, TraceItem::ReadCall, TraceItem::RestoreRawMode);
    lemma_count_pair(TraceItem::RenderCall, TraceItem::ReadCall, TraceItem::LeaveAltScreen);
    lemma_count_pair(TraceItem::RenderCall, TraceItem::ReadCall, TraceItem::ShowCursor);
    lemma_count_pair(TraceItem::RenderCall, TraceItem::ReadCall, TraceItem::ReportError);
}

proof fn lemma_trace_with_teardown_counts(prefix: Seq<TraceItem>, with_error: bool)
    requires
        forall|i: int|
            0 <= i < prefix.len() ==> (#[trigger] prefix[i] == TraceItem::RenderCall || prefix[i]
                == TraceItem::ReadCall),
    ensures
        ({
            let t = if with_error {
                prefix + teardown_seq() + seq![TraceItem::ReportError]
            } else {
                prefix + teardown_seq()
            };
            &&& count_item(t, TraceItem::RestoreRawMode) == 1
            &&& count_item(t, TraceItem::LeaveAltScreen) == 1
            &&& count_item(t, TraceItem::ShowCursor) == 1
            &&& count_item(t, TraceItem::ReportError) == (if with_error {
                1int
            } else {
                0int
            })
        }),
{
    lemma_count_prefix_calls(prefix, TraceItem::RestoreRawMode);
    lemma_count_prefix_calls(prefix, TraceItem::LeaveAltScreen);
    lemma_count_prefix_calls(prefix, TraceItem::ShowCursor);
    lemma_count_prefix_calls(prefix, TraceItem::ReportError);
    lemma_count_teardown(TraceItem::RestoreRawMode);
    lemma_count_teardown(TraceItem::LeaveAltScreen);
    lemma_count_teardown(TraceItem::ShowCursor);
    lemma_count_teardown(TraceItem::ReportError);
    lemma_count_concat(prefix, teardown_seq(), TraceItem::RestoreRawMode);
    lemma_count_concat(prefix, teardown_seq(), TraceItem::LeaveAltScreen);
    lemma_count_concat(prefix, teardown_seq(), TraceItem::ShowCursor);
    lemma_count_concat(prefix, teardown_seq(), TraceItem::ReportError);
    if with_error {
        lemma_count_concat(prefix + teardown_seq(), seq![TraceItem::ReportError],
            TraceItem::RestoreRawMode);
        lemma_count_concat(prefix + teardown_seq(), seq![TraceItem::ReportError],
            TraceItem::LeaveAltScreen);
        lemma_count_concat(prefix + teardown_seq(), seq![TraceItem::ReportError],
            TraceItem::ShowCursor);
        lemma_count_concat(prefix + teardown_seq(), seq![TraceItem::ReportError],
            TraceItem::ReportError);
        lemma_count_singleton(TraceItem::ReportError, TraceItem::RestoreRawMode);
        lemma_count_singleton(TraceItem::ReportError, TraceItem::LeaveAltScreen);
        lemma_count_singleton(TraceItem::ReportError, TraceItem::ShowCursor);
        lemma_count_singleton(TraceItem::ReportError, TraceItem::ReportError);
    }
}

proof fn lemma_count_prefix_calls(prefix: Seq<TraceItem>, y: TraceItem)
    requires
        forall|i: int|
            0 <= i < prefix.len() ==> (#[trigger] prefix[i] == TraceItem::RenderCall || prefix[i]
                == TraceItem::ReadCall),
        y != TraceItem::RenderCall,
        y != TraceItem::ReadCall,
    ensures
        count_item(prefix, y) == 0,
    decreases prefix.len(),
{
    if prefix.len() > 0 {
        lemma_count_prefix_calls(prefix.drop_last(), y);
    }
}

/// Quit only: a backend script that never fails and whose events contain no
/// press of the quit key never ends the session, however long it is.
pub proof fn lemma_quit_only_termination(s: Seq<BackendReply>)
    requires
        wf_script(s),
        forall|i: int| 0 <= i < s.len() ==> !quit_reply(#[trigger] s[i]),
        forall|i: int|
            0 <= i < s.len() ==> #[trigger] s[i] != BackendReply::RenderFailed && s[i]
                != BackendReply::ReadFailed,
    ensures
        spec_end(s) == SessionEnd::Blocked,
    decreases s.len(),
{
    if s.len() >= 2 && s[0] != BackendReply::RenderFailed && s[1] != BackendReply::ReadFailed
        && !quit_reply(s[1]) {
        lemma_wf_script_skip(s);
        assert forall|i: int| 0 <= i < s.skip(2).len() implies !quit_reply(
            #[trigger] s.skip(2)[i],
        ) by {
            assert(s.skip(2)[i] == s[i + 2]);
        }
        assert forall|i: int|
            0 <= i < s.skip(2).len() implies #[trigger] s.skip(2)[i]
            != BackendReply::RenderFailed && s.skip(2)[i] != BackendReply::ReadFailed by {
            assert(s.skip(2)[i] == s[i + 2]);
        }
        lemma_quit_only_termination(s.skip(2));
    }
}

/// Quit ends the session: if the first quit key arrives as the reply to the
/// read of iteration `(k + 1) / 2`, with no backend failure before it, the
/// session ends with the quit outcome after exactly that many draw calls and
/// as many reads.
pub proof fn lemma_renders_until_quit(s: Seq<BackendReply>, k: int)
    requires
        wf_script(s),
        0 <= k < s.len(),
        k % 2 == 1,
        quit_reply(s[k]),
        forall|i: int|
            0 <= i < k ==> !quit_reply(#[trigger] s[i]) && s[i] != BackendReply::RenderFailed
                && s[i] != BackendReply::ReadFailed,
    ensures
        spec_end(s) == SessionEnd::Quit,
        count_item(spec_trace(s), TraceItem::RenderCall) == (k + 1) / 2,
        count_item(spec_trace(s), TraceItem::ReadCall) == (k + 1) / 2,
    decreases s.len(),
{
    lemma_count_teardown(TraceItem::RenderCall);
    lemma_count_teardown(TraceItem::ReadCall);
    lemma_count_pair(TraceItem::RenderCall, TraceItem::ReadCall, TraceItem::RenderCall);
    lemma_count_pair(TraceItem::RenderCall, TraceItem::ReadCall, TraceItem::ReadCall);
    if k == 1 {
        lemma_count_concat(seq![TraceItem::RenderCall, TraceItem::ReadCall], teardown_seq(),
            TraceItem::RenderCall);
        lemma_count_concat(seq![TraceItem::RenderCall, TraceItem::ReadCall], teardown_seq(),
            TraceItem::ReadCall);
    } else {
        lemma_wf_script_skip(s);
        assert forall|i: int|
            0 <= i < k - 2 implies !quit_reply(#[trigger] s.skip(2)[i]) && s.skip(2)[i]
            != BackendReply::RenderFailed && s.skip(2)[i] != BackendReply::ReadFailed by {
            assert(s.skip(2)[i] == s[i + 2]);
        }
        assert(s.skip(2)[k - 2] == s[k]);
        lemma_renders_until_quit(s.skip(2), k - 2);
        let t2 = spec_trace(s.skip(2));
        lemma_count_concat(seq![TraceItem::RenderCall, TraceItem::ReadCall], t2,
            TraceItem::RenderCall);
        lemma_count_concat(seq![TraceItem::RenderCall, TraceItem::ReadCall], t2,
            TraceItem::ReadCall);
    }
}

/// Append the shutdown sequence to the trace.
fn push_teardown(trace: &mut Vec<TraceItem>)
    ensures
        final(trace)@ == old(trace)@ + teardown_seq(),
{
    trace.push(TraceItem::RestoreRawMode);
    trace.push(TraceItem::LeaveAltScreen);
    trace.push(TraceItem::ShowCursor);
    proof {
        assert(trace@ =~= old(trace)@ + teardown_seq());
    }
}

/// Run one whole session against a script of backend replies, returning the
/// trace of calls and shutdown steps it performs and how it ended.
pub fn run_session(replies: &Vec<BackendReply>) -> (r: (Vec<TraceItem>, SessionEnd))
    requires
        wf_script(replies@),
    ensures
        r.0@ == spec_trace(replies@),
        r.1 == spec_end(replies@),
{
    let mut trace: Vec<TraceItem> = Vec::new();
    let mut i: usize = 0;
    proof {
        assert(replies@.skip(0) =~= replies@);
    }
    loop
        invariant
            wf_script(replies@),
            i % 2 == 0,
            i <= replies.len(),
            spec_trace(replies@) == trace@ + spec_trace(replies@.skip(i as int)),
            spec_end(replies@) == spec_end(replies@.skip(i as int)),
        decreases replies.len() - i,
    {
        if i == replies.len() {
            proof {
                assert(trace@ =~= spec_trace(replies@));
            }
            return (trace, SessionEnd::Blocked);
        }
        trace.push(TraceItem::RenderCall);
        if replies[i] == BackendReply::RenderFailed {
            push_teardown(&mut trace);
            trace.push(TraceItem::ReportError);
            proof {
                assert(trace@ =~= spec_trace(replies@));
            }
            return (trace, SessionEnd::Failed);
        }
        trace.push(TraceItem::ReadCall);
        if i + 1 == replies.len() {
            proof {
                assert(trace@ =~= spec_trace(replies@));
            }
            return (trace, SessionEnd::Blocked);
        }
        match replies[i + 1] {
            BackendReply::ReadFailed => {
                push_teardown(&mut trace);
                trace.push(TraceItem::ReportError);
                proof {
                    assert(trace@ =~= spec_trace(replies@));
                }
                return (trace, SessionEnd::Failed);
            },
            BackendReply::Received(e) => {
                if is_quit_event(&e) {
                    push_teardown(&mut trace);
                    proof {
                        assert(trace@ =~= spec_trace(replies@));
                    }
                    return (trace, SessionEnd::Quit);
                }
            },
            _ => {},
        }
        proof {
            assert(replies@.skip(i as int).skip(2) =~= replies@.skip(i as int + 2));
        }
        i = i + 2;
    }
}

} // verus!
