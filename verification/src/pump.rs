//! The two message-loop variants that drive the window.
//!
//! Both work over a pending-message queue of plain codes. The non-blocking
//! drain removes and dispatches pending messages until it meets the quit
//! message (stop, no further dispatch) or the queue is empty (render one
//! frame). The blocking variant retrieves one message at a time and stops on
//! quit; a drained synthetic queue stands for message retrieval failing,
//! which the loop deliberately treats exactly like quit — the documented
//! conflation of retrieval errors with normal termination.

use crate::messages::{
    dispatch_message, is_hello_draw, is_quit, posts_quit, routed_action, TextDraw, WindowAction,
    MSG_PAINT, MSG_QUIT,
};
use vstd::prelude::*;

verus! {

/// How many codes of `q` satisfy `p`.
pub open spec fn count_matching(q: Seq<u32>, p: spec_fn(u32) -> bool) -> nat
    decreases q.len(),
{
    if q.len() == 0 {
        0
    } else {
        count_matching(q.drop_last(), p) + (if p(q.last()) {
            1nat
        } else {
            0nat
        })
    }
}

/// Appending one code grows the count by one exactly when the code matches.
pub proof fn lemma_count_push(q: Seq<u32>, p: spec_fn(u32) -> bool, x: u32)
    ensures
        count_matching(q.push(x), p) == count_matching(q, p) + (if p(x) {
            1nat
        } else {
            0nat
        }),
{
    assert(q.push(x).drop_last() =~= q);
    assert(q.push(x).last() == x);
}

/// No quit message is pending in `q`.
pub open spec fn quit_free(q: Seq<u32>) -> bool {
    forall|i: int| 0 <= i < q.len() ==> !is_quit(q[i])
}

/// Some quit message is pending in `q`.
pub open spec fn has_quit(q: Seq<u32>) -> bool {
    exists|i: int| 0 <= i < q.len() && is_quit(q[i])
}

/// `i` is the position of the first pending quit message in `q`.
pub open spec fn is_first_quit(q: Seq<u32>, i: int) -> bool {
    &&& 0 <= i < q.len()
    &&& is_quit(q[i])
    &&& forall|k: int| 0 <= k < i ==> !is_quit(q[k])
}

/// The position of the first pending quit message in `q`.
pub open spec fn first_quit(q: Seq<u32>) -> int {
    choose|i: int| is_first_quit(q, i)
}

/// Wherever some quit message is pending, a first one is.
pub proof fn lemma_first_quit_exists(q: Seq<u32>)
    requires
        has_quit(q),
    ensures
        is_first_quit(q, first_quit(q)),
    decreases q.len(),
{
    if is_quit(q[0]) {
        assert(is_first_quit(q, 0));
    } else {
        let i = choose|i: int| 0 <= i < q.len() && is_quit(q[i]);
        assert(q.skip(1)[i - 1] == q[i]);
        lemma_first_quit_exists(q.skip(1));
        let j = first_quit(q.skip(1));
        assert forall|k: int| 0 <= k < j + 1 implies !is_quit(q[k]) by {
            if k >= 1 {
                assert(q[k] == q.skip(1)[k - 1]);
            }
        }
        assert(q[j + 1] == q.skip(1)[j]);
        assert(is_first_quit(q, j + 1));
    }
}

/// There is only one first pending quit position.
pub proof fn lemma_first_quit_unique(q: Seq<u32>, i: int)
    requires
        is_first_quit(q, i),
    ensures
        first_quit(q) == i,
{
    lemma_first_quit_exists(q);
    let j = first_quit(q);
    if j < i {
        assert(!is_quit(q[j]));
    } else if i < j {
        assert(!is_quit(q[i]));
    }
}

/// How many of the codes post the quit message when dispatched.
pub open spec fn posted(q: Seq<u32>) -> nat {
    count_matching(q, |c: u32| posts_quit(c))
}

/// `n` pending quit messages in a row.
pub open spec fn quit_run(n: nat) -> Seq<u32> {
    Seq::new(n, |i: int| MSG_QUIT)
}

/// The messages a pump dispatches, in order: everything strictly before the
/// first pending quit message, or everything when none is pending.
pub open spec fn pump_dispatched(q: Seq<u32>) -> Seq<u32> {
    if has_quit(q) {
        q.take(first_quit(q))
    } else {
        q
    }
}

/// Whether the pump meets a quit message: one was already pending, or a
/// dispatched message posted one.
pub open spec fn pump_stops(q: Seq<u32>) -> bool {
    has_quit(q) || posted(pump_dispatched(q)) > 0
}

/// What stays pending when the pump returns: the messages after the first
/// quit (never dispatched), plus whatever quit messages the dispatched ones
/// posted; one posted quit is itself consumed when no quit was pending.
pub open spec fn pump_rest(q: Seq<u32>) -> Seq<u32> {
    if has_quit(q) {
        q.skip(first_quit(q) + 1) + quit_run(posted(q.take(first_quit(q))))
    } else if posted(q) > 0 {
        quit_run((posted(q) - 1) as nat)
    } else {
        Seq::empty()
    }
}

/// What one run of a message pump reported back.
pub struct PumpRun {
    /// The loop may go on: no quit message was met.
    pub keep_running: bool,
    /// The message codes dispatched, in queue order.
    pub dispatched: Vec<u32>,
    /// The text draws the callback requested, one per dispatched paint.
    pub paints: Vec<TextDraw>,
}

/// Every requested draw in `paints` is the greeting draw, and there is one
/// for each dispatched paint message.
pub open spec fn paints_match(dispatched: Seq<u32>, paints: Seq<TextDraw>) -> bool {
    &&& paints.len() == count_matching(dispatched, |c: u32| c == MSG_PAINT)
    &&& forall|i: int| 0 <= i < paints.len() ==> is_hello_draw(paints[i])
}

/// Drain every pending message without blocking, dispatching each ordinary
/// one in order, and stop the moment the quit message is retrieved — nothing
/// after it is dispatched, even if more messages follow it. An empty queue
/// means the caller may render a frame: `keep_running` is true.
pub fn drain_pending(queue: &mut Vec<u32>) -> (r: PumpRun)
    ensures
        r.dispatched@ == pump_dispatched(old(queue)@),
        r.keep_running == !pump_stops(old(queue)@),
        final(queue)@ == pump_rest(old(queue)@),
        paints_match(r.dispatched@, r.paints@),
{
    let ghost q0: Seq<u32> = queue@;
    let mut dispatched: Vec<u32> = Vec::new();
    let mut paints: Vec<TextDraw> = Vec::new();
    let ghost mut j: int = 0;
    proof {
        assert(q0.take(0) =~= Seq::<u32>::empty());
        assert(queue@ =~= q0.skip(0) + quit_run(posted(q0.take(0))));
    }
    while queue.len() > 0
        invariant
            q0 == old(queue)@,
            0 <= j <= q0.len(),
            forall|k: int| 0 <= k < j ==> !is_quit(q0[k]),
            dispatched@ == q0.take(j),
            queue@ == q0.skip(j) + quit_run(posted(q0.take(j))),
            paints_match(dispatched@, paints@),
        decreases q0.len() - j + queue@.len(),
    {
        let ghost qpre: Seq<u32> = queue@;
        let front = queue.remove(0);
        proof {
            assert(front == qpre[0]);
            assert(queue@ =~= qpre.skip(1));
            if j < q0.len() {
                assert(qpre[0] == q0.skip(j)[0]);
                assert(q0.skip(j)[0] == q0[j]);
            } else {
                assert(q0.skip(j).len() == 0);
                assert(qpre[0] == quit_run(posted(q0.take(j)))[0]);
            }
        }
        if front == MSG_QUIT {
            proof {
                if j < q0.len() {
                    assert(is_first_quit(q0, j));
                    lemma_first_quit_unique(q0, j);
                    assert(has_quit(q0)) by {
                        assert(0 <= j < q0.len() && is_quit(q0[j]));
                    }
                    assert(pump_dispatched(q0) == q0.take(j));
                    assert(queue@ =~= q0.skip(j + 1) + quit_run(posted(q0.take(j))));
                    assert(queue@ == pump_rest(q0));
                } else {
                    assert(q0.take(j) =~= q0);
                    assert(!has_quit(q0)) by {
                        if has_quit(q0) {
                            let i = choose|i: int| 0 <= i < q0.len() && is_quit(q0[i]);
                            assert(!is_quit(q0[i]));
                        }
                    }
                    assert(posted(q0) > 0);
                    assert(pump_dispatched(q0) == q0);
                    assert(pump_stops(q0));
                    assert(queue@ =~= quit_run((posted(q0) - 1) as nat));
                    assert(queue@ == pump_rest(q0));
                }
            }
            return PumpRun { keep_running: false, dispatched, paints };
        }
        proof {
            assert(j < q0.len());
            assert(front == q0[j]);
        }
        dispatched.push(front);
        let ghost qmid: Seq<u32> = queue@;
        let action = dispatch_message(front, queue);
        if let WindowAction::PaintText(t) = action {
            paints.push(t);
        }
        proof {
            assert(q0.take(j + 1) =~= q0.take(j).push(q0[j]));
            lemma_count_push(q0.take(j), |c: u32| posts_quit(c), q0[j]);
            lemma_count_push(q0.take(j), |c: u32| c == MSG_PAINT, q0[j]);
            if posts_quit(front) {
                assert(queue@ =~= qmid.push(MSG_QUIT));
                assert(queue@ =~= q0.skip(j + 1) + quit_run(posted(q0.take(j + 1))));
            } else {
                assert(queue@ =~= q0.skip(j + 1) + quit_run(posted(q0.take(j + 1))));
            }
            j = j + 1;
        }
    }
    proof {
        assert(q0.skip(j).len() == 0);
        assert(j == q0.len());
        assert(q0.take(j) =~= q0);
        assert(posted(q0) == 0);
        assert(!has_quit(q0)) by {
            if has_quit(q0) {
                let i = choose|i: int| 0 <= i < q0.len() && is_quit(q0[i]);
                assert(!is_quit(q0[i]));
            }
        }
        assert(!pump_stops(q0));
        assert(queue@ =~= Seq::<u32>::empty());
        assert(queue@ == pump_rest(q0));
    }
    PumpRun { keep_running: true, dispatched, paints }
}

/// What one blocking retrieve-and-dispatch step reported back.
pub struct WaitStep {
    /// False exactly when the step retrieved the quit message — or when
    /// retrieval failed (here: an exhausted synthetic queue), which the loop
    /// deliberately treats the same way.
    pub keep_running: bool,
    /// The code of the message dispatched, if one was.
    pub dispatched: Option<u32>,
    /// The action the callback took for it.
    pub action: Option<WindowAction>,
}

/// Retrieve one message and dispatch it: the blocking variant's single step.
/// Returns `keep_running == false` exactly when the retrieved message is the
/// quit message; a failed retrieval (an exhausted synthetic queue) is treated
/// identically, conflating genuine errors with normal termination on purpose.
pub fn wait_and_dispatch(queue: &mut Vec<u32>) -> (r: WaitStep)
    ensures
        old(queue)@.len() == 0 ==> !r.keep_running && r.dispatched is None && r.action is None
            && final(queue)@ == old(queue)@,
        old(queue)@.len() > 0 && is_quit(old(queue)@[0]) ==> !r.keep_running && r.dispatched is None
            && r.action is None && final(queue)@ == old(queue)@.skip(1),
        old(queue)@.len() > 0 && !is_quit(old(queue)@[0]) ==> r.keep_running && r.dispatched
            == Some(old(queue)@[0]) && (r.action matches Some(a) && routed_action(
            old(queue)@[0],
            a,
        )) && final(queue)@ == (if posts_quit(old(queue)@[0]) {
            old(queue)@.skip(1).push(MSG_QUIT)
        } else {
            old(queue)@.skip(1)
        }),
{
    if queue.len() == 0 {
        return WaitStep { keep_running: false, dispatched: None, action: None };
    }
    let front = queue.remove(0);
    proof {
        assert(queue@ =~= old(queue)@.skip(1));
    }
    if front == MSG_QUIT {
        return WaitStep { keep_running: false, dispatched: None, action: None };
    }
    let action = dispatch_message(front, queue);
    WaitStep { keep_running: true, dispatched: Some(front), action: Some(action) }
}

/// What a whole run of the blocking loop dispatched and drew.
pub struct LoopRun {
    /// The message codes dispatched, in queue order.
    pub dispatched: Vec<u32>,
    /// The text draws the callback requested, one per dispatched paint.
    pub paints: Vec<TextDraw>,
}

/// The blocking driver loop: retrieve and dispatch messages one at a time
/// until the quit message is retrieved (or retrieval fails — here, the
/// synthetic queue runs out). No rendering happens in this mode; the loop
/// dispatches the same messages, in the same order, as a drain would.
pub fn run_blocking_loop(queue: &mut Vec<u32>) -> (r: LoopRun)
    ensures
        r.dispatched@ == pump_dispatched(old(queue)@),
        final(queue)@ == pump_rest(old(queue)@),
        paints_match(r.dispatched@, r.paints@),
{
    let ghost q0: Seq<u32> = queue@;
    let mut dispatched: Vec<u32> = Vec::new();
    let mut paints: Vec<TextDraw> = Vec::new();
    let ghost mut j: int = 0;
    proof {
        assert(q0.take(0) =~= Seq::<u32>::empty());
        assert(queue@ =~= q0.skip(0) + quit_run(posted(q0.take(0))));
    }
    loop
        invariant
            q0 == old(queue)@,
            0 <= j <= q0.len(),
            forall|k: int| 0 <= k < j ==> !is_quit(q0[k]),
            dispatched@ == q0.take(j),
            queue@ == q0.skip(j) + quit_run(posted(q0.take(j))),
            paints_match(dispatched@, paints@),
        decreases q0.len() - j + queue@.len(),
    {
        let ghost qpre: Seq<u32> = queue@;
        let step = wait_and_dispatch(queue);
        if !step.keep_running {
            proof {
                if qpre.len() == 0 {
                    assert(q0.skip(j).len() == 0);
                    assert(j == q0.len());
                    assert(q0.take(j) =~= q0);
                    assert(posted(q0) == 0);
                    assert(!has_quit(q0)) by {
                        if has_quit(q0) {
                            let i = choose|i: int| 0 <= i < q0.len() && is_quit(q0[i]);
                            assert(!is_quit(q0[i]));
                        }
                    }
                    assert(queue@ =~= Seq::<u32>::empty());
                    assert(queue@ == pump_rest(q0));
                } else if j < q0.len() {
                    assert(qpre[0] == q0.skip(j)[0]);
                    assert(qpre[0] == q0[j]);
                    assert(is_first_quit(q0, j));
                    lemma_first_quit_unique(q0, j);
                    assert(has_quit(q0)) by {
                        assert(0 <= j < q0.len() && is_quit(q0[j]));
                    }
                    assert(pump_dispatched(q0) == q0.take(j));
                    assert(queue@ =~= q0.skip(j + 1) + quit_run(posted(q0.take(j))));
                    assert(queue@ == pump_rest(q0));
                } else {
                    assert(q0.take(j) =~= q0);
                    assert(!has_quit(q0)) by {
                        if has_quit(q0) {
                            let i = choose|i: int| 0 <= i < q0.len() && is_quit(q0[i]);
                            assert(!is_quit(q0[i]));
                        }
                    }
                    assert(qpre[0] == quit_run(posted(q0.take(j)))[0]);
                    assert(posted(q0) > 0);
                    assert(pump_dispatched(q0) == q0);
                    assert(queue@ =~= quit_run((posted(q0) - 1) as nat));
                    assert(queue@ == pump_rest(q0));
                }
            }
            return LoopRun { dispatched, paints };
        }
        proof {
            if j >= q0.len() {
                assert(q0.skip(j).len() == 0);
                assert(qpre[0] == quit_run(posted(q0.take(j)))[0]);
            }
            assert(j < q0.len());
            assert(qpre[0] == q0.skip(j)[0]);
            assert(qpre[0] == q0[j]);
        }
        let front = step.dispatched.unwrap();
        dispatched.push(front);
        if let Some(WindowAction::PaintText(t)) = step.action {
            paints.push(t);
        }
        proof {
            assert(q0.take(j + 1) =~= q0.take(j).push(q0[j]));
            lemma_count_push(q0.take(j), |c: u32| posts_quit(c), q0[j]);
            lemma_count_push(q0.take(j), |c: u32| c == MSG_PAINT, q0[j]);
            if posts_quit(q0[j]) {
                assert(queue@ =~= q0.skip(j + 1) + quit_run(posted(q0.take(j + 1))));
            } else {
                assert(queue@ =~= q0.skip(j + 1) + quit_run(posted(q0.take(j + 1))));
            }
            j = j + 1;
        }
    }
}

/// A queue holding ordinary messages and then its first quit message at
/// position `n`: the pump dispatches exactly those first `n` messages, in
/// order, and stops — nothing at or after the quit message is dispatched,
/// even if more messages follow it.
pub proof fn lemma_pump_stops_at_quit(q: Seq<u32>, n: int)
    requires
        is_first_quit(q, n),
    ensures
        pump_dispatched(q) == q.take(n),
        pump_stops(q),
{
    lemma_first_quit_unique(q, n);
    assert(has_quit(q)) by {
        assert(0 <= n < q.len() && is_quit(q[n]));
    }
}

/// An empty queue: the pump dispatches nothing and reports that the caller
/// may keep running (and so proceed to render a frame).
pub proof fn lemma_pump_empty(q: Seq<u32>)
    requires
        q.len() == 0,
    ensures
        pump_dispatched(q) == q,
        !pump_stops(q),
        pump_rest(q) == Seq::<u32>::empty(),
{
    assert(!has_quit(q));
    assert(posted(q) == 0);
}

} // verus!
