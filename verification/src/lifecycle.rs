//! The life of a session, as a small state machine.
//!
//! A session starts out running. The first quit request that it is shown
//! ends its loop, and teardown releases it. It never moves back: what is
//! stated here of whole histories of calls rests on that.

use crate::event::Key;
use crate::event::WindowEvent;
use crate::frame::draw_commands;
use crate::frame::Command;
use vstd::prelude::*;

verus! {

/// Where a session stands in its life.
#[derive(Clone, Copy, Debug, PartialEq, Eq, Structural)]
pub enum Phase {
    /// The loop runs: frames are drawn and shown.
    Running,
    /// A quit request was observed: the loop is over.
    Terminated,
    /// The session was torn down: its vertex-array object is gone.
    Released,
}

impl Phase {
    /// How far along a session in this phase is. A session never moves to a
    /// phase of lower rank.
    pub open spec fn rank(self) -> int {
        match self {
            Phase::Running => 0,
            Phase::Terminated => 1,
            Phase::Released => 2,
        }
    }

    /// Whether a session in this phase still holds its vertex-array object.
    pub open spec fn holds_vertex_array(self) -> bool {
        self != Phase::Released
    }
}

/// A call that can move a session to another phase.
#[derive(Clone, Copy, Debug, PartialEq, Eq, Structural)]
pub enum Operation {
    /// `event` is taken from the queue and shown to the session.
    Observe { event: WindowEvent },
    /// The session is torn down.
    Teardown,
}

/// The phase that a session in `phase` is in after `op`.
///
/// A quit request ends a running loop and changes nothing otherwise; every
/// other event changes nothing. Teardown releases the session from
/// whichever phase it is in.
pub open spec fn after(phase: Phase, op: Operation) -> Phase {
    match op {
        Operation::Observe { event } => if phase == Phase::Running && event.requests_quit() {
            Phase::Terminated
        } else {
            phase
        },
        Operation::Teardown => Phase::Released,
    }
}

/// The phase that a session in `phase` is in after the calls `ops`, made in
/// order.
pub open spec fn after_all(phase: Phase, ops: Seq<Operation>) -> Phase
    decreases ops.len(),
{
    if ops.len() == 0 {
        phase
    } else {
        after(after_all(phase, ops.drop_last()), ops.last())
    }
}

/// Whether the call `ops[i]` ends the loop of a session that started in
/// `phase`: the session runs before the call and is terminated after it.
pub open spec fn ends_loop_at(phase: Phase, ops: Seq<Operation>, i: int) -> bool {
    &&& 0 <= i < ops.len()
    &&& after_all(phase, ops.take(i)) == Phase::Running
    &&& after_all(phase, ops.take(i + 1)) == Phase::Terminated
}

/// Whether the call `ops[i]` hands out the vertex-array object of a session
/// that started in `phase`: it is a teardown of a session not yet released.
pub open spec fn releases_at(phase: Phase, ops: Seq<Operation>, i: int) -> bool {
    &&& 0 <= i < ops.len()
    &&& ops[i] == Operation::Teardown
    &&& after_all(phase, ops.take(i)).holds_vertex_array()
}

/// The commands of one iteration of the loop for a session in `phase` with
/// the shader program `program`: the frame's draw commands and the buffer
/// swap while the loop runs, and nothing once it is over.
pub open spec fn frame_of(program: u32, phase: Phase) -> Seq<Command> {
    if phase == Phase::Running {
        draw_commands(program).push(Command::SwapBuffers)
    } else {
        Seq::empty()
    }
}

/// Escape going down moves a session exactly as a window-close request
/// does, whichever phase the session is in.
pub proof fn escape_ends_loop_as_close_does(phase: Phase)
    ensures
        after(phase, Operation::Observe { event: WindowEvent::KeyDown { key: Some(Key::Escape) } })
            == after(phase, Operation::Observe { event: WindowEvent::Quit }),
        after(
            Phase::Running,
            Operation::Observe { event: WindowEvent::KeyDown { key: Some(Key::Escape) } },
        ) == Phase::Terminated,
        after(Phase::Running, Operation::Observe { event: WindowEvent::Quit })
            == Phase::Terminated,
{
}

/// A session only moves forward, from running to terminated to released:
/// after more calls it is never in a phase of lower rank than after fewer.
pub proof fn session_only_moves_forward(phase: Phase, ops: Seq<Operation>, i: int, j: int)
    requires
        0 <= i <= j <= ops.len(),
    ensures
        after_all(phase, ops.take(i)).rank() <= after_all(phase, ops.take(j)).rank(),
    decreases j - i,
{
    if i < j {
        session_only_moves_forward(phase, ops, i, j - 1);
        assert(ops.take(j).drop_last() =~= ops.take(j - 1));
        assert(ops.take(j).last() == ops[j - 1]);
    }
}

/// Once a quit request was observed, the loop is over for good: after any
/// further calls the session is not running, and an iteration has nothing
/// left to draw or to show.
pub proof fn no_frame_after_quit_request(
    phase: Phase,
    program: u32,
    ops: Seq<Operation>,
    i: int,
    j: int,
)
    requires
        0 <= i < j <= ops.len(),
        ops[i] matches Operation::Observe { event } && event.requests_quit(),
    ensures
        after_all(phase, ops.take(j)) != Phase::Running,
        frame_of(program, after_all(phase, ops.take(j))) == Seq::<Command>::empty(),
{
    assert(ops.take(i + 1).drop_last() =~= ops.take(i));
    assert(ops.take(i + 1).last() == ops[i]);
    session_only_moves_forward(phase, ops, i + 1, j);
}

/// A quit request that reaches a running session ends its loop there.
pub proof fn quit_request_ends_running_loop(phase: Phase, ops: Seq<Operation>, i: int)
    requires
        0 <= i < ops.len(),
        ops[i] matches Operation::Observe { event } && event.requests_quit(),
        after_all(phase, ops.take(i)) == Phase::Running,
    ensures
        ends_loop_at(phase, ops, i),
{
    assert(ops.take(i + 1).drop_last() =~= ops.take(i));
    assert(ops.take(i + 1).last() == ops[i]);
}

/// The loop ends at most once: no two calls of a history both end it.
pub proof fn loop_ends_at_most_once(phase: Phase, ops: Seq<Operation>, i: int, j: int)
    requires
        ends_loop_at(phase, ops, i),
        ends_loop_at(phase, ops, j),
    ensures
        i == j,
{
    if i < j {
        session_only_moves_forward(phase, ops, i + 1, j);
    } else if j < i {
        session_only_moves_forward(phase, ops, j + 1, i);
    }
}

/// A session that is not torn down keeps its vertex-array object.
proof fn kept_without_teardown(phase: Phase, ops: Seq<Operation>, n: int)
    requires
        phase.holds_vertex_array(),
        0 <= n <= ops.len(),
        forall|k: int| 0 <= k < n ==> ops[k] != Operation::Teardown,
    ensures
        after_all(phase, ops.take(n)).holds_vertex_array(),
    decreases n,
{
    if n > 0 {
        kept_without_teardown(phase, ops, n - 1);
        assert(ops.take(n).drop_last() =~= ops.take(n - 1));
        assert(ops.take(n).last() == ops[n - 1]);
    }
}

/// A running loop that is shown no quit request and is not torn down keeps
/// running.
proof fn running_without_quit_request(ops: Seq<Operation>, n: int)
    requires
        0 <= n <= ops.len(),
        forall|k: int| 0 <= k < n ==> after(Phase::Running, #[trigger] ops[k]) == Phase::Running,
    ensures
        after_all(Phase::Running, ops.take(n)) == Phase::Running,
    decreases n,
{
    if n > 0 {
        running_without_quit_request(ops, n - 1);
        assert(ops.take(n).drop_last() =~= ops.take(n - 1));
        assert(ops.take(n).last() == ops[n - 1]);
    }
}

/// The first of the calls `ops[0]` to `ops[k]` that is a teardown.
proof fn first_teardown(ops: Seq<Operation>, k: int) -> (i: int)
    requires
        0 <= k < ops.len(),
        ops[k] == Operation::Teardown,
    ensures
        0 <= i <= k,
        ops[i] == Operation::Teardown,
        forall|m: int| 0 <= m < i ==> ops[m] != Operation::Teardown,
    decreases k,
{
    if exists|m: int| 0 <= m < k && ops[m] == Operation::Teardown {
        let m = choose|m: int| 0 <= m < k && ops[m] == Operation::Teardown;
        first_teardown(ops, m)
    } else {
        k
    }
}

/// The first of the calls `ops[0]` to `ops[k]` that moves a running session
/// to another phase.
proof fn first_leaving_running(ops: Seq<Operation>, k: int) -> (i: int)
    requires
        0 <= k < ops.len(),
        after(Phase::Running, ops[k]) != Phase::Running,
    ensures
        0 <= i <= k,
        after(Phase::Running, ops[i]) != Phase::Running,
        forall|m: int| 0 <= m < i ==> after(Phase::Running, #[trigger] ops[m]) == Phase::Running,
    decreases k,
{
    if exists|m: int| 0 <= m < k && after(Phase::Running, #[trigger] ops[m]) != Phase::Running {
        let m = choose|m: int|
            0 <= m < k && after(Phase::Running, #[trigger] ops[m]) != Phase::Running;
        first_leaving_running(ops, m)
    } else {
        k
    }
}

/// The first teardown of a session that still holds its vertex-array object
/// hands the object out.
pub proof fn first_teardown_releases(phase: Phase, ops: Seq<Operation>, i: int)
    requires
        phase.holds_vertex_array(),
        0 <= i < ops.len(),
        ops[i] == Operation::Teardown,
        forall|k: int| 0 <= k < i ==> ops[k] != Operation::Teardown,
    ensures
        releases_at(phase, ops, i),
{
    kept_without_teardown(phase, ops, i);
}

/// The vertex-array object is handed out at most once: no two calls of a
/// history both release it.
pub proof fn vertex_array_released_at_most_once(
    phase: Phase,
    ops: Seq<Operation>,
    i: int,
    j: int,
)
    requires
        releases_at(phase, ops, i),
        releases_at(phase, ops, j),
    ensures
        i == j,
{
    if i < j {
        nothing_left_after_teardown(phase, 0, ops, i, j);
    } else if j < i {
        nothing_left_after_teardown(phase, 0, ops, j, i);
    }
}

/// After teardown the session stays released whatever is called: it holds
/// no vertex-array object, and an iteration has nothing to draw or to show.
pub proof fn nothing_left_after_teardown(
    phase: Phase,
    program: u32,
    ops: Seq<Operation>,
    i: int,
    j: int,
)
    requires
        0 <= i < j <= ops.len(),
        ops[i] == Operation::Teardown,
    ensures
        after_all(phase, ops.take(j)) == Phase::Released,
        !after_all(phase, ops.take(j)).holds_vertex_array(),
        frame_of(program, after_all(phase, ops.take(j))) == Seq::<Command>::empty(),
{
    assert(ops.take(i + 1).drop_last() =~= ops.take(i));
    assert(ops.take(i + 1).last() == ops[i]);
    session_only_moves_forward(phase, ops, i + 1, j);
}

/// Over the life of a session that is torn down, the vertex-array object is
/// released exactly once: one call of the history hands it out, and no
/// other does.
pub proof fn vertex_array_released_exactly_once(ops: Seq<Operation>, k: int)
    requires
        0 <= k < ops.len(),
        ops[k] == Operation::Teardown,
    ensures
        exists|i: int| #[trigger] releases_at(Phase::Running, ops, i),
        forall|i: int, j: int|
            #[trigger] releases_at(Phase::Running, ops, i) && #[trigger] releases_at(
                Phase::Running,
                ops,
                j,
            ) ==> i == j,
{
    let first = first_teardown(ops, k);
    first_teardown_releases(Phase::Running, ops, first);
    assert forall|i: int, j: int|
        #[trigger] releases_at(Phase::Running, ops, i) && #[trigger] releases_at(
            Phase::Running,
            ops,
            j,
        ) implies i == j by {
        vertex_array_released_at_most_once(Phase::Running, ops, i, j);
    }
}

/// Over the life of a session that is shown a quit request before it is
/// torn down, the loop ends exactly once: one call of the history takes the
/// session from running to terminated, and no other does.
pub proof fn loop_ends_exactly_once(ops: Seq<Operation>, k: int)
    requires
        0 <= k < ops.len(),
        ops[k] matches Operation::Observe { event } && event.requests_quit(),
        forall|m: int| 0 <= m < k ==> ops[m] != Operation::Teardown,
    ensures
        exists|i: int| #[trigger] ends_loop_at(Phase::Running, ops, i),
        forall|i: int, j: int|
            #[trigger] ends_loop_at(Phase::Running, ops, i) && #[trigger] ends_loop_at(
                Phase::Running,
                ops,
                j,
            ) ==> i == j,
{
    let first = first_leaving_running(ops, k);
    running_without_quit_request(ops, first);
    quit_request_ends_running_loop(Phase::Running, ops, first);
    assert forall|i: int, j: int|
        #[trigger] ends_loop_at(Phase::Running, ops, i) && #[trigger] ends_loop_at(
            Phase::Running,
            ops,
            j,
        ) implies i == j by {
        loop_ends_at_most_once(Phase::Running, ops, i, j);
    }
}

} // verus!
