//! The session: what the demo owns between start-up and exit, and the loop
//! that runs in between.
//!
//! While a session runs, every iteration of the loop drains the pending
//! window events and, unless one of them asks to quit, draws a frame and
//! shows it. The first quit request ends the loop for good. Tearing the
//! session down hands back the vertex-array object for release, once.

use crate::event::WindowEvent;
use crate::frame::render;
use crate::frame::Command;
use crate::lifecycle::after;
use crate::lifecycle::after_all;
use crate::lifecycle::frame_of;
use crate::lifecycle::Operation;
use crate::lifecycle::Phase;
use vstd::prelude::*;

verus! {

/// Whether one of `events` asks to quit.
pub open spec fn has_quit_request(events: Seq<WindowEvent>) -> bool {
    exists|i: int| 0 <= i < events.len() && #[trigger] events[i].requests_quit()
}

/// Whether a running loop that drains `events` takes exactly the first `n`
/// of them: up to and including the first quit request, or all of them
/// where none asks to quit.
pub open spec fn stops_after(events: Seq<WindowEvent>, n: int) -> bool {
    &&& 0 <= n <= events.len()
    &&& forall|i: int| 0 <= i < n - 1 ==> !#[trigger] events[i].requests_quit()
    &&& {
        ||| n > 0 && events[n - 1].requests_quit()
        ||| n == events.len() && !has_quit_request(events)
    }
}

/// The phase that a session in `phase` is in after the queue `events` was
/// drained.
pub open spec fn drained(phase: Phase, events: Seq<WindowEvent>) -> Phase {
    if phase == Phase::Running && has_quit_request(events) {
        Phase::Terminated
    } else {
        phase
    }
}

/// The calls that show a session the events of a queue, one call for each
/// event, in order.
pub open spec fn observations(events: Seq<WindowEvent>) -> Seq<Operation> {
    Seq::new(events.len(), |i: int| Operation::Observe { event: events[i] })
}

/// What a session is made of.
pub struct SessionView {
    /// The handle of the linked shader program.
    pub program: u32,
    /// The handle of the vertex-array object.
    pub vertex_array: u32,
    /// Where the session stands in its life.
    pub phase: Phase,
}

/// The state that the demo owns once it is up: the handles of the shader
/// program and of the vertex-array object, and the phase of the loop.
///
/// The program handle stays the same for the whole life of the session. The
/// vertex-array handle is handed out for release by `teardown`, once.
#[derive(Debug)]
pub struct Session {
    program: u32,
    vertex_array: u32,
    phase: Phase,
}

impl View for Session {
    type V = SessionView;

    closed spec fn view(&self) -> SessionView {
        SessionView { program: self.program, vertex_array: self.vertex_array, phase: self.phase }
    }
}

impl Session {
    /// Starts a session that owns the shader program `program` and the
    /// vertex-array object `vertex_array`. Its loop is running.
    pub fn new(program: u32, vertex_array: u32) -> (session: Session)
        ensures
            session@ == (SessionView { program, vertex_array, phase: Phase::Running }),
    {
        Session { program, vertex_array, phase: Phase::Running }
    }

    /// The phase that the session is in.
    pub fn phase(&self) -> (phase: Phase)
        ensures
            phase == self@.phase,
    {
        self.phase
    }

    /// Whether the loop is still running.
    pub fn is_running(&self) -> (running: bool)
        ensures
            running == (self@.phase == Phase::Running),
    {
        match self.phase {
            Phase::Running => true,
            _ => false,
        }
    }

    /// The handle of the shader program.
    pub fn program(&self) -> (program: u32)
        ensures
            program == self@.program,
    {
        self.program
    }

    /// The handle of the vertex-array object, as long as the session holds
    /// it: `None` after teardown.
    pub fn vertex_array(&self) -> (handle: Option<u32>)
        ensures
            handle == if self@.phase.holds_vertex_array() {
                Some(self@.vertex_array)
            } else {
                None
            },
    {
        match self.phase {
            Phase::Released => None,
            _ => Some(self.vertex_array),
        }
    }

    /// Shows the session one event from the queue. A quit request ends a
    /// running loop; nothing else changes anything. Returns whether this
    /// event ended the loop.
    pub fn observe(&mut self, event: &WindowEvent) -> (ended: bool)
        ensures
            final(self)@ == (SessionView {
                phase: after(old(self)@.phase, Operation::Observe { event: *event }),
                ..old(self)@
            }),
            ended == (old(self)@.phase == Phase::Running && event.requests_quit()),
    {
        if self.is_running() && event.is_quit_request() {
            self.phase = Phase::Terminated;
            true
        } else {
            false
        }
    }

    /// Drains a queue of pending events, as one iteration of the loop does:
    /// shows the session the events in order, up to and including the first
    /// one that ends the loop. Returns how many events were taken. A session
    /// whose loop is over takes none.
    pub fn drain(&mut self, events: &Vec<WindowEvent>) -> (taken: usize)
        ensures
            final(self)@ == (SessionView {
                phase: drained(old(self)@.phase, events@),
                ..old(self)@
            }),
            old(self)@.phase == Phase::Running ==> stops_after(events@, taken as int),
            old(self)@.phase != Phase::Running ==> taken == 0,
    {
        if !self.is_running() {
            return 0;
        }
        let ghost before = self@;
        let mut i: usize = 0;
        while i < events.len()
            invariant
                0 <= i <= events.len(),
                self@ == before,
                old(self)@ == before,
                before.phase == Phase::Running,
                forall|j: int| 0 <= j < i ==> !#[trigger] events@[j].requests_quit(),
            decreases events.len() - i,
        {
            let ended = self.observe(&events[i]);
            i = i + 1;
            if ended {
                return i;
            }
        }
        i
    }

    /// Lists the commands of one iteration of the loop: those that draw the
    /// frame, then the buffer swap. Once the loop is over there is nothing
    /// left to draw or to show, and the list is empty.
    pub fn frame(&self) -> (commands: Vec<Command>)
        ensures
            commands@ == frame_of(self@.program, self@.phase),
    {
        if self.is_running() {
            let mut commands = render(self.program);
            commands.push(Command::SwapBuffers);
            commands
        } else {
            Vec::new()
        }
    }

    /// Tears the session down. The first call hands back the handle of the
    /// vertex-array object, which the caller releases; any later call hands
    /// back nothing.
    pub fn teardown(&mut self) -> (handle: Option<u32>)
        ensures
            final(self)@ == (SessionView {
                phase: after(old(self)@.phase, Operation::Teardown),
                ..old(self)@
            }),
            handle == if old(self)@.phase.holds_vertex_array() {
                Some(old(self)@.vertex_array)
            } else {
                None
            },
    {
        let handle = self.vertex_array();
        self.phase = Phase::Released;
        handle
    }
}

/// Draining a queue leaves the session where observing its events one by
/// one does.
pub proof fn drain_observes_each_event(phase: Phase, events: Seq<WindowEvent>)
    ensures
        drained(phase, events) == after_all(phase, observations(events)),
    decreases events.len(),
{
    let ops = observations(events);
    if events.len() > 0 {
        let shorter = events.drop_last();
        drain_observes_each_event(phase, shorter);
        assert(ops.drop_last() =~= observations(shorter));
        assert(ops.last() == Operation::Observe { event: events.last() });
        if has_quit_request(shorter) {
            let k = choose|k: int| 0 <= k < shorter.len() && #[trigger] shorter[k].requests_quit();
            assert(events[k].requests_quit());
        }
        if has_quit_request(events) && !events.last().requests_quit() {
            let k = choose|k: int| 0 <= k < events.len() && #[trigger] events[k].requests_quit();
            assert(shorter[k].requests_quit());
        }
    }
}

} // verus!
