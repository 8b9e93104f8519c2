//! The decisions of the bridge's loops, from what just happened to what to
//! do next. The loops themselves wait, read and send; these functions decide.
use vstd::prelude::*;

use crate::canvas::{Canvas, Frame};
use crate::input::{session_input_of, route_input, InputMessage, SessionInput};

verus! {

/// What the frame ingestor has just seen.
#[derive(Debug, Clone, Copy, PartialEq, Eq, Structural)]
pub enum IngestEvent {
    /// The loop is starting.
    Started,
    /// The session's transport is readable.
    Readable,
    /// The wait for the transport timed out; the flag is looked at again.
    WaitTimedOut,
    /// Waiting for the transport failed.
    NotReadable,
    /// A session read completed; its events were handed on.
    Delivered,
    /// The session read reported that the peer closed the session.
    Disconnected,
    /// The session read failed for any other reason.
    Failed,
}

/// Why the frame ingestor stopped.
#[derive(Debug, Clone, Copy, PartialEq, Eq, Structural)]
pub enum IngestExit {
    /// The bridge was stopped.
    Cancelled,
    /// The transport could no longer be waited on.
    TransportClosed,
    /// The peer closed the session.
    GracefulDisconnect,
    /// The session failed.
    SessionFatal,
}

/// What the frame ingestor does next.
#[derive(Debug, Clone, Copy, PartialEq, Eq, Structural)]
pub enum IngestAction {
    /// Wait until the transport is readable.
    Wait,
    /// Make one session read.
    Read,
    /// Leave the loop, and stop the bridge.
    Exit(IngestExit),
}

/// The frame ingestor's decision. A session that ended or failed ends the
/// loop whatever the flag says; otherwise a stopped bridge ends it; otherwise
/// it waits, then reads, then waits again.
pub open spec fn ingest_action_of(running: bool, ev: IngestEvent) -> IngestAction {
    match ev {
        IngestEvent::Disconnected => IngestAction::Exit(IngestExit::GracefulDisconnect),
        IngestEvent::Failed => IngestAction::Exit(IngestExit::SessionFatal),
        _ => if !running {
            IngestAction::Exit(IngestExit::Cancelled)
        } else {
            match ev {
                IngestEvent::Readable => IngestAction::Read,
                IngestEvent::NotReadable => IngestAction::Exit(IngestExit::TransportClosed),
                _ => IngestAction::Wait,
            }
        },
    }
}

/// Decides the frame ingestor's next step.
pub fn ingest_next(running: bool, ev: IngestEvent) -> (r: IngestAction)
    ensures
        r == ingest_action_of(running, ev),
{
    match ev {
        IngestEvent::Disconnected => IngestAction::Exit(IngestExit::GracefulDisconnect),
        IngestEvent::Failed => IngestAction::Exit(IngestExit::SessionFatal),
        _ => if !running {
            IngestAction::Exit(IngestExit::Cancelled)
        } else {
            match ev {
                IngestEvent::Readable => IngestAction::Read,
                IngestEvent::NotReadable => IngestAction::Exit(IngestExit::TransportClosed),
                _ => IngestAction::Wait,
            }
        },
    }
}

/// What the compositor got from the update queue.
#[derive(Debug, Clone, Copy, PartialEq, Eq, Structural)]
pub enum Dequeued {
    /// An update.
    Update,
    /// Nothing before the timeout.
    TimedOut,
    /// The queue's sender is gone.
    Disconnected,
}

/// Where a loop goes after its current step.
#[derive(Debug, Clone, Copy, PartialEq, Eq, Structural)]
pub enum LoopNext {
    Continue,
    Exit,
    /// Leave the loop and stop the whole bridge.
    StopBridge,
}

/// The compositor's decision: whether to merge what it dequeued, then where
/// to go.
#[derive(Debug, Clone, Copy, PartialEq, Eq, Structural)]
pub struct CompositorStep {
    pub merge: bool,
    pub next: LoopNext,
}

/// The compositor's decision. A dequeued update is always merged, so a
/// merge under way completes; a closed queue stops the bridge; otherwise the
/// loop goes on while the bridge runs.
pub open spec fn compositor_step_of(running: bool, got: Dequeued) -> CompositorStep {
    match got {
        Dequeued::Disconnected => CompositorStep { merge: false, next: LoopNext::StopBridge },
        _ => CompositorStep {
            merge: got == Dequeued::Update,
            next: if running {
                LoopNext::Continue
            } else {
                LoopNext::Exit
            },
        },
    }
}

/// Decides the compositor's next step.
pub fn compositor_next(running: bool, got: Dequeued) -> (r: CompositorStep)
    ensures
        r == compositor_step_of(running, got),
{
    match got {
        Dequeued::Disconnected => CompositorStep { merge: false, next: LoopNext::StopBridge },
        Dequeued::Update => CompositorStep {
            merge: true,
            next: if running {
                LoopNext::Continue
            } else {
                LoopNext::Exit
            },
        },
        Dequeued::TimedOut => CompositorStep {
            merge: false,
            next: if running {
                LoopNext::Continue
            } else {
                LoopNext::Exit
            },
        },
    }
}

/// What the broadcaster does on one tick.
pub enum BroadcastTick {
    /// Leave the loop.
    Exit,
    /// Nothing to show yet.
    Skip,
    /// Send this frame to every client.
    Send(Frame),
}

/// One tick of the broadcaster, made while holding the canvas: a stopped
/// bridge ends the loop; a canvas into which nothing was merged yet is not
/// shown; otherwise a copy of the canvas is taken, to be sent once the canvas
/// is released.
pub fn broadcast_tick(running: bool, canvas: &Canvas) -> (r: BroadcastTick)
    ensures
        !running <==> r is Exit,
        running && !canvas.spec_composited() <==> r is Skip,
        r matches BroadcastTick::Send(f) ==> canvas.spec_composited() && f.width
            == canvas.spec_width() && f.height == canvas.spec_height() && f.buffer@
            == canvas.spec_pixels(),
{
    if !running {
        return BroadcastTick::Exit;
    }
    match canvas.snapshot() {
        Some(f) => BroadcastTick::Send(f),
        None => BroadcastTick::Skip,
    }
}

/// What a client's input loop has just received.
#[derive(Debug, Clone, Copy, PartialEq, Eq, Structural)]
pub enum Inbound {
    /// A text message that decoded to an input message.
    Input(InputMessage),
    /// A text message that did not decode.
    Malformed,
    /// A close frame.
    Close,
    /// The transport failed.
    TransportError,
    /// Any other frame.
    Other,
}

/// What a client's input loop does next.
#[derive(Debug, Clone, Copy, PartialEq, Eq, Structural)]
pub enum RouterAction {
    /// Make this one session write, under the session's lock.
    Write(SessionInput),
    /// Drop the message and keep the connection.
    Ignore,
    /// Leave the loop: the client is gone.
    Stop,
}

/// The input router's decision: a close, a transport failure or a stopped
/// bridge ends the loop; an undecodable message is dropped without closing
/// the connection; a decoded message becomes its one session write.
pub open spec fn router_action_of(running: bool, msg: Inbound) -> RouterAction {
    match msg {
        Inbound::Close | Inbound::TransportError => RouterAction::Stop,
        _ => if !running {
            RouterAction::Stop
        } else {
            match msg {
                Inbound::Input(m) => RouterAction::Write(session_input_of(m)),
                _ => RouterAction::Ignore,
            }
        },
    }
}

/// Decides what a client's input loop does with what it received.
pub fn router_next(running: bool, msg: Inbound) -> (r: RouterAction)
    ensures
        r == router_action_of(running, msg),
{
    match msg {
        Inbound::Close | Inbound::TransportError => RouterAction::Stop,
        Inbound::Input(m) => if running {
            RouterAction::Write(route_input(m))
        } else {
            RouterAction::Stop
        },
        Inbound::Malformed | Inbound::Other => if running {
            RouterAction::Ignore
        } else {
            RouterAction::Stop
        },
    }
}

/// Once the bridge is stopped, the frame ingestor, the compositor and every
/// input router leave at their next decision, whatever they have just seen
/// (an update already dequeued is still merged first); `broadcast_tick`
/// exits on a stopped bridge by its own contract.
pub proof fn lemma_stopped_bridge_ends_loops(ev: IngestEvent, got: Dequeued, msg: Inbound)
    ensures
        ingest_action_of(false, ev) is Exit,
        compositor_step_of(false, got).next != LoopNext::Continue,
        router_action_of(false, msg) == RouterAction::Stop,
{
}

} // verus!
