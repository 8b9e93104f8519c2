use mstsc_bridge::canvas::Canvas;
use mstsc_bridge::composite::BitmapUpdate;
use mstsc_bridge::input::{InputMessage, SessionInput};
use mstsc_bridge::lifecycle::Lifecycle;
use mstsc_bridge::loops::{
    broadcast_tick, compositor_next, ingest_next, router_next, BroadcastTick, CompositorStep, Dequeued,
    Inbound, IngestAction, IngestEvent, IngestExit, LoopNext, RouterAction,
};

#[test]
fn shutdown_is_granted_once() {
    let mut l = Lifecycle::new();
    assert!(l.is_running());
    assert!(l.stop());
    assert!(!l.is_running());
    assert!(!l.stop());
    assert!(l.claim_shutdown());
    assert!(!l.claim_shutdown());
    assert!(!l.claim_shutdown());
    assert!(!l.is_running());
}

#[test]
fn ingestor_waits_reads_and_exits() {
    assert_eq!(ingest_next(true, IngestEvent::Started), IngestAction::Wait);
    assert_eq!(ingest_next(true, IngestEvent::Readable), IngestAction::Read);
    assert_eq!(ingest_next(true, IngestEvent::Delivered), IngestAction::Wait);
    assert_eq!(ingest_next(true, IngestEvent::NotReadable), IngestAction::Exit(IngestExit::TransportClosed));
    assert_eq!(ingest_next(true, IngestEvent::Disconnected), IngestAction::Exit(IngestExit::GracefulDisconnect));
    assert_eq!(ingest_next(true, IngestEvent::Failed), IngestAction::Exit(IngestExit::SessionFatal));
}

#[test]
fn stopped_bridge_ends_every_loop() {
    for ev in [IngestEvent::Started, IngestEvent::Readable, IngestEvent::Delivered, IngestEvent::NotReadable] {
        assert_eq!(ingest_next(false, ev), IngestAction::Exit(IngestExit::Cancelled));
    }
    assert_eq!(compositor_next(false, Dequeued::TimedOut), CompositorStep { merge: false, next: LoopNext::Exit });
    assert_eq!(compositor_next(false, Dequeued::Update), CompositorStep { merge: true, next: LoopNext::Exit });
    let c = Canvas::new(2, 2).ok().unwrap();
    assert!(matches!(broadcast_tick(false, &c), BroadcastTick::Exit));
    let m = InputMessage::Scancode { scancode: 1, is_pressed: true };
    assert_eq!(router_next(false, Inbound::Input(m)), RouterAction::Stop);
}

#[test]
fn compositor_merges_and_stops_on_closed_queue() {
    assert_eq!(compositor_next(true, Dequeued::Update), CompositorStep { merge: true, next: LoopNext::Continue });
    assert_eq!(compositor_next(true, Dequeued::TimedOut), CompositorStep { merge: false, next: LoopNext::Continue });
    assert_eq!(
        compositor_next(true, Dequeued::Disconnected),
        CompositorStep { merge: false, next: LoopNext::StopBridge }
    );
}

#[test]
fn broadcaster_skips_until_a_composite() {
    let mut c = Canvas::new(2, 1).ok().unwrap();
    assert!(matches!(broadcast_tick(true, &c), BroadcastTick::Skip));
    let u = BitmapUpdate { left: 0, top: 0, right: 0, bottom: 0, width: 1, data: vec![1, 0, 0, 0] };
    assert_eq!(c.composite(&u), Ok(()));
    match broadcast_tick(true, &c) {
        BroadcastTick::Send(f) => {
            assert_eq!((f.width, f.height), (2, 1));
            assert_eq!(f.buffer, vec![1, 0]);
        }
        _ => panic!("expected a frame"),
    }
}

#[test]
fn router_keeps_connection_on_bad_message() {
    assert_eq!(router_next(true, Inbound::Malformed), RouterAction::Ignore);
    assert_eq!(router_next(true, Inbound::Other), RouterAction::Ignore);
    assert_eq!(router_next(true, Inbound::Close), RouterAction::Stop);
    assert_eq!(router_next(true, Inbound::TransportError), RouterAction::Stop);
    let m = InputMessage::Scancode { scancode: 30, is_pressed: true };
    assert_eq!(router_next(true, Inbound::Input(m)), RouterAction::Write(SessionInput::Key { code: 30, down: true }));
}
