use hiven_rs::client::QUEUE_CAPACITY;
use hiven_rs::gateway::{Frame, OpCodeHello};
use hiven_rs::session::{Session, SessionAction, SessionEvent};
use std::time::{Duration, Instant};
use tokio::runtime::Builder;
use tokio::sync::mpsc::channel;
use tokio::time::{sleep, timeout};

#[test]
fn a_full_queue_suspends_its_producer() {
    assert_eq!(QUEUE_CAPACITY, 5);
    let runtime = Builder::new_current_thread().enable_time().build().unwrap();
    runtime.block_on(async {
        let (sender, mut receiver) = channel::<Frame>(QUEUE_CAPACITY);
        for _ in 0..QUEUE_CAPACITY {
            assert!(timeout(Duration::from_secs(5), sender.send(Frame::HeartBeat)).await.is_ok());
        }
        let mut sixth = Box::pin(sender.send(Frame::HeartBeat));
        assert!(timeout(Duration::from_millis(100), sixth.as_mut()).await.is_err());
        assert_eq!(receiver.recv().await, Some(Frame::HeartBeat));
        assert_eq!(timeout(Duration::from_secs(5), sixth.as_mut()).await, Ok(Ok(())));
        let mut waiting = 0;
        while receiver.try_recv().is_ok() {
            waiting += 1;
        }
        assert_eq!(waiting, QUEUE_CAPACITY);
    });
}

#[test]
fn heartbeats_are_one_interval_apart() {
    let runtime = Builder::new_current_thread().enable_time().build().unwrap();
    runtime.block_on(async {
        let (sender, mut receiver) = channel::<Frame>(QUEUE_CAPACITY);
        let mut session = Session::new("token".to_string());
        session.step(SessionEvent::Inbound(Frame::Hello(OpCodeHello { heart_beat: 50 })));
        session.step(SessionEvent::LoginSent);
        let mut sent = Vec::new();
        for _ in 0..3 {
            let wait = Duration::from_millis(session.heartbeat_interval().unwrap().into());
            assert_eq!(wait, Duration::from_millis(50));
            sleep(wait).await;
            match session.step(SessionEvent::HeartbeatDue) {
                SessionAction::Send(frame) => sender.send(frame).await.unwrap(),
                other => panic!("no heartbeat: {:?}", other),
            }
            sent.push(Instant::now());
        }
        for window in 1..sent.len() {
            assert!(sent[window] - sent[window - 1] >= Duration::from_millis(50));
        }
        for _ in 0..3 {
            assert_eq!(receiver.try_recv(), Ok(Frame::HeartBeat));
        }
        assert!(receiver.try_recv().is_err());
    });
}
