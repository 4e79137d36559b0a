use bili_live_chat::message::{Message, MessageKind};
use std::time::Duration;

fn event(i: u64) -> Message {
    Message::new(MessageKind::DANMU_MSG, format!("m{}", i), "a".to_owned(), i)
}

#[test]
fn full_consumer_channel_suspends_the_publisher() {
    let rt = tokio::runtime::Builder::new_current_thread()
        .enable_time()
        .build()
        .unwrap();
    rt.block_on(async {
        let capacity = 4;
        let (tx, mut rx) = tokio::sync::mpsc::channel::<Message>(capacity);
        for i in 0..capacity {
            tx.send(event(i as u64)).await.unwrap();
        }
        // the (N+1)-th publish suspends: it neither drops nor errors
        let pending = tokio::time::timeout(Duration::from_millis(50), tx.send(event(99))).await;
        assert!(pending.is_err(), "a publish into a full channel must suspend");
        // and a try_send reports the channel as full rather than dropping
        match tx.try_send(event(100)) {
            Err(tokio::sync::mpsc::error::TrySendError::Full(_)) => {},
            _ => panic!("expected the channel to be full"),
        }
        // once the consumer drains one event, publishing resumes,
        // and order is kept
        let first = rx.recv().await.unwrap();
        assert_eq!(first.content, "m0");
        tokio::time::timeout(Duration::from_millis(50), tx.send(event(4)))
            .await
            .expect("publish must resume after a drain")
            .unwrap();
    });
}
