use futures::executor::block_on;
use futures::stream::StreamExt;
use oysterpack::reqrep::{ChannelSendError, ReqRep, ReqRepId};
use std::sync::atomic::{AtomicUsize, Ordering};
use std::time::Duration;

fn sleep_ms(ms: u64) {
    let _ = crossbeam::channel::after(Duration::from_millis(ms)).recv();
}

#[test]
fn req_rep() {
    const REQREP_ID: ReqRepId = ReqRepId(1871557337320005579010710867531265404);
    let (mut req_rep, req_receiver) = ReqRep::<usize, usize>::new(REQREP_ID, 1);
    let n = crossbeam::scope(move |scope| {
        scope.spawn(move |_| {
            let mut req_receiver = req_receiver;
            while let Some(mut msg) = block_on(req_receiver.next()) {
                assert_eq!(msg.reqrep_id(), REQREP_ID);
                let n = msg.take_request().unwrap();
                if msg.reply(n + 1).is_err() {
                    println!("reply receiver was dropped");
                }
            }
            println!("message listener has exited");
        });
        let rep_receiver = req_rep.send(1).unwrap();
        println!("request MessageId: {}", rep_receiver.message_id().id());
        let n = rep_receiver.recv().unwrap();
        drop(req_rep);
        n
    })
    .unwrap();
    println!("n = {}", n);
    assert_eq!(n, 2);
}

#[test]
fn req_rep_with_disconnected_receiver() {
    const REQREP_ID: ReqRepId = ReqRepId(1871557337320005579010710867531265404);
    let (mut req_rep, mut req_receiver) = ReqRep::<usize, usize>::new(REQREP_ID, 1);
    let rep_receiver = req_rep.send(1).unwrap();
    rep_receiver.close();
    if let Some(mut msg) = block_on(req_receiver.next()) {
        let n = msg.take_request().unwrap();
        println!("going to sleep ...");
        sleep_ms(10);
        println!("... awoke");
        if let Err(err) = msg.reply(n + 1) {
            assert_eq!(err, ChannelSendError::Disconnected);
        } else {
            panic!("Should have failed to send reply because the Receiver has been closed");
        }
    }
    println!("message listener has exited");
}

#[test]
fn identifiers_are_displayable() {
    let stream = ReqRepId(1871557337320005579010710867531265404);
    assert_eq!(stream.to_string().len(), 26);
    assert_eq!(stream.to_string(), stream.ulid().to_string());
    assert_eq!(stream.to_string(), rusty_ulid::Ulid::from(stream.0).to_string());
    let msg = oysterpack::reqrep::MessageId::generate();
    assert_eq!(msg.to_string().len(), 26);
    assert_eq!(msg.to_string(), msg.ulid().to_string());
    assert_eq!(msg.ulid().value(), msg.id());
}

#[test]
fn take_request_returns_the_request_once() {
    let (mut req_rep, mut req_receiver) = ReqRep::<String, String>::new(ReqRepId(1), 1);
    let _rep_receiver = req_rep.send("hello".to_string()).unwrap();
    let mut msg = block_on(req_receiver.next()).unwrap();
    assert_eq!(msg.take_request(), Some("hello".to_string()));
    assert_eq!(msg.take_request(), None);
    assert_eq!(msg.take_request(), None);
}

#[test]
fn envelopes_arrive_in_submission_order_with_matching_ids() {
    let (mut req_rep, req_receiver) = ReqRep::<u32, u32>::new(ReqRepId(7), 1);
    let (seen_tx, seen_rx) = crossbeam::channel::unbounded();
    crossbeam::scope(move |scope| {
        scope.spawn(move |_| {
            let mut req_receiver = req_receiver;
            while let Some(mut msg) = block_on(req_receiver.next()) {
                seen_tx.send((msg.message_id(), msg.take_request().unwrap())).unwrap();
            }
        });
        let first = req_rep.send(1).unwrap();
        let second = req_rep.send(2).unwrap();
        assert_ne!(first.message_id(), second.message_id());
        drop(req_rep);

        assert_eq!(seen_rx.recv().unwrap(), (first.message_id(), 1));
        assert_eq!(seen_rx.recv().unwrap(), (second.message_id(), 2));
    })
    .unwrap();
}

#[test]
fn correlated_replies_with_two_concurrent_callers() {
    const REQREP_ID: ReqRepId = ReqRepId(42);
    let (req_rep, req_receiver) = ReqRep::<u64, u64>::new(REQREP_ID, 1);
    crossbeam::scope(move |scope| {
        scope.spawn(move |_| {
            let mut req_receiver = req_receiver;
            while let Some(mut msg) = block_on(req_receiver.next()) {
                let n = msg.take_request().unwrap();
                if msg.reply(n + 1).is_err() {
                    println!("reply receiver was dropped");
                }
            }
        });
        for v in [10u64, 20u64] {
            let mut caller = req_rep.clone();
            scope.spawn(move |_| {
                let rep_receiver = caller.send(v).unwrap();
                let got = rep_receiver.recv().unwrap();
                assert_eq!(got, v + 1);
            });
        }
        drop(req_rep);
    })
    .unwrap();
}

#[test]
fn gateway_backpressure() {
    // queue capacity 1 and nobody draining: the first submission completes,
    // the second suspends until the consumer takes an envelope
    let (req_rep, mut req_receiver) = ReqRep::<u32, u32>::new(ReqRepId(2), 1);
    let sent = AtomicUsize::new(0);
    crossbeam::scope(|scope| {
        let sent_ref = &sent;
        let mut producer = req_rep;
        scope.spawn(move |_| {
            for i in 0..2u32 {
                let _handle = producer.send(i).unwrap();
                sent_ref.fetch_add(1, Ordering::SeqCst);
            }
        });
        sleep_ms(200);
        assert_eq!(sent.load(Ordering::SeqCst), 1);
        let _env1 = block_on(req_receiver.next()).unwrap();
        sleep_ms(200);
        assert_eq!(sent.load(Ordering::SeqCst), 2);
        let _env2 = block_on(req_receiver.next()).unwrap();
    })
    .unwrap();
}

#[test]
fn send_fails_when_the_consumer_is_gone() {
    let (mut req_rep, req_receiver) = ReqRep::<u32, u32>::new(ReqRepId(3), 1);
    drop(req_receiver);
    match req_rep.send(5) {
        Err(err) => assert_eq!(err, ChannelSendError::Disconnected),
        Ok(_) => panic!("send should fail once the consumer side is gone"),
    }
}

#[test]
fn recv_fails_when_the_envelope_is_dropped_unanswered() {
    let (mut req_rep, mut req_receiver) = ReqRep::<u32, u32>::new(ReqRepId(4), 1);
    let rep_receiver = req_rep.send(5).unwrap();
    let msg = block_on(req_receiver.next()).unwrap();
    drop(msg);
    assert!(rep_receiver.recv().is_err());
}
