use oysterpack::rpc::{
    channels, process_next, MessageProcessor, MessageProcessorFactory, MessageServiceChannel,
    ThreadConfig,
};
use oysterpack::ulid::ULID;
use std::sync::atomic::{AtomicUsize, Ordering};
use std::time::Duration;

fn sleep_ms(ms: u64) {
    let _ = crossbeam::channel::after(Duration::from_millis(ms)).recv();
}

#[derive(Clone, Default)]
struct Echo {
    counter: usize,
}

impl MessageProcessor<String, String> for Echo {
    fn process(&mut self, req: String) -> String {
        self.counter += 1;
        req
    }
}

struct EchoFactory;

impl MessageProcessorFactory<Echo, String, String> for EchoFactory {
    fn new(&self) -> Echo {
        Echo::default()
    }
}

fn run_worker(service: MessageServiceChannel<String, String>) {
    let mut processor = EchoFactory.new();
    while process_next(&mut processor, &service) {}
}

#[test]
fn client_service_messaging_with_multi_clients() {
    let (client, service) = channels::<String, String>(10, 10);
    crossbeam::scope(|scope| {
        for _ in 0..4 {
            let svc = service.clone();
            scope.spawn(move |_| run_worker(svc));
        }

        let msg = "some data".to_string();
        client.sender().send(msg.clone()).unwrap();
        let reply = client.receiver().recv().unwrap();
        println!("{}", reply);
        assert_eq!(reply, "some data");

        for i in 1..=100 {
            let client_2 = client.clone();
            scope.spawn(move |_| {
                let msg = format!("message #{}", i);
                client_2.sender().send(msg.clone()).unwrap();
                let reply = client_2.receiver().recv().unwrap();
                println!("REQ: {} | REPLY: {}", msg, reply);
            });
        }
        drop(client);
    })
    .unwrap();
}

fn spawn_configured_workers(config: &ThreadConfig) {
    let (client, service) = channels::<String, String>(10, 10);
    crossbeam::scope(|scope| {
        for _ in 0..4 {
            let svc = service.clone();
            scope
                .builder()
                .name(config.name().to_string())
                .stack_size(config.stack_size().unwrap())
                .spawn(move |_| run_worker(svc))
                .unwrap();
        }

        let msg = "some data".to_string();
        for _ in 0..100 {
            client.sender().send(msg.clone()).unwrap();
            let reply = client.receiver().recv().unwrap();
            assert_eq!(reply, "some data");
        }
        drop(client);
    })
    .unwrap();
}

#[test]
fn client_service_messaging_with_thread_config() {
    let config = ThreadConfig::new("Echo").set_stack_size(1024);
    assert_eq!(config.name(), "Echo");
    assert_eq!(config.stack_size(), Some(1024));
    spawn_configured_workers(&config);
}

#[test]
fn client_service_messaging_with_thread_config_with_blank_name() {
    let config = ThreadConfig::new("   ").set_stack_size(1024);
    assert_eq!(config.name().len(), 26);
    assert!(ULID::parse(config.name()).is_ok());
    spawn_configured_workers(&config);
}

#[test]
fn client_service_messaging_with_thread_config_with_empty_name() {
    let config = ThreadConfig::new("").set_stack_size(1024);
    assert_eq!(config.name().len(), 26);
    assert!(ULID::parse(config.name()).is_ok());
    spawn_configured_workers(&config);
}

#[test]
fn message_handler_disconnected() {
    let (client, service) = channels::<String, String>(10, 10);
    let config = ThreadConfig::new("Echo").set_stack_size(1024);
    crossbeam::scope(|scope| {
        for _ in 0..4 {
            let svc = service.clone();
            scope
                .builder()
                .name(config.name().to_string())
                .stack_size(config.stack_size().unwrap())
                .spawn(move |_| run_worker(svc))
                .unwrap();
        }

        let count = 10;
        let msg = "some data".to_string();
        for _ in 0..count {
            client.sender().send(msg.clone()).unwrap();
        }
        println!("all messages have been sent");
        let reply_channel = client.receiver().clone();
        // after dropping the request channel, all replies should still flow
        drop(client);

        let first = reply_channel.recv().unwrap();
        println!("received message");
        assert_eq!(first, "some data");
        let mut reply_count = 1;
        loop {
            match reply_channel.recv_timeout(Duration::from_millis(100)) {
                Ok(_) => {
                    reply_count += 1;
                    println!("received reply #{}", reply_count);
                }
                Err(err) => {
                    println!("Failed to receive message: {}", err);
                    break;
                }
            }
        }
        println!("reply_count = {}", reply_count);
        assert_eq!(reply_count, count);
    })
    .unwrap();
}

#[test]
fn send_blocks_when_stream_full() {
    let (client, service) = channels::<u32, u32>(1, 1);
    let sent = AtomicUsize::new(0);
    crossbeam::scope(|scope| {
        let sent_ref = &sent;
        let producer = client.clone();
        scope.spawn(move |_| {
            for i in 0..2u32 {
                producer.sender().send(i).unwrap();
                sent_ref.fetch_add(1, Ordering::SeqCst);
            }
        });
        sleep_ms(200);
        // capacity 1: the second send is blocked until a receive frees space
        assert_eq!(sent.load(Ordering::SeqCst), 1);
        assert_eq!(service.receiver().recv().unwrap(), 0);
        sleep_ms(200);
        assert_eq!(sent.load(Ordering::SeqCst), 2);
        assert_eq!(service.receiver().recv().unwrap(), 1);
        drop(client);
    })
    .unwrap();
}

#[test]
fn pooled_echo_answers_every_caller() {
    let (client, service) = channels::<String, String>(10, 10);
    let replies = AtomicUsize::new(0);
    crossbeam::scope(|scope| {
        for _ in 0..4 {
            let svc = service.clone();
            scope.spawn(move |_| run_worker(svc));
        }
        let replies_ref = &replies;
        for _ in 0..100 {
            let caller = client.clone();
            scope.spawn(move |_| {
                caller.sender().send("some data".to_string()).unwrap();
                let reply = caller.receiver().recv().unwrap();
                assert_eq!(reply, "some data");
                replies_ref.fetch_add(1, Ordering::SeqCst);
            });
        }
        drop(client);
    })
    .unwrap();
    assert_eq!(replies.load(Ordering::SeqCst), 100);
}

struct EchoU32;

impl MessageProcessor<u32, u32> for EchoU32 {
    fn process(&mut self, req: u32) -> u32 {
        req
    }
}

#[test]
fn zero_capacity_is_a_rendezvous() {
    // a bound of zero is legal: every send waits for a matching receive
    let (client, service) = channels::<u32, u32>(0, 0);
    crossbeam::scope(|scope| {
        let svc = service.clone();
        scope.spawn(move |_| {
            let mut processor = EchoU32;
            while process_next(&mut processor, &svc) {}
        });
        client.send(1).unwrap();
        assert_eq!(client.recv_reply(), Some(1));
        client.send(2).unwrap();
        assert_eq!(client.recv_reply(), Some(2));
        drop(client);
    })
    .unwrap();
}

#[test]
fn handles_report_the_capacities_the_pair_was_built_with() {
    let (client, service) = channels::<u32, u32>(10, 5);
    assert_eq!(client.request_capacity(), 10);
    assert_eq!(client.reply_capacity(), 5);
    assert_eq!(service.request_capacity(), 10);
    assert_eq!(service.reply_capacity(), 5);
    // the streams themselves were built with exactly those bounds
    assert_eq!(client.sender().capacity(), Some(10));
    assert_eq!(client.receiver().capacity(), Some(5));
    assert_eq!(service.receiver().capacity(), Some(10));
    assert_eq!(service.sender().capacity(), Some(5));
    let copy = client.clone();
    assert_eq!(copy.request_capacity(), 10);
    assert_eq!(copy.reply_capacity(), 5);
}

#[test]
fn service_handle_receives_and_replies() {
    let (client, service) = channels::<u32, u32>(2, 2);
    client.send(7).unwrap();
    assert_eq!(service.recv_request(), Some(7));
    service.send_reply(8).unwrap();
    assert_eq!(client.recv_reply(), Some(8));
    drop(client);
    // every producer is gone and the stream is drained
    assert_eq!(service.recv_request(), None);
    // nobody can consume the reply: it comes back, which is not fatal
    assert_eq!(service.send_reply(9), Err(9));
}

#[test]
fn send_fails_when_all_workers_are_gone() {
    let (client, service) = channels::<String, String>(1, 1);
    drop(service);
    assert_eq!(client.send("some data".to_string()), Err("some data".to_string()));
    assert_eq!(client.recv_reply(), None);
}

#[test]
fn thread_config_keeps_a_nonblank_name() {
    let config = ThreadConfig::new("worker-1");
    assert_eq!(config.name(), "worker-1");
    assert_eq!(config.stack_size(), None);
}

#[test]
fn thread_config_replaces_blank_names() {
    for raw in ["", "   ", " \t\r\n ", "\u{a0}\u{2003}\u{3000}"] {
        let config = ThreadConfig::new(raw);
        assert_eq!(config.name().len(), 26);
        assert!(ULID::parse(config.name()).is_ok());
    }
}

#[test]
fn thread_config_set_stack_size() {
    let config = ThreadConfig::new("w").set_stack_size(1024);
    assert_eq!(config.name(), "w");
    assert_eq!(config.stack_size(), Some(1024));
}
