use std::future::Future;

use async_curl::actor::{
    advance_paced, after_enqueue, after_join, after_reply, deliver, settle, Pacing, Request,
    QUEUE_CAPACITY,
};
use async_curl::async_curl::perform_curl_multi;
use async_curl::error::{AsyncCurlError, EngineFault};
use async_curl::registered::Registered;
use async_curl::worker::{Action, Event, Worker};
use curl::easy::{Easy2, Handler, WriteError};
use tokio::io::{AsyncReadExt, AsyncWriteExt};
use tokio::net::{UnixListener, UnixStream};
use tokio::runtime::Runtime;
use tokio::sync::mpsc::{self, Receiver, Sender};

const MOCK_BODY_RESPONSE: &str = r#"{"token":"12345"}"#;

#[derive(Debug)]
struct ResponseHandler {
    data: Vec<u8>,
    panics: bool,
}

impl ResponseHandler {
    fn new() -> Self {
        ResponseHandler { data: Vec::new(), panics: false }
    }

    fn get_data(&self) -> Vec<u8> {
        self.data.clone()
    }
}

impl Handler for ResponseHandler {
    fn write(&mut self, data: &[u8]) -> Result<usize, WriteError> {
        if self.panics {
            panic!("the response sink gives up");
        }
        self.data.extend_from_slice(data);
        Ok(data.len())
    }
}

type Response = Result<Easy2<ResponseHandler>, AsyncCurlError>;

async fn answer(mut socket: UnixStream, node: &'static str, body: &'static str) {
    let mut seen = Vec::new();
    let mut chunk = [0u8; 1024];
    while !seen.windows(4).any(|w| w == b"\r\n\r\n") {
        let n = socket.read(&mut chunk).await.unwrap();
        if n == 0 {
            break;
        }
        seen.extend_from_slice(&chunk[..n]);
    }
    let text = String::from_utf8_lossy(&seen).to_string();
    let asked = text.split(' ').nth(1).unwrap_or("").to_string();
    let response = if asked == node {
        format!(
            "HTTP/1.1 200 OK\r\nContent-Length: {}\r\nConnection: close\r\n\r\n{}",
            body.len(),
            body
        )
    } else if let Some(job) = asked.strip_prefix("/job/") {
        format!(
            "HTTP/1.1 200 OK\r\nContent-Length: {}\r\nConnection: close\r\n\r\n{}",
            job.len(),
            job
        )
    } else {
        String::from("HTTP/1.1 404 Not Found\r\nContent-Length: 0\r\nConnection: close\r\n\r\n")
    };
    socket.write_all(response.as_bytes()).await.unwrap();
    let _ = socket.shutdown().await;
}

async fn start_mock_server(name: &'static str, node: &'static str, body: &'static str) -> String {
    let listener = UnixListener::bind(format!("\0{}", name)).unwrap();
    tokio::spawn(async move {
        loop {
            let (socket, _) = listener.accept().await.unwrap();
            tokio::spawn(answer(socket, node, body));
        }
    });
    name.to_string()
}

fn get(server: &str, node: &str) -> Easy2<ResponseHandler> {
    let mut easy2 = Easy2::new(ResponseHandler::new());
    easy2.url(&format!("http://localhost{}", node)).unwrap();
    easy2.get(true).unwrap();
    easy2.abstract_unix_socket(server.as_bytes()).unwrap();
    easy2
}

async fn work<S, F>(mut queue: Receiver<Request<ResponseHandler>>, strategy: S)
where
    S: Fn(Easy2<ResponseHandler>) -> F,
    F: Future<Output = Response>,
{
    let mut worker = Worker::new();
    let mut held = None;
    loop {
        match worker.action() {
            Action::Receive => match queue.recv().await {
                Some(request) => {
                    held = Some(request);
                    assert!(worker.on(Event::Dequeued));
                }
                None => {
                    assert!(worker.on(Event::Closed));
                }
            },
            Action::Serve => {
                let (easy2, reply_to) = held.take().unwrap().into_parts();
                let response = strategy(easy2).await;
                let failed = response.is_err();
                let delivered = deliver(reply_to, response).is_none();
                assert!(worker.on(Event::Completed { failed, delivered }));
            }
            Action::Stop => break,
        }
    }
}

fn perform_curl(easy2: Easy2<ResponseHandler>) -> Response {
    let outcome = easy2.perform();
    settle(easy2, EngineFault::lift_transfer(outcome))
}

fn perform_curl_paced(easy2: Easy2<ResponseHandler>) -> Response {
    let registered = Registered::register(easy2)?;
    loop {
        match advance_paced(&registered)? {
            Pacing::Finish => break,
            Pacing::Advance => {}
            Pacing::Pause(ms) => registered.wait(ms.min(50))?,
        }
    }
    registered.finish()
}

struct Dispatcher {
    request_sender: Sender<Request<ResponseHandler>>,
}

impl Dispatcher {
    fn isolated(perform: fn(Easy2<ResponseHandler>) -> Response) -> Self {
        let (request_sender, request_receiver) = mpsc::channel(QUEUE_CAPACITY);
        tokio::spawn(work(request_receiver, move |easy2| async move {
            after_join(tokio::task::spawn_blocking(move || perform(easy2)).await)
        }));
        Dispatcher { request_sender }
    }

    fn cooperative() -> Self {
        let (request_sender, request_receiver) = mpsc::channel(QUEUE_CAPACITY);
        tokio::spawn(work(request_receiver, |easy2| async move { perform_curl_multi(easy2) }));
        Dispatcher { request_sender }
    }

    fn share(&self) -> Self {
        Dispatcher { request_sender: self.request_sender.clone() }
    }

    async fn send_request(&self, easy2: Easy2<ResponseHandler>) -> Response {
        let (request, reply) = Request::new(easy2);
        after_enqueue(self.request_sender.send(request).await)?;
        after_reply(reply.await)
    }
}

async fn two_requests_at_once(name: &'static str, make: fn() -> Dispatcher) {
    let server = start_mock_server(name, "/async-test", MOCK_BODY_RESPONSE).await;

    let curl = make();
    let easy2 = get(&server, "/async-test");
    let spawn1 = tokio::spawn(async move {
        let result = curl.send_request(easy2).await;
        let result = result.unwrap();
        assert_eq!(
            String::from_utf8_lossy(&result.get_ref().get_data()),
            MOCK_BODY_RESPONSE.to_string()
        );
        let status_code = result.response_code().unwrap();
        assert_eq!(u16::try_from(status_code).unwrap(), 200);
    });

    let curl = make();
    let easy2 = get(&server, "/async-test");
    let spawn2 = tokio::spawn(async move {
        let result = curl.send_request(easy2).await;
        let result = result.unwrap();
        assert_eq!(
            String::from_utf8_lossy(&result.get_ref().get_data()),
            MOCK_BODY_RESPONSE.to_string()
        );
        let status_code = result.response_code().unwrap();
        assert_eq!(u16::try_from(status_code).unwrap(), 200);
    });

    let (first, second) = (spawn1.await, spawn2.await);
    first.unwrap();
    second.unwrap();
}

#[test]
fn actor_test_async_requests() {
    let runtime = Runtime::new().unwrap();
    runtime.block_on(two_requests_at_once("actor_test_async_requests", || {
        Dispatcher::isolated(perform_curl)
    }));
}

#[test]
fn test_async_requests_multi() {
    let runtime = Runtime::new().unwrap();
    runtime.block_on(two_requests_at_once("test_async_requests_multi", || {
        Dispatcher::isolated(perform_curl_paced)
    }));
}

#[test]
fn async_curl_test_async_requests() {
    let runtime = Runtime::new().unwrap();
    runtime.block_on(two_requests_at_once("async_curl_test_async_requests", || {
        Dispatcher::cooperative()
    }));
}

async fn many_callers(name: &'static str, curl: Dispatcher) {
    let server = start_mock_server(name, "/async-test", MOCK_BODY_RESPONSE).await;
    let mut tasks = Vec::new();
    for job in 0..8u32 {
        let curl = curl.share();
        let easy2 = get(&server, &format!("/job/{}", job));
        tasks.push(tokio::spawn(async move {
            let result = curl.send_request(easy2).await.unwrap();
            assert_eq!(
                String::from_utf8_lossy(&result.get_ref().get_data()),
                format!("{}", job)
            );
            assert_eq!(result.response_code().unwrap(), 200);
        }));
    }
    for task in tasks {
        task.await.unwrap();
    }
}

#[test]
fn every_caller_of_one_isolated_dispatcher_gets_the_reply_to_its_own_transfer() {
    let runtime = Runtime::new().unwrap();
    runtime.block_on(async {
        many_callers("every_caller_isolated", Dispatcher::isolated(perform_curl)).await
    });
}

#[test]
fn every_caller_of_one_cooperative_dispatcher_gets_the_reply_to_its_own_transfer() {
    let runtime = Runtime::new().unwrap();
    runtime.block_on(async {
        many_callers("every_caller_cooperative", Dispatcher::cooperative()).await
    });
}

#[test]
fn a_refused_connection_is_an_engine_error_and_the_dispatcher_goes_on() {
    let runtime = Runtime::new().unwrap();
    runtime.block_on(async {
        let server =
            start_mock_server("a_refused_connection", "/async-test", MOCK_BODY_RESPONSE).await;
        let curl = Dispatcher::isolated(perform_curl);

        let result = curl.send_request(get("nobody_listens_here", "/async-test")).await;
        match result {
            Err(AsyncCurlError::EngineError(EngineFault::Transfer { code, .. })) => {
                assert_eq!(code, 7)
            }
            Err(other) => panic!("another error: {:?}", other),
            Ok(_) => panic!("the transfer succeeded"),
        }

        let result = curl.send_request(get(&server, "/async-test")).await.unwrap();
        assert_eq!(
            String::from_utf8_lossy(&result.get_ref().get_data()),
            MOCK_BODY_RESPONSE.to_string()
        );
        assert_eq!(result.response_code().unwrap(), 200);
    });
}

async fn refused_then_served(name: &'static str, curl: Dispatcher) {
    let server = start_mock_server(name, "/async-test", MOCK_BODY_RESPONSE).await;

    let result = curl.send_request(get("nobody_listens_here", "/async-test")).await;
    match result {
        Err(AsyncCurlError::EngineError(EngineFault::Transfer { code, .. })) => {
            assert_eq!(code, 7)
        }
        Err(other) => panic!("another error: {:?}", other),
        Ok(_) => panic!("the transfer succeeded"),
    }

    let result = curl.send_request(get(&server, "/async-test")).await.unwrap();
    assert_eq!(
        String::from_utf8_lossy(&result.get_ref().get_data()),
        MOCK_BODY_RESPONSE.to_string()
    );
    assert_eq!(result.response_code().unwrap(), 200);
}

#[test]
fn a_refused_connection_is_an_engine_error_of_the_cooperative_dispatcher_too() {
    let runtime = Runtime::new().unwrap();
    runtime.block_on(async {
        refused_then_served("refused_cooperative", Dispatcher::cooperative()).await
    });
}

#[test]
fn a_refused_connection_is_an_engine_error_of_the_paced_dispatcher_too() {
    let runtime = Runtime::new().unwrap();
    runtime.block_on(async {
        refused_then_served("refused_paced", Dispatcher::isolated(perform_curl_paced)).await
    });
}

#[test]
fn a_caller_that_gives_up_does_not_stop_the_dispatcher() {
    let runtime = Runtime::new().unwrap();
    runtime.block_on(async {
        let server =
            start_mock_server("a_caller_that_gives_up", "/async-test", MOCK_BODY_RESPONSE).await;
        let curl = Dispatcher::cooperative();

        let (request, reply) = Request::new(get(&server, "/async-test"));
        after_enqueue(curl.request_sender.send(request).await).unwrap();
        drop(reply);

        let result = curl.send_request(get(&server, "/async-test")).await.unwrap();
        assert_eq!(
            String::from_utf8_lossy(&result.get_ref().get_data()),
            MOCK_BODY_RESPONSE.to_string()
        );
        assert_eq!(result.response_code().unwrap(), 200);
    });
}

#[test]
fn a_thread_that_ends_abnormally_is_a_thread_join_error_and_the_dispatcher_goes_on() {
    let runtime = Runtime::new().unwrap();
    runtime.block_on(async {
        let server =
            start_mock_server("a_thread_that_ends", "/async-test", MOCK_BODY_RESPONSE).await;
        let curl = Dispatcher::isolated(perform_curl);

        let mut easy2 = get(&server, "/async-test");
        easy2.get_mut().panics = true;
        match curl.send_request(easy2).await {
            Err(error) => assert_eq!(error, AsyncCurlError::ThreadJoinError),
            Ok(_) => panic!("the transfer succeeded"),
        }

        let result = curl.send_request(get(&server, "/async-test")).await.unwrap();
        assert_eq!(
            String::from_utf8_lossy(&result.get_ref().get_data()),
            MOCK_BODY_RESPONSE.to_string()
        );
    });
}

#[test]
fn a_submission_after_the_worker_has_ended_finds_the_queue_closed() {
    let runtime = Runtime::new().unwrap();
    runtime.block_on(async {
        let (request_sender, request_receiver) = mpsc::channel(QUEUE_CAPACITY);
        drop(request_receiver);
        let curl = Dispatcher { request_sender };
        match curl.send_request(Easy2::new(ResponseHandler::new())).await {
            Err(error) => assert_eq!(error, AsyncCurlError::QueueClosed),
            Ok(_) => panic!("the transfer succeeded"),
        }
    });
}

#[test]
fn a_worker_that_drops_the_envelope_closes_the_reply_channel() {
    let runtime = Runtime::new().unwrap();
    runtime.block_on(async {
        let (request_sender, mut request_receiver) =
            mpsc::channel::<Request<ResponseHandler>>(QUEUE_CAPACITY);
        tokio::spawn(async move {
            let request = request_receiver.recv().await;
            drop(request);
        });
        let curl = Dispatcher { request_sender };
        match curl.send_request(Easy2::new(ResponseHandler::new())).await {
            Err(error) => assert_eq!(error, AsyncCurlError::ReplyChannelClosed),
            Ok(_) => panic!("the transfer succeeded"),
        }
    });
}

#[test]
fn the_worker_ends_once_every_handle_is_dropped() {
    let runtime = Runtime::new().unwrap();
    runtime.block_on(async {
        let (request_sender, request_receiver) =
            mpsc::channel::<Request<ResponseHandler>>(QUEUE_CAPACITY);
        let worker = tokio::spawn(work(request_receiver, |easy2| async move {
            perform_curl_multi(easy2)
        }));
        let curl = Dispatcher { request_sender };
        let other = curl.share();
        drop(curl);
        assert!(!worker.is_finished());
        drop(other);
        worker.await.unwrap();
    });
}
