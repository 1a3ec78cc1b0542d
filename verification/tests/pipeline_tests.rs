use std::cell::Cell;
use std::rc::Rc;

use messaging_api::event::WebhookEvent;
use messaging_api::oauth::{AccessTokenIssuer, OAuthError};
use messaging_api::reply::{Reply, ReplyError, ReplyMessage, ReplyTransport};
use messaging_api::{hmac_sha256_base64, Channel, HandleWebhookEvent, MessagingApi, MessagingError};

/// Counts its invocations; replies "hi" to the nth event it sees, or to
/// every event when `nth` is zero.
struct ReplyOnNth {
    calls: Rc<Cell<usize>>,
    nth: usize,
}

impl HandleWebhookEvent for ReplyOnNth {
    fn handle_webhook_event(&mut self, _event: &WebhookEvent) -> Option<Reply> {
        self.calls.set(self.calls.get() + 1);
        if self.nth == 0 || self.calls.get() == self.nth {
            Some(Reply::new(vec![ReplyMessage::Text { text: "hi".to_owned() }], false))
        } else {
            None
        }
    }
}

/// Answers every issuance request with a fixed response, counting requests.
struct CountingIssuer {
    calls: Rc<Cell<usize>>,
    status: u16,
    body: String,
}

impl AccessTokenIssuer for CountingIssuer {
    fn issue(&mut self, _channel_id: usize, _channel_secret: &str) -> Result<(u16, String), String> {
        self.calls.set(self.calls.get() + 1);
        Ok((self.status, self.body.clone()))
    }
}

struct FailingIssuer;

impl AccessTokenIssuer for FailingIssuer {
    fn issue(&mut self, _channel_id: usize, _channel_secret: &str) -> Result<(u16, String), String> {
        Err("connection refused".to_owned())
    }
}

/// Records every posted reply; answers with a fixed status.
struct SpyTransport {
    posts: Vec<(String, String)>,
    status: u16,
}

impl ReplyTransport for SpyTransport {
    fn post_reply(&mut self, access_token: &str, body: &str) -> Result<u16, String> {
        self.posts.push((access_token.to_owned(), body.to_owned()));
        Ok(self.status)
    }
}

struct FailingTransport;

impl ReplyTransport for FailingTransport {
    fn post_reply(&mut self, _access_token: &str, _body: &str) -> Result<u16, String> {
        Err("broken pipe".to_owned())
    }
}

fn token_body() -> String {
    "{\"access_token\":\"tok-abc\",\"expires_in\":2592000,\"token_type\":\"Bearer\"}".to_owned()
}

fn api_with(
    key: &str,
    secret: &str,
    nth: usize,
) -> (MessagingApi<ReplyOnNth>, Rc<Cell<usize>>) {
    let calls = Rc::new(Cell::new(0));
    let handler = ReplyOnNth { calls: calls.clone(), nth };
    let api = MessagingApi::new().add_channel(Channel::new(
        1,
        key.to_owned(),
        secret.to_owned(),
        None,
        handler,
    ));
    (api, calls)
}

const BODY_FOLLOW: &str = "{\"destination\":\"U123\",\"events\":[{\"type\":\"follow\",\"replyToken\":\"tok1\",\"timestamp\":0,\"source\":{\"type\":\"user\",\"userId\":\"U123\"}}]}";

#[test]
fn end_to_end_follow_reply() {
    let (mut api, calls) = api_with("U123", "sec", 1);
    let digest = hmac_sha256_base64(b"sec", BODY_FOLLOW.as_bytes());
    let body = api.sign(BODY_FOLLOW.to_owned(), digest.as_slice()).unwrap();
    let mut issuer = CountingIssuer { calls: Rc::new(Cell::new(0)), status: 200, body: token_body() };
    let mut transport = SpyTransport { posts: Vec::new(), status: 200 };
    api.handle_event(body, &mut issuer, &mut transport).unwrap();
    assert_eq!(calls.get(), 1);
    assert_eq!(transport.posts.len(), 1);
    assert_eq!(transport.posts[0].0, "tok-abc");
    assert_eq!(
        transport.posts[0].1,
        "{\"replyToken\":\"tok1\",\"messages\":[{\"type\":\"text\",\"text\":\"hi\"}],\"notificationDisabled\":false}"
    );
}

#[test]
fn end_to_end_bad_signature() {
    let (api, calls) = api_with("U123", "sec", 1);
    let mut digest = hmac_sha256_base64(b"sec", BODY_FOLLOW.as_bytes());
    digest[0] ^= 1;
    match api.sign(BODY_FOLLOW.to_owned(), digest.as_slice()) {
        Err(MessagingError::Signature { .. }) => {},
        _ => panic!("expected a signature error"),
    }
    // the handler was never invoked
    assert_eq!(calls.get(), 0);
}

#[test]
fn end_to_end_unknown_destination() {
    let body = BODY_FOLLOW.replace("U123", "U999");
    let (api, calls) = api_with("U123", "sec", 1);
    let digest = hmac_sha256_base64(b"sec", body.as_bytes());
    match api.sign(body, digest.as_slice()) {
        Err(MessagingError::Destination { .. }) => {},
        _ => panic!("expected a destination error"),
    }
    assert_eq!(calls.get(), 0);
}

#[test]
fn resolve_never_invents_a_channel() {
    // an empty registry rejects every destination
    let api: MessagingApi<ReplyOnNth> = MessagingApi::new();
    let digest = hmac_sha256_base64(b"sec", BODY_FOLLOW.as_bytes());
    match api.sign(BODY_FOLLOW.to_owned(), digest.as_slice()) {
        Err(MessagingError::Destination { .. }) => {},
        _ => panic!("expected a destination error"),
    }
}

#[test]
fn malformed_body_is_a_request_body_error() {
    let (api, _) = api_with("U123", "sec", 1);
    match api.sign("{not json".to_owned(), b"x") {
        Err(MessagingError::RequestBody { .. }) => {},
        _ => panic!("expected a request body error"),
    }
}

#[test]
fn registering_twice_replaces_the_channel() {
    let calls = Rc::new(Cell::new(0));
    let first = ReplyOnNth { calls: calls.clone(), nth: 1 };
    let second = ReplyOnNth { calls: calls.clone(), nth: 1 };
    let api = MessagingApi::new()
        .add_channel(Channel::new(1, "U123".to_owned(), "old-secret".to_owned(), None, first))
        .add_channel(Channel::new(2, "U123".to_owned(), "new-secret".to_owned(), None, second));
    // a digest under the replaced channel's secret no longer verifies
    let old_digest = hmac_sha256_base64(b"old-secret", BODY_FOLLOW.as_bytes());
    match api.sign(BODY_FOLLOW.to_owned(), old_digest.as_slice()) {
        Err(MessagingError::Signature { .. }) => {},
        _ => panic!("expected a signature error"),
    }
    // one under the replacing channel's secret does
    let new_digest = hmac_sha256_base64(b"new-secret", BODY_FOLLOW.as_bytes());
    assert!(api.sign(BODY_FOLLOW.to_owned(), new_digest.as_slice()).is_ok());
}

const BODY_THREE: &str = "{\"destination\":\"U123\",\"events\":[\
{\"type\":\"follow\",\"replyToken\":\"tokA\",\"timestamp\":1,\"source\":{\"type\":\"user\",\"userId\":\"U1\"}},\
{\"type\":\"follow\",\"replyToken\":\"tokB\",\"timestamp\":2,\"source\":{\"type\":\"user\",\"userId\":\"U2\"}},\
{\"type\":\"follow\",\"replyToken\":\"tokC\",\"timestamp\":3,\"source\":{\"type\":\"user\",\"userId\":\"U3\"}}]}";

#[test]
fn one_reply_carries_the_right_token() {
    // the handler stays silent for events one and two and replies to the
    // third: exactly one reply goes out, with the third event's token
    let (mut api, calls) = api_with("U123", "sec", 3);
    let digest = hmac_sha256_base64(b"sec", BODY_THREE.as_bytes());
    let body = api.sign(BODY_THREE.to_owned(), digest.as_slice()).unwrap();
    let mut issuer = CountingIssuer { calls: Rc::new(Cell::new(0)), status: 200, body: token_body() };
    let mut transport = SpyTransport { posts: Vec::new(), status: 200 };
    api.handle_event(body, &mut issuer, &mut transport).unwrap();
    assert_eq!(calls.get(), 3);
    assert_eq!(transport.posts.len(), 1);
    assert!(transport.posts[0].1.contains("\"replyToken\":\"tokC\""));
}

#[test]
fn token_is_issued_once_and_cached() {
    // the handler replies to every event, so both deliveries need a token;
    // issuance runs on the first and the cached token is reused on the second
    let (mut api, _calls) = api_with("U123", "sec", 0);
    let issuer_calls = Rc::new(Cell::new(0));
    let mut issuer = CountingIssuer { calls: issuer_calls.clone(), status: 200, body: token_body() };
    let mut transport = SpyTransport { posts: Vec::new(), status: 200 };

    let digest = hmac_sha256_base64(b"sec", BODY_FOLLOW.as_bytes());
    let body = api.sign(BODY_FOLLOW.to_owned(), digest.as_slice()).unwrap();
    api.handle_event(body, &mut issuer, &mut transport).unwrap();
    let body = api.sign(BODY_FOLLOW.to_owned(), digest.as_slice()).unwrap();
    api.handle_event(body, &mut issuer, &mut transport).unwrap();

    assert_eq!(issuer_calls.get(), 1);
    assert_eq!(transport.posts.len(), 2);
    assert_eq!(transport.posts[0].0, "tok-abc");
    assert_eq!(transport.posts[1].0, "tok-abc");
}

#[test]
fn get_access_token_reuses_the_cache() {
    let calls = Rc::new(Cell::new(0));
    let mut issuer = CountingIssuer { calls: calls.clone(), status: 200, body: token_body() };
    let mut channel = Channel::new(
        7,
        "U1".to_owned(),
        "s".to_owned(),
        None,
        ReplyOnNth { calls: Rc::new(Cell::new(0)), nth: 0 },
    );
    let t1 = MessagingApi::get_access_token(&mut channel, &mut issuer).unwrap();
    let t2 = MessagingApi::get_access_token(&mut channel, &mut issuer).unwrap();
    assert_eq!(t1, "tok-abc");
    assert_eq!(t2, "tok-abc");
    assert_eq!(calls.get(), 1);
    assert_eq!(channel.access_token.as_deref(), Some("tok-abc"));
}

#[test]
fn oauth_error_response_is_surfaced() {
    let (mut api, _) = api_with("U123", "sec", 0);
    let mut issuer = CountingIssuer {
        calls: Rc::new(Cell::new(0)),
        status: 400,
        body: "{\"error\":\"invalid_client\",\"error_description\":\"bad secret\"}".to_owned(),
    };
    let mut transport = SpyTransport { posts: Vec::new(), status: 200 };
    let digest = hmac_sha256_base64(b"sec", BODY_FOLLOW.as_bytes());
    let body = api.sign(BODY_FOLLOW.to_owned(), digest.as_slice()).unwrap();
    match api.handle_event(body, &mut issuer, &mut transport) {
        Err(MessagingError::OAuth { error: OAuthError::ErrorResponse { message, description } }) => {
            assert_eq!(message, "invalid_client");
            assert_eq!(description.as_deref(), Some("bad secret"));
        },
        _ => panic!("expected a structured issuance error"),
    }
    assert_eq!(transport.posts.len(), 0);
}

#[test]
fn oauth_unexpected_status_is_surfaced() {
    let (mut api, _) = api_with("U123", "sec", 0);
    let mut issuer =
        CountingIssuer { calls: Rc::new(Cell::new(0)), status: 503, body: "".to_owned() };
    let mut transport = SpyTransport { posts: Vec::new(), status: 200 };
    let digest = hmac_sha256_base64(b"sec", BODY_FOLLOW.as_bytes());
    let body = api.sign(BODY_FOLLOW.to_owned(), digest.as_slice()).unwrap();
    match api.handle_event(body, &mut issuer, &mut transport) {
        Err(MessagingError::OAuth { error: OAuthError::UnexpectedStatusResponse { status } }) => {
            assert_eq!(status, 503);
        },
        _ => panic!("expected an unexpected-status error"),
    }
}

#[test]
fn oauth_malformed_success_body_is_surfaced() {
    let (mut api, _) = api_with("U123", "sec", 0);
    let mut issuer = CountingIssuer {
        calls: Rc::new(Cell::new(0)),
        status: 200,
        body: "{\"token_type\":\"Bearer\"}".to_owned(),
    };
    let mut transport = SpyTransport { posts: Vec::new(), status: 200 };
    let digest = hmac_sha256_base64(b"sec", BODY_FOLLOW.as_bytes());
    let body = api.sign(BODY_FOLLOW.to_owned(), digest.as_slice()).unwrap();
    match api.handle_event(body, &mut issuer, &mut transport) {
        Err(MessagingError::OAuth { error: OAuthError::MalformedResponse { status } }) => {
            assert_eq!(status, 200);
        },
        _ => panic!("expected a malformed-response error"),
    }
}

#[test]
fn oauth_malformed_error_body_is_surfaced() {
    let (mut api, _) = api_with("U123", "sec", 0);
    let mut issuer = CountingIssuer {
        calls: Rc::new(Cell::new(0)),
        status: 400,
        body: "gateway timeout".to_owned(),
    };
    let mut transport = SpyTransport { posts: Vec::new(), status: 200 };
    let digest = hmac_sha256_base64(b"sec", BODY_FOLLOW.as_bytes());
    let body = api.sign(BODY_FOLLOW.to_owned(), digest.as_slice()).unwrap();
    match api.handle_event(body, &mut issuer, &mut transport) {
        Err(MessagingError::OAuth { error: OAuthError::MalformedResponse { status } }) => {
            assert_eq!(status, 400);
        },
        _ => panic!("expected a malformed-response error"),
    }
}

#[test]
fn oauth_transport_failure_is_surfaced() {
    let (mut api, _) = api_with("U123", "sec", 0);
    let mut issuer = FailingIssuer;
    let mut transport = SpyTransport { posts: Vec::new(), status: 200 };
    let digest = hmac_sha256_base64(b"sec", BODY_FOLLOW.as_bytes());
    let body = api.sign(BODY_FOLLOW.to_owned(), digest.as_slice()).unwrap();
    match api.handle_event(body, &mut issuer, &mut transport) {
        Err(MessagingError::OAuth { error: OAuthError::Reqwest { message } }) => {
            assert_eq!(message, "connection refused");
        },
        _ => panic!("expected a transport error"),
    }
}

#[test]
fn any_2xx_reply_status_is_success() {
    let (mut api, _) = api_with("U123", "sec", 0);
    let mut issuer = CountingIssuer { calls: Rc::new(Cell::new(0)), status: 200, body: token_body() };
    let mut transport = SpyTransport { posts: Vec::new(), status: 204 };
    let digest = hmac_sha256_base64(b"sec", BODY_FOLLOW.as_bytes());
    let body = api.sign(BODY_FOLLOW.to_owned(), digest.as_slice()).unwrap();
    assert!(api.handle_event(body, &mut issuer, &mut transport).is_ok());
    assert_eq!(transport.posts.len(), 1);
}

#[test]
fn empty_delivery_succeeds() {
    let body_text = "{\"destination\":\"U123\",\"events\":[]}";
    let (mut api, calls) = api_with("U123", "sec", 0);
    let mut issuer = FailingIssuer;
    let mut transport = FailingTransport;
    let digest = hmac_sha256_base64(b"sec", body_text.as_bytes());
    let body = api.sign(body_text.to_owned(), digest.as_slice()).unwrap();
    assert!(api.handle_event(body, &mut issuer, &mut transport).is_ok());
    assert_eq!(calls.get(), 0);
}

#[test]
fn reply_rejection_is_surfaced() {
    let (mut api, _) = api_with("U123", "sec", 0);
    let mut issuer = CountingIssuer { calls: Rc::new(Cell::new(0)), status: 200, body: token_body() };
    let mut transport = SpyTransport { posts: Vec::new(), status: 404 };
    let digest = hmac_sha256_base64(b"sec", BODY_FOLLOW.as_bytes());
    let body = api.sign(BODY_FOLLOW.to_owned(), digest.as_slice()).unwrap();
    match api.handle_event(body, &mut issuer, &mut transport) {
        Err(MessagingError::Reply { error: ReplyError::UnexpectedStatusResponse { status } }) => {
            assert_eq!(status, 404);
        },
        _ => panic!("expected a reply error"),
    }
}

#[test]
fn reply_transport_failure_is_surfaced() {
    let (mut api, _) = api_with("U123", "sec", 0);
    let mut issuer = CountingIssuer { calls: Rc::new(Cell::new(0)), status: 200, body: token_body() };
    let mut transport = FailingTransport;
    let digest = hmac_sha256_base64(b"sec", BODY_FOLLOW.as_bytes());
    let body = api.sign(BODY_FOLLOW.to_owned(), digest.as_slice()).unwrap();
    match api.handle_event(body, &mut issuer, &mut transport) {
        Err(MessagingError::Reply { error: ReplyError::Reqwest { message } }) => {
            assert_eq!(message, "broken pipe");
        },
        _ => panic!("expected a reply transport error"),
    }
}

#[test]
fn reply_to_an_event_without_token_is_dropped() {
    // an unfollow event carries no reply token: the handler's reply cannot
    // be sent and is dropped, and the delivery still succeeds
    let body_text = "{\"destination\":\"U123\",\"events\":[{\"type\":\"unfollow\",\"timestamp\":0,\"source\":{\"type\":\"user\",\"userId\":\"U1\"}}]}";
    let (mut api, calls) = api_with("U123", "sec", 0);
    let mut issuer = CountingIssuer { calls: Rc::new(Cell::new(0)), status: 200, body: token_body() };
    let mut transport = SpyTransport { posts: Vec::new(), status: 200 };
    let digest = hmac_sha256_base64(b"sec", body_text.as_bytes());
    let body = api.sign(body_text.to_owned(), digest.as_slice()).unwrap();
    api.handle_event(body, &mut issuer, &mut transport).unwrap();
    assert_eq!(calls.get(), 1);
    assert_eq!(transport.posts.len(), 0);
}

#[test]
fn first_failure_aborts_remaining_events() {
    // the handler replies to every event, the transport refuses the first
    // reply: the second and third events are never dispatched
    let (mut api, calls) = api_with("U123", "sec", 0);
    let mut issuer = CountingIssuer { calls: Rc::new(Cell::new(0)), status: 200, body: token_body() };
    let mut transport = FailingTransport;
    let digest = hmac_sha256_base64(b"sec", BODY_THREE.as_bytes());
    let body = api.sign(BODY_THREE.to_owned(), digest.as_slice()).unwrap();
    assert!(api.handle_event(body, &mut issuer, &mut transport).is_err());
    assert_eq!(calls.get(), 1);
}
