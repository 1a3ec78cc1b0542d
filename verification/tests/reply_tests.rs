use messaging_api::channel::stitch_reply_token;
use messaging_api::reply::{reply_to_json, Reply, ReplyMessage};

#[test]
fn new_reply_has_an_empty_token() {
    let r = Reply::new(vec![ReplyMessage::Text { text: "a".to_owned() }], true);
    assert_eq!(r.reply_token, "");
    assert_eq!(r.messages.len(), 1);
    assert!(r.notification_disabled);
}

#[test]
fn serializes_a_plain_reply() {
    let mut r = Reply::new(vec![ReplyMessage::Text { text: "hi".to_owned() }], false);
    r.reply_token = "tok1".to_owned();
    assert_eq!(
        reply_to_json(&r),
        "{\"replyToken\":\"tok1\",\"messages\":[{\"type\":\"text\",\"text\":\"hi\"}],\"notificationDisabled\":false}"
    );
}

#[test]
fn serializes_several_messages_and_escapes() {
    let mut r = Reply::new(
        vec![
            ReplyMessage::Text { text: "a\"b\\c".to_owned() },
            ReplyMessage::Text { text: "line\nbreak\tand \u{1}".to_owned() },
        ],
        true,
    );
    r.reply_token = "t".to_owned();
    assert_eq!(
        reply_to_json(&r),
        "{\"replyToken\":\"t\",\"messages\":[{\"type\":\"text\",\"text\":\"a\\\"b\\\\c\"},{\"type\":\"text\",\"text\":\"line\\nbreak\\tand \\u0001\"}],\"notificationDisabled\":true}"
    );
}

#[test]
fn serializes_an_empty_message_list() {
    let mut r = Reply::new(Vec::new(), false);
    r.reply_token = "t".to_owned();
    assert_eq!(
        reply_to_json(&r),
        "{\"replyToken\":\"t\",\"messages\":[],\"notificationDisabled\":false}"
    );
}

#[test]
fn serialized_reply_parses_back() {
    // the serializer's output is well-formed JSON that decodes to the same
    // values, escapes included
    let mut r = Reply::new(
        vec![ReplyMessage::Text { text: "a\"b\\c\nd\te \u{2}f".to_owned() }],
        true,
    );
    r.reply_token = "tok\"x".to_owned();
    let text = reply_to_json(&r);
    let v = messaging_api::json::parse_json(text.as_str()).unwrap();
    match &v {
        messaging_api::json::Json::Obj(ms) => {
            assert_eq!(ms.len(), 3);
            assert_eq!(ms[0].0, "replyToken");
            assert!(matches!(&ms[0].1, messaging_api::json::Json::Str(t) if t == "tok\"x"));
            match &ms[1].1 {
                messaging_api::json::Json::Arr(es) => {
                    assert_eq!(es.len(), 1);
                    match &es[0] {
                        messaging_api::json::Json::Obj(fields) => {
                            assert!(matches!(&fields[1].1, messaging_api::json::Json::Str(t)
                                if t == "a\"b\\c\nd\te \u{2}f"));
                        },
                        _ => panic!("expected a message object"),
                    }
                },
                _ => panic!("expected a message array"),
            }
            assert!(matches!(&ms[2].1, messaging_api::json::Json::Bool(true)));
        },
        _ => panic!("expected an object"),
    }
}

#[test]
fn stitching_fills_the_token_in() {
    let r = Reply::new(vec![ReplyMessage::Text { text: "x".to_owned() }], false);
    let stitched = stitch_reply_token(r, Some("tok9".to_owned())).unwrap();
    assert_eq!(stitched.reply_token, "tok9");
    assert_eq!(stitched.messages.len(), 1);
}

#[test]
fn stitching_drops_a_reply_without_token() {
    let r = Reply::new(vec![ReplyMessage::Text { text: "x".to_owned() }], false);
    assert!(stitch_reply_token(r, None).is_none());
    let r = Reply::new(vec![ReplyMessage::Text { text: "x".to_owned() }], false);
    assert!(stitch_reply_token(r, Some(String::new())).is_none());
}
