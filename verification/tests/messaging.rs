use birthday_bot::messaging::{compose_body, GMMessenger, OutboundMessage};
use serde_json::{Number, Value};

fn messenger() -> GMMessenger {
    GMMessenger::new("bot-123".to_string(), "https://chat.example/post".to_string())
}

fn expected_body(bot_id: &str, text: &str, start: usize, len: usize, id: u64) -> String {
    let mut attachment = serde_json::Map::new();
    attachment.insert("type".to_string(), Value::String("mentions".to_string()));
    attachment.insert("user_ids".to_string(), Value::Array(vec![Value::Number(Number::from(id))]));
    attachment.insert(
        "loci".to_string(),
        Value::Array(vec![Value::Array(vec![
            Value::Number(Number::from(start as u64)),
            Value::Number(Number::from(len as u64)),
        ])]),
    );
    let mut body = serde_json::Map::new();
    body.insert("bot_id".to_string(), Value::String(bot_id.to_string()));
    body.insert("text".to_string(), Value::String(text.to_string()));
    body.insert("attachments".to_string(), Value::Array(vec![Value::Object(attachment)]));
    Value::Object(body).to_string()
}

#[test]
fn messenger_keeps_its_settings() {
    let m = messenger();
    assert_eq!(m.bot_id, "bot-123");
    assert_eq!(m.post_url, "https://chat.example/post");
}

#[test]
fn request_goes_to_the_webhook() {
    let request = messenger().send_message_with_mention("Hello, Al!".to_string(), 7, 2, 42);
    assert_eq!(request.url, "https://chat.example/post");
}

#[test]
fn body_is_written_out_exactly() {
    let request = messenger().send_message_with_mention("Hello, Al!".to_string(), 7, 2, 42);
    assert_eq!(
        request.body,
        "{\"attachments\":[{\"loci\":[[7,2]],\"type\":\"mentions\",\"user_ids\":[42]}],\"bot_id\":\"bot-123\",\"text\":\"Hello, Al!\"}"
    );
}

#[test]
fn body_is_what_the_json_library_writes() {
    let cases = [
        ("bot", "Hello, Al!", 7usize, 2usize, 42u64),
        ("", "", 0, 0, 0),
        ("b\"ot", "say \"hi\"\n\tnow \\ then", 4, 4, u64::MAX),
        ("bot", "It's Z\u{e9}'s birthday \u{1f382}", 5, 3, 18),
        ("bot", "\u{0}\u{1f}\u{7f}", usize::MAX, usize::MAX, 1),
    ];
    for (bot_id, text, start, len, id) in cases {
        let request = GMMessenger::new(bot_id.to_string(), "u".to_string())
            .send_message_with_mention(text.to_string(), start, len, id);
        assert_eq!(request.body, expected_body(bot_id, text, start, len, id));
    }
}

#[test]
fn body_parses_back_to_the_message() {
    let text = "line one\nline \"two\"";
    let request = messenger().send_message_with_mention(text.to_string(), 3, 5, 77);
    let parsed: Value = serde_json::from_str(&request.body).unwrap();
    assert_eq!(parsed.get("bot_id").and_then(Value::as_str), Some("bot-123"));
    assert_eq!(parsed.get("text").and_then(Value::as_str), Some(text));
    let attachments = parsed.get("attachments").and_then(Value::as_array).unwrap();
    assert_eq!(attachments.len(), 1);
    let attachment = &attachments[0];
    assert_eq!(attachment.get("type").and_then(Value::as_str), Some("mentions"));
    let user_ids = attachment.get("user_ids").and_then(Value::as_array).unwrap();
    assert_eq!(user_ids.len(), 1);
    assert_eq!(user_ids[0].as_u64(), Some(77));
    let loci = attachment.get("loci").and_then(Value::as_array).unwrap();
    assert_eq!(loci.len(), 1);
    let span = loci[0].as_array().unwrap();
    assert_eq!(span.len(), 2);
    assert_eq!(span[0].as_u64(), Some(3));
    assert_eq!(span[1].as_u64(), Some(5));
}

#[test]
fn text_is_quoted_and_escaped() {
    let request = messenger().send_message_with_mention("a\"b".to_string(), 0, 1, 1);
    assert!(request.body.ends_with(",\"text\":\"a\\\"b\"}"));
    assert!(!request.body.contains("a\"b"));
}

#[test]
fn deliver_sends_the_message() {
    let message = OutboundMessage {
        text: "Hello, Al!".to_string(),
        mention_start: 7,
        mention_len: 2,
        mention_id: 42,
    };
    let m = messenger();
    assert_eq!(m.deliver(&message), m.send_message_with_mention("Hello, Al!".to_string(), 7, 2, 42));
}

#[test]
fn body_is_composed_around_the_literals() {
    assert_eq!(
        compose_body("\"b\"", "\"t\"", 18, 3, 900),
        "{\"attachments\":[{\"loci\":[[18,3]],\"type\":\"mentions\",\"user_ids\":[900]}],\"bot_id\":\"b\",\"text\":\"t\"}"
    );
    assert_eq!(
        compose_body("", "", 0, 0, 0),
        "{\"attachments\":[{\"loci\":[[0,0]],\"type\":\"mentions\",\"user_ids\":[0]}],\"bot_id\":,\"text\":}"
    );
}

#[test]
fn plain_text_is_posted_between_quotes() {
    let text = "It's Zo\u{eb}'s birthday today! \u{1f382} \u{7f}~ /";
    let request = GMMessenger::new("bot 1".to_string(), "u".to_string())
        .send_message_with_mention(text.to_string(), 5, 4, 3);
    assert_eq!(request.body, compose_body("\"bot 1\"", &format!("\"{}\"", text), 5, 4, 3));
}

#[test]
fn text_that_is_not_plain_is_escaped_between_quotes() {
    for text in ["\"", "\\", "\n", "\u{0}", "\u{1f}", "a\tb"] {
        let request = GMMessenger::new("b".to_string(), "u".to_string())
            .send_message_with_mention(text.to_string(), 0, 0, 0);
        let literal = request
            .body
            .strip_prefix("{\"attachments\":[{\"loci\":[[0,0]],\"type\":\"mentions\",\"user_ids\":[0]}],\"bot_id\":\"b\",\"text\":")
            .and_then(|rest| rest.strip_suffix("}"))
            .unwrap();
        assert!(literal.len() > text.len() + 2, "{:?}", literal);
        assert!(literal.starts_with('"') && literal.ends_with('"'), "{:?}", literal);
        assert_ne!(literal, format!("\"{}\"", text));
        assert_eq!(serde_json::from_str::<String>(literal).unwrap(), text);
    }
}

fn written(c: char) -> String {
    match c {
        '"' => "\\\"".to_string(),
        '\\' => "\\\\".to_string(),
        '\u{8}' => "\\b".to_string(),
        '\t' => "\\t".to_string(),
        '\n' => "\\n".to_string(),
        '\u{c}' => "\\f".to_string(),
        '\r' => "\\r".to_string(),
        c if (c as u32) < 0x20 => format!("\\u00{:x}{:x}", c as u32 / 16, c as u32 % 16),
        c => c.to_string(),
    }
}

fn posted_text_literal(text: &str) -> String {
    let request = GMMessenger::new("b".to_string(), "u".to_string())
        .send_message_with_mention(text.to_string(), 0, 0, 0);
    request
        .body
        .strip_prefix("{\"attachments\":[{\"loci\":[[0,0]],\"type\":\"mentions\",\"user_ids\":[0]}],\"bot_id\":\"b\",\"text\":")
        .and_then(|rest| rest.strip_suffix("}"))
        .unwrap()
        .to_string()
}

#[test]
fn every_character_is_written_as_the_escape_rule_says() {
    let codes = (0u32..0x3000).chain([0xd7ff, 0xe000, 0xfffd, 0xffff, 0x1_0000, 0x1_f382, 0x10_ffff]);
    for code in codes {
        let c = char::from_u32(code).unwrap();
        let text = format!("a{}b", c);
        assert_eq!(posted_text_literal(&text), format!("\"a{}b\"", written(c)), "U+{:04X}", code);
    }
}

#[test]
fn control_characters_are_written_in_lower_case_hexadecimal() {
    assert_eq!(posted_text_literal("\u{0}"), "\"\\u0000\"");
    assert_eq!(posted_text_literal("\u{b}"), "\"\\u000b\"");
    assert_eq!(posted_text_literal("\u{1f}"), "\"\\u001f\"");
    assert_eq!(posted_text_literal("\u{1a}\u{7}"), "\"\\u001a\\u0007\"");
    assert_eq!(posted_text_literal("\u{7f}"), "\"\u{7f}\"");
}

#[test]
fn line_break_of_the_confirmation_is_written_as_an_escape() {
    assert_eq!(
        posted_text_literal("Your birthday is registered as June 15th!\nIf that isn't right"),
        "\"Your birthday is registered as June 15th!\\nIf that isn't right\""
    );
    assert_eq!(posted_text_literal(""), "\"\"");
    assert_eq!(posted_text_literal("\"\\\u{8}\t\n\u{c}\r"), "\"\\\"\\\\\\b\\t\\n\\f\\r\"");
}
