use sticker_bot::error::ErrorKind;
use sticker_bot::tagger::{
    candidate_text, extract_emojis, generate_emojis_from_image, tagging_endpoint,
    tagging_request, TaggerError, INSTRUCTION, MAX_TAGS, MIME_TYPE,
};

const GEAR: &str = "\u{2699}\u{fe0f}";

fn strings(tags: &[&str]) -> Vec<String> {
    tags.iter().map(|t| t.to_string()).collect()
}

#[test]
fn emoji_are_found_in_order() {
    assert_eq!(extract_emojis("\u{1f600}\u{1f603}"), strings(&["\u{1f600}", "\u{1f603}"]));
    assert_eq!(
        extract_emojis("a \u{1f680} to the \u{1f315}!"),
        strings(&["\u{1f680}", "\u{1f315}"])
    );
}

#[test]
fn selector_behind_an_emoji_is_swallowed() {
    // A heart with its selector is one tag, and the selector gives no tag of its own.
    assert_eq!(extract_emojis("\u{2764}\u{fe0f}\u{1f600}"), strings(&["\u{2764}\u{fe0f}", "\u{1f600}"]));
    // The text selector is swallowed as well; the tag is the emoji as the table writes it.
    assert_eq!(extract_emojis("\u{2764}\u{fe0e}"), strings(&["\u{2764}\u{fe0f}"]));
}

#[test]
fn emoji_is_written_as_the_table_writes_it() {
    // An unqualified smiling face comes out fully qualified.
    assert_eq!(extract_emojis("\u{263a}"), strings(&["\u{263a}\u{fe0f}"]));
    // One that needs no selector comes out as it went in.
    assert_eq!(extract_emojis("\u{1f680}"), strings(&["\u{1f680}"]));
}

#[test]
fn only_one_selector_is_swallowed() {
    assert_eq!(
        extract_emojis("\u{1f600}\u{fe0f}\u{fe0f}\u{1f603}"),
        strings(&["\u{1f600}", "\u{1f603}"])
    );
}

#[test]
fn text_without_emoji_gives_the_fallback() {
    assert_eq!(extract_emojis(""), strings(&[GEAR]));
    assert_eq!(extract_emojis("no emoji here, 123 #*"), strings(&[GEAR]));
    assert_eq!(extract_emojis("\u{fe0f}\u{fe0e}"), strings(&[GEAR]));
}

#[test]
fn scan_stops_at_twenty_tags() {
    assert_eq!(MAX_TAGS, 20);
    let many = "\u{1f600}".repeat(25);
    assert_eq!(extract_emojis(&many), vec!["\u{1f600}".to_string(); 20]);
    let exactly = "\u{1f600}x".repeat(20);
    assert_eq!(extract_emojis(&exactly).len(), 20);
    let below = "\u{1f600}".repeat(19);
    assert_eq!(extract_emojis(&below).len(), 19);
}

#[test]
fn tag_list_is_never_empty_and_never_over_twenty() {
    for text in ["", "x", "\u{1f600}", "\u{2764}\u{fe0f}", "\u{1f1e9}\u{1f1ea}"] {
        let tags = extract_emojis(text);
        assert!(1 <= tags.len() && tags.len() <= 20);
    }
    let long = "\u{1f680}\u{2764}".repeat(40);
    assert_eq!(extract_emojis(&long).len(), 20);
}

#[test]
fn emoji_of_several_scalar_values_is_read_value_by_value() {
    // A family joined by zero-width joiners: each member is an emoji by itself.
    assert_eq!(
        extract_emojis("\u{1f468}\u{200d}\u{1f469}\u{200d}\u{1f467}"),
        strings(&["\u{1f468}", "\u{1f469}", "\u{1f467}"])
    );
    // A flag is two regional indicators, neither of which is an emoji alone.
    assert_eq!(extract_emojis("\u{1f1e9}\u{1f1ea}"), strings(&[GEAR]));
}

#[test]
fn scanning_the_tags_again_gives_the_same_tags() {
    for text in [
        "",
        "plain",
        "\u{1f600}\u{1f603}",
        "\u{263a} and \u{2764}\u{fe0f} and \u{2699}",
        "\u{2764}\u{fe0e}\u{1f680}x\u{263a}\u{fe0f}\u{fe0f}",
    ] {
        let tags = extract_emojis(text);
        let again = extract_emojis(&tags.concat());
        assert_eq!(again, tags);
    }
    let crowded = "\u{263a}".repeat(30);
    let tags = extract_emojis(&crowded);
    assert_eq!(extract_emojis(&tags.concat()), tags);
}

fn reply_with(text: &str) -> String {
    let text = serde_json::Value::String(text.to_string());
    format!(r#"{{"candidates":[{{"content":{{"parts":[{{"text":{text}}}],"role":"model"}},"finishReason":"STOP"}}]}}"#)
}

#[test]
fn tags_of_a_reply() {
    assert_eq!(
        generate_emojis_from_image(&reply_with("\u{1f431}\u{1f408} \u{2764}\u{fe0f}\n")),
        Ok(strings(&["\u{1f431}", "\u{1f408}", "\u{2764}\u{fe0f}"]))
    );
}

#[test]
fn reply_without_the_text_gives_the_fallback() {
    assert_eq!(generate_emojis_from_image("{}"), Ok(strings(&[GEAR])));
    assert_eq!(generate_emojis_from_image("[]"), Ok(strings(&[GEAR])));
    assert_eq!(generate_emojis_from_image(r#"{"candidates":[]}"#), Ok(strings(&[GEAR])));
    assert_eq!(
        generate_emojis_from_image(r#"{"candidates":[{"content":{"parts":[{"text":17}]}}]}"#),
        Ok(strings(&[GEAR]))
    );
    assert_eq!(
        generate_emojis_from_image(r#"{"error":{"code":429,"message":"quota"}}"#),
        Ok(strings(&[GEAR]))
    );
    assert_eq!(generate_emojis_from_image(&reply_with("sorry, no")), Ok(strings(&[GEAR])));
}

#[test]
fn only_the_first_part_of_the_first_candidate_counts() {
    let reply = "{\"candidates\":[\
        {\"content\":{\"parts\":[{\"text\":\"\u{1f680}\"},{\"text\":\"\u{1f600}\"}]}},\
        {\"content\":{\"parts\":[{\"text\":\"\u{1f603}\"}]}}\
    ]}";
    assert_eq!(generate_emojis_from_image(reply), Ok(strings(&["\u{1f680}"])));
}

#[test]
fn reply_that_is_no_json_is_an_error() {
    assert_eq!(generate_emojis_from_image(""), Err(TaggerError::MalformedReply));
    assert_eq!(generate_emojis_from_image("<html>"), Err(TaggerError::MalformedReply));
    assert_eq!(generate_emojis_from_image("{\"candidates\":"), Err(TaggerError::MalformedReply));
    assert_eq!(TaggerError::MalformedReply.kind(), ErrorKind::ExternalService);
}

#[test]
fn text_of_a_parsed_reply() {
    let reply: serde_json::Value = serde_json::from_str(&reply_with("a \"b\" \u{1f600}")).unwrap();
    assert_eq!(candidate_text(&reply), "a \"b\" \u{1f600}");
    let other: serde_json::Value = serde_json::from_str(r#"{"candidates":{"0":{"content":1}}}"#).unwrap();
    assert_eq!(candidate_text(&other), "");
}

#[test]
fn request_holds_instruction_and_image() {
    let body = tagging_request(b"hello");
    assert_eq!(
        body,
        format!(
            "{{\"contents\":[{{\"parts\":[{{\"text\":\"{INSTRUCTION}\"}},{{\"inline_data\":{{\"mime_type\":\"image/png\",\"data\":\"aGVsbG8=\"}}}}]}}]}}"
        )
    );
    let parsed: serde_json::Value = serde_json::from_str(&body).unwrap();
    let parts = &parsed["contents"][0]["parts"];
    assert_eq!(parts[0]["text"].as_str(), Some(INSTRUCTION));
    assert_eq!(parts[1]["inline_data"]["mime_type"].as_str(), Some(MIME_TYPE));
    assert_eq!(parts[1]["inline_data"]["data"].as_str(), Some("aGVsbG8="));
    assert_eq!(parsed["contents"].as_array().map(|a| a.len()), Some(1));
    assert_eq!(parts.as_array().map(|a| a.len()), Some(2));
}

#[test]
fn request_for_other_images() {
    let empty: serde_json::Value = serde_json::from_str(&tagging_request(b"")).unwrap();
    assert_eq!(empty["contents"][0]["parts"][1]["inline_data"]["data"].as_str(), Some(""));
    let bytes: serde_json::Value = serde_json::from_str(&tagging_request(&[0xfb, 0xff, 0xfe, 0x00])).unwrap();
    assert_eq!(bytes["contents"][0]["parts"][1]["inline_data"]["data"].as_str(), Some("+//+AA=="));
}

#[test]
fn instruction_is_the_fixed_prompt() {
    assert_eq!(
        INSTRUCTION,
        "You will receive a PNG image. Output 1-20 fitting emojis only. Do not output any other symbols, delimiters, or text."
    );
}

#[test]
fn endpoint_carries_the_key() {
    assert_eq!(
        tagging_endpoint("k-123"),
        "https://generativelanguage.googleapis.com/v1beta/models/gemini-1.5-flash:generateContent?key=k-123"
    );
}
