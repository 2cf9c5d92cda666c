//! The emoji tagger: what is sent to the tagging service for an image, and how the
//! service's free-text reply becomes a list of one to twenty emoji tags.
//!
//! The caller waits for the [rate limiter](crate::limiter), reads the image, sends the
//! request and hands the reply over; nothing here touches the network.

use vstd::prelude::*;
use crate::error::ErrorKind;
use crate::json::{element, json_in_text, json_of, member, parse_text, text_of, Json};
use crate::text::{chars_of, push_char, string_texts};

verus! {

/// The most tags that one sticker carries.
pub const MAX_TAGS: usize = 20;

/// What the tagging service is told to do with the image.
pub const INSTRUCTION: &'static str =
    "You will receive a PNG image. Output 1-20 fitting emojis only. Do not output any other symbols, delimiters, or text.";

/// The kind of image that the request declares.
pub const MIME_TYPE: &'static str = "image/png";

/// The address of the tagging service's generation endpoint, up to the key.
pub const ENDPOINT: &'static str =
    "https://generativelanguage.googleapis.com/v1beta/models/gemini-1.5-flash:generateContent?key=";

/// A failure of the tagger.
#[derive(Debug, Clone, Copy, PartialEq, Eq, Structural)]
pub enum TaggerError {
    /// The service's reply is no JSON.
    MalformedReply,
}

impl TaggerError {
    /// The family of the failure: the service's.
    pub fn kind(&self) -> (kind: ErrorKind)
        ensures
            kind == ErrorKind::ExternalService,
    {
        ErrorKind::ExternalService
    }
}

// ---------------------------------------------------------------------------------------
// The request
// ---------------------------------------------------------------------------------------
/// The standard base64 text, with padding, of a run of bytes, as the `base64` crate's
/// `STANDARD` engine writes it.
pub uninterp spec fn base64_standard(data: Seq<u8>) -> Seq<char>;

/// Whether the base64 text of `len` bytes still has a length that the machine can count.
pub open spec fn encodable(len: nat) -> bool {
    4 * ((len + 2) / 3) <= usize::MAX
}

/// `Engine::encode` of the `base64` crate on its `STANDARD` engine: the base64 text of
/// the bytes. The crate panics where the text's length, four characters for every three
/// bytes begun, does not fit the machine's word; such inputs are left out.
#[verifier::external_body]
pub(crate) fn encode_base64(data: &[u8]) -> (encoded: String)
    requires
        encodable(data@.len()),
    ensures
        encoded@ == base64_standard(data@),
{
    base64::Engine::encode(&base64::engine::general_purpose::STANDARD, data)
}

/// The body of the request for an image: one content with two parts, the instruction and
/// the image inline as base64.
pub open spec fn request_body(image: Seq<u8>) -> Seq<char> {
    "{\"contents\":[{\"parts\":[{\"text\":\""@ + INSTRUCTION@
        + "\"},{\"inline_data\":{\"mime_type\":\""@ + MIME_TYPE@ + "\",\"data\":\""@
        + base64_standard(image) + "\"}}]}]}"@
}

/// The JSON text to send to the tagging service for an image.
pub fn tagging_request(image: &[u8]) -> (body: String)
    requires
        encodable(image@.len()),
    ensures
        body@ == request_body(image@),
{
    let encoded = encode_base64(image);
    let mut body = "{\"contents\":[{\"parts\":[{\"text\":\"".to_owned();
    body.append(INSTRUCTION);
    body.append("\"},{\"inline_data\":{\"mime_type\":\"");
    body.append(MIME_TYPE);
    body.append("\",\"data\":\"");
    body.append(encoded.as_str());
    body.append("\"}}]}]}");
    body
}

/// The address to send the request to, for the holder of `api_key`.
pub fn tagging_endpoint(api_key: &str) -> (address: String)
    ensures
        address@ == ENDPOINT@ + api_key@,
{
    let mut address = ENDPOINT.to_owned();
    address.append(api_key);
    address
}

// ---------------------------------------------------------------------------------------
// The reply
// ---------------------------------------------------------------------------------------
/// The text of the first part of the first candidate of a reply; the empty text where the
/// reply has no such field or the field is no text.
pub open spec fn reply_text(reply: Json) -> Seq<char> {
    let field = reply.member("candidates"@).element(0).member("content"@).member(
        "parts"@,
    ).element(0).member("text"@);
    match field.text() {
        Some(text) => text,
        None => Seq::empty(),
    }
}

/// The text that the service proposes in a reply that the parser has read.
pub fn candidate_text(reply: &serde_json::Value) -> (text: String)
    ensures
        text@ == reply_text(json_of(*reply)),
{
    let candidate = element(member(reply, "candidates"), 0);
    let part = element(member(member(candidate, "content"), "parts"), 0);
    match text_of(member(part, "text")) {
        Some(text) => text.to_owned(),
        None => String::new(),
    }
}

// ---------------------------------------------------------------------------------------
// The scanner
// ---------------------------------------------------------------------------------------
/// The emoji that a single scalar value is, written as `emojis::get` gives it (fully
/// qualified); nothing where the scalar value is no emoji.
pub uninterp spec fn emoji_glyph(c: char) -> Option<Seq<char>>;

/// `emojis::get` on the text of one scalar value, and `Emoji::as_str` on what it finds:
/// the emoji's own text, or nothing where the table has no such emoji.
#[verifier::external_body]
pub(crate) fn lookup_emoji(c: char) -> (glyph: Option<String>)
    ensures
        match glyph {
            Some(g) => emoji_glyph(c) == Some(g@),
            None => emoji_glyph(c) is None,
        },
{
    emojis::get(&c.to_string()).map(|emoji| emoji.as_str().to_owned())
}

/// The two variation selectors that may follow an emoji and are swallowed with it.
pub open spec fn is_selector(c: char) -> bool {
    c == '\u{fe0f}' || c == '\u{fe0e}'
}

/// The tag that stands in when a reply holds no emoji: a gear.
pub open spec fn fallback_glyph() -> Seq<char> {
    seq!['\u{2699}', '\u{fe0f}']
}

/// The emoji of a text, in order, `room` at most: every scalar value that is an emoji by
/// itself gives one, and a variation selector right behind it goes with it.
pub open spec fn scan(text: Seq<char>, room: nat) -> Seq<Seq<char>>
    decreases text.len(),
{
    if room == 0 || text.len() == 0 {
        Seq::empty()
    } else {
        match emoji_glyph(text[0]) {
            None => scan(text.skip(1), room),
            Some(glyph) => {
                let taken: int = if text.len() > 1 && is_selector(text[1]) {
                    2
                } else {
                    1
                };
                seq![glyph] + scan(text.skip(taken), (room - 1) as nat)
            },
        }
    }
}

/// The tags of a text: its first twenty emoji, or the fallback where it has none.
pub open spec fn emoji_tags(text: Seq<char>) -> Seq<Seq<char>> {
    let found = scan(text, MAX_TAGS as nat);
    if found.len() == 0 {
        seq![fallback_glyph()]
    } else {
        found
    }
}

/// The scanner never finds more than it has room for.
pub proof fn lemma_scan_bounded(text: Seq<char>, room: nat)
    ensures
        scan(text, room).len() <= room,
    decreases text.len(),
{
    if room > 0 && text.len() > 0 {
        match emoji_glyph(text[0]) {
            None => lemma_scan_bounded(text.skip(1), room),
            Some(_) => {
                let taken: int = if text.len() > 1 && is_selector(text[1]) {
                    2
                } else {
                    1
                };
                lemma_scan_bounded(text.skip(taken), (room - 1) as nat);
            },
        }
    }
}

/// A text without any emoji gives no tag to the scanner.
pub proof fn lemma_scan_without_emoji(text: Seq<char>, room: nat)
    requires
        forall|i: int| 0 <= i < text.len() ==> emoji_glyph(#[trigger] text[i]) is None,
    ensures
        scan(text, room).len() == 0,
    decreases text.len(),
{
    if room > 0 && text.len() > 0 {
        assert forall|i: int| 0 <= i < text.skip(1).len() implies emoji_glyph(
            #[trigger] text.skip(1)[i],
        ) is None by {}
        lemma_scan_without_emoji(text.skip(1), room);
    }
}

/// A tag list holds between one and twenty tags, and a text without any emoji gives
/// exactly the fallback.
pub proof fn lemma_tag_count(text: Seq<char>)
    ensures
        1 <= emoji_tags(text).len() <= MAX_TAGS,
        (forall|i: int| 0 <= i < text.len() ==> emoji_glyph(#[trigger] text[i]) is None)
            ==> emoji_tags(text) == seq![fallback_glyph()],
{
    lemma_scan_bounded(text, MAX_TAGS as nat);
    if forall|i: int| 0 <= i < text.len() ==> emoji_glyph(#[trigger] text[i]) is None {
        lemma_scan_without_emoji(text, MAX_TAGS as nat);
    }
}

/// The characters of a run of tags, one tag after the other.
pub open spec fn glyphs(tags: Seq<Seq<char>>) -> Seq<char>
    decreases tags.len(),
{
    if tags.len() == 0 {
        Seq::empty()
    } else {
        tags[0] + glyphs(tags.skip(1))
    }
}

/// A tag that the emoji table gives for its own first scalar value: that value alone or
/// with one variation selector behind it, and itself no selector.
pub open spec fn stable_glyph(glyph: Seq<char>) -> bool {
    &&& glyph.len() == 1 || (glyph.len() == 2 && is_selector(glyph[1]))
    &&& !is_selector(glyph[0])
    &&& emoji_glyph(glyph[0]) == Some(glyph)
}

/// The tag lists that can be scanned again: every tag is one that the emoji table gives
/// for its own first scalar value; or the list is the fallback alone and the table knows
/// neither the gear nor the selector behind it.
pub open spec fn rescannable(tags: Seq<Seq<char>>) -> bool {
    ||| forall|i: int| 0 <= i < tags.len() ==> stable_glyph(#[trigger] tags[i])
    ||| (tags == seq![fallback_glyph()] && emoji_glyph('\u{2699}') is None && emoji_glyph(
        '\u{fe0f}',
    ) is None)
}

/// Scanning the characters of stable tags finds just these tags, as long as there is room
/// for all of them.
pub proof fn lemma_scan_of_glyphs(tags: Seq<Seq<char>>, room: nat)
    requires
        tags.len() <= room,
        forall|i: int| 0 <= i < tags.len() ==> stable_glyph(#[trigger] tags[i]),
    ensures
        scan(glyphs(tags), room) == tags,
    decreases tags.len(),
{
    if tags.len() > 0 {
        let first = tags[0];
        let rest = tags.skip(1);
        let text = glyphs(tags);
        assert forall|i: int| 0 <= i < rest.len() implies stable_glyph(#[trigger] rest[i]) by {}
        lemma_scan_of_glyphs(rest, (room - 1) as nat);
        if first.len() == 2 {
            assert(text.skip(2) =~= glyphs(rest));
        } else {
            // What follows a tag of one scalar value is the next tag, which begins with
            // no selector.
            assert(text.len() > 1 ==> rest.len() > 0);
            assert(text.skip(1) =~= glyphs(rest));
        }
    }
}

/// Scanning is idempotent on its output: the characters of a tag list, scanned again,
/// give the same tag list. This holds of every tag list that can be scanned again, which
/// is every one that the emoji table can give as long as the table writes each emoji as
/// its own scalar value, with or without a selector.
pub proof fn lemma_rescan_is_identity(text: Seq<char>)
    requires
        rescannable(emoji_tags(text)),
    ensures
        emoji_tags(glyphs(emoji_tags(text))) == emoji_tags(text),
{
    let tags = emoji_tags(text);
    lemma_tag_count(text);
    if forall|i: int| 0 <= i < tags.len() ==> stable_glyph(#[trigger] tags[i]) {
        lemma_scan_of_glyphs(tags, MAX_TAGS as nat);
    } else {
        let again = glyphs(tags);
        assert(glyphs(tags.skip(1)) =~= Seq::<char>::empty());
        assert(scan(again.skip(1).skip(1), MAX_TAGS as nat).len() == 0);
        assert(scan(again.skip(1), MAX_TAGS as nat).len() == 0);
    }
}

/// The fallback tag.
fn fallback() -> (glyph: String)
    ensures
        glyph@ == fallback_glyph(),
{
    let mut glyph = String::new();
    push_char(&mut glyph, '\u{2699}');
    push_char(&mut glyph, '\u{fe0f}');
    glyph
}

/// Reads the emoji tags out of a text.
///
/// Every scalar value of the text that is an emoji by itself becomes one tag, written as
/// the emoji table writes it; a variation selector right behind it is swallowed. The scan
/// stops at twenty tags. A text without any emoji gives the one fallback tag.
pub fn extract_emojis(text: &str) -> (tags: Vec<String>)
    ensures
        string_texts(tags@) == emoji_tags(text@),
        1 <= tags.len() <= MAX_TAGS,
{
    let chars = chars_of(text);
    let mut tags: Vec<String> = Vec::new();
    let mut i: usize = 0;
    assert(chars@.skip(0) =~= chars@);
    while i < chars.len() && tags.len() < MAX_TAGS
        invariant
            i <= chars.len(),
            tags.len() <= MAX_TAGS,
            scan(chars@, MAX_TAGS as nat) == string_texts(tags@) + scan(
                chars@.skip(i as int),
                (MAX_TAGS - tags.len()) as nat,
            ),
        decreases chars.len() - i,
    {
        let ghost rest = chars@.skip(i as int);
        match lookup_emoji(chars[i]) {
            None => {
                assert(rest.skip(1) =~= chars@.skip(i + 1));
                i += 1;
            },
            Some(glyph) => {
                if i + 1 < chars.len() && (chars[i + 1] == '\u{fe0f}' || chars[i + 1]
                    == '\u{fe0e}') {
                    assert(rest.skip(2) =~= chars@.skip(i + 2));
                    i += 2;
                } else {
                    assert(rest.skip(1) =~= chars@.skip(i + 1));
                    i += 1;
                }
                tags.push(glyph);
            },
        }
    }
    if tags.len() == 0 {
        tags.push(fallback());
    }
    tags
}

/// The tags that a reply of the tagging service proposes.
///
/// A reply that is no JSON is an error. A reply without the expected text, or with a text
/// that holds no emoji, gives the fallback tag.
pub fn generate_emojis_from_image(reply: &str) -> (tags: Result<Vec<String>, TaggerError>)
    ensures
        match tags {
            Ok(list) => json_in_text(reply@) is Some && string_texts(list@) == emoji_tags(
                reply_text(json_in_text(reply@)->0),
            ) && 1 <= list.len() <= MAX_TAGS,
            Err(e) => json_in_text(reply@) is None && e == TaggerError::MalformedReply,
        },
{
    match parse_text(reply) {
        Err(_) => Err(TaggerError::MalformedReply),
        Ok(document) => {
            let text = candidate_text(&document);
            Ok(extract_emojis(text.as_str()))
        },
    }
}

} // verus!
