//! Text in and out of the feed: reading a post's text from the bytes the
//! store returns, shaping a generated answer into a reply, and the addresses
//! under which the bot writes.

use vstd::prelude::*;

verus! {

/// Most characters that a published reply may hold.
pub const REPLY_CAP: usize = 1000;

/// The text of the post that `b` encodes as JSON, if it encodes one.
pub uninterp spec fn post_content_of(b: Seq<u8>) -> Option<Seq<char>>;

/// The text that `b` spells as UTF-8, if it is valid UTF-8.
pub uninterp spec fn utf8_text_of(b: Seq<u8>) -> Option<Seq<char>>;

/// The JSON of a short post with text `content` that answers `parent`.
pub uninterp spec fn reply_json_of(content: Seq<char>, parent: Seq<char>) -> Seq<u8>;

/// Relies on `serde_json::from_slice` into `pubky_app_specs::PubkyAppPost`:
/// the post's text when the bytes decode as a post, nothing otherwise.
#[verifier::external_body]
fn decode_post_content(b: &Vec<u8>) -> (r: Option<String>)
    ensures
        match r {
            Some(s) => post_content_of(b@) == Some(s@),
            None => post_content_of(b@) is None,
        },
{
    serde_json::from_slice::<pubky_app_specs::PubkyAppPost>(b).ok().map(|p| p.content)
}

/// Relies on `String::from_utf8`: the text when the bytes are valid UTF-8.
#[verifier::external_body]
fn decode_utf8(b: &Vec<u8>) -> (r: Option<String>)
    ensures
        match r {
            Some(s) => utf8_text_of(b@) == Some(s@),
            None => utf8_text_of(b@) is None,
        },
{
    String::from_utf8(b.clone()).ok()
}

/// Relies on `serde_json::to_vec` of a `pubky_app_specs::PubkyAppPost` of
/// kind `Short` with the given text and parent, and no embed or attachments.
/// `to_vec` fails only on a map with non-string keys or a `Serialize` impl
/// that fails; the post's derived impl over strings and unit variants does
/// neither, so the empty fallback is never taken.
#[verifier::external_body]
fn encode_reply_post(content: &String, parent: &String) -> (r: Vec<u8>)
    ensures
        r@ == reply_json_of(content@, parent@),
{
    let post = pubky_app_specs::PubkyAppPost {
        content: content.clone(),
        kind: pubky_app_specs::PubkyAppPostKind::Short,
        parent: Some(parent.clone()),
        embed: None,
        attachments: None,
    };
    serde_json::to_vec(&post).unwrap_or_default()
}

/// Why the text of a post could not be read.
#[derive(Debug, Clone, Copy, PartialEq, Eq, Structural)]
pub enum ContentError {
    /// The bytes are neither a post record nor UTF-8 text.
    Undecodable,
}

/// The text that the stored bytes `b` of a post stand for: nothing for an
/// empty body, else the post record's text, else the bytes read as UTF-8.
pub open spec fn resolved_text(b: Seq<u8>) -> Option<Seq<char>> {
    if b.len() == 0 {
        Some(Seq::empty())
    } else {
        match post_content_of(b) {
            Some(c) => Some(c),
            None => utf8_text_of(b),
        }
    }
}

/// The first of two decodings that succeeded: the post record's text, else
/// the plain text.
pub fn first_decoded(post: Option<String>, text: Option<String>) -> (r: Result<String, ContentError>)
    ensures
        r == match post {
            Some(p) => Ok(p),
            None => match text {
                Some(t) => Ok(t),
                None => Err(ContentError::Undecodable),
            },
        },
{
    match post {
        Some(p) => Ok(p),
        None => match text {
            Some(t) => Ok(t),
            None => Err(ContentError::Undecodable),
        },
    }
}

/// Reads the text of a post from the bytes the store returned for it.
pub fn resolve_content(b: &Vec<u8>) -> (r: Result<String, ContentError>)
    ensures
        match r {
            Ok(s) => resolved_text(b@) == Some(s@),
            Err(_) => resolved_text(b@) is None,
        },
{
    if b.len() == 0 {
        return Ok(String::new());
    }
    let post = decode_post_content(b);
    let text = if post.is_none() {
        decode_utf8(b)
    } else {
        None
    };
    first_decoded(post, text)
}

/// A reply's text: `s` itself when it fits the cap, else its first
/// `REPLY_CAP` characters.
pub open spec fn capped(s: Seq<char>) -> Seq<char> {
    if s.len() <= REPLY_CAP {
        s
    } else {
        s.take(REPLY_CAP as int)
    }
}

/// Cuts a generated answer down to the reply cap.
pub fn cap_reply(raw: &String) -> (r: String)
    ensures
        r@ == capped(raw@),
        r@.len() <= REPLY_CAP,
        raw@.len() > REPLY_CAP ==> r@.len() == REPLY_CAP && r@ == raw@.take(REPLY_CAP as int),
{
    let s = raw.as_str();
    if s.unicode_len() <= REPLY_CAP {
        raw.clone()
    } else {
        let r = s.substring_char(0, REPLY_CAP).to_owned();
        assert(r@ =~= raw@.take(REPLY_CAP as int));
        r
    }
}

/// Whatever a generator returns, the reply made of it fits the cap, and a
/// too long answer is cut to exactly the cap, keeping its beginning.
pub proof fn lemma_reply_within_cap(raw: Seq<char>)
    ensures
        capped(raw).len() <= REPLY_CAP,
        raw.len() <= REPLY_CAP ==> capped(raw) == raw,
        raw.len() > REPLY_CAP ==> capped(raw).len() == REPLY_CAP && capped(raw) == raw.take(
            REPLY_CAP as int,
        ),
{
}

/// The reply to `parent` with the generated answer `raw`: its capped text and
/// the post record to store.
pub fn build_reply(raw: &String, parent: &String) -> (r: (String, Vec<u8>))
    ensures
        r.0@ == capped(raw@),
        r.1@ == reply_json_of(r.0@, parent@),
{
    let content = cap_reply(raw);
    let body = encode_reply_post(&content, parent);
    (content, body)
}

/// The address of post `id` in the space of `author`.
pub fn post_url(author: &str, id: &str) -> (r: String)
    ensures
        r@ == "pubky://"@ + author@ + "/pub/pubky.app/posts/"@ + id@,
{
    let mut r = "pubky://".to_owned();
    r.append(author);
    r.append("/pub/pubky.app/posts/");
    r.append(id);
    r
}

/// The address of the checkpoint record in the space of `author`.
pub fn checkpoint_url(author: &str) -> (r: String)
    ensures
        r@ == "pubky://"@ + author@ + "/pub/pubky.app/last_read"@,
{
    let mut r = "pubky://".to_owned();
    r.append(author);
    r.append("/pub/pubky.app/last_read");
    r
}

} // verus!
