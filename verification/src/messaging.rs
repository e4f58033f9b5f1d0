//! Outbound chat messages: a text with one mention, and the request that
//! delivers it to the chat webhook.

use crate::text::{decimal_string, decimal_text};
use vstd::prelude::*;
use vstd::string::*;
use vstd::utf8::{encode_scalar, encode_utf8};

verus! {

/// A chat message that mentions one user. The mention highlights the bytes
/// `mention_start .. mention_start + mention_len` of the UTF-8 text.
#[derive(Debug, PartialEq, Eq)]
pub struct OutboundMessage {
    pub text: String,
    pub mention_start: usize,
    pub mention_len: usize,
    pub mention_id: u64,
}

pub struct OutboundMessageView {
    pub text: Seq<char>,
    pub mention_start: nat,
    pub mention_len: nat,
    pub mention_id: nat,
}

impl View for OutboundMessage {
    type V = OutboundMessageView;

    open spec fn view(&self) -> OutboundMessageView {
        OutboundMessageView {
            text: self.text@,
            mention_start: self.mention_start as nat,
            mention_len: self.mention_len as nat,
            mention_id: self.mention_id as nat,
        }
    }
}

impl OutboundMessageView {
    /// The mention lies within the text and highlights exactly the bytes of
    /// `target`.
    pub open spec fn highlights(self, target: Seq<char>) -> bool {
        let bytes = encode_utf8(self.text);
        &&& self.mention_start + self.mention_len <= bytes.len()
        &&& bytes.subrange(
            self.mention_start as int,
            (self.mention_start + self.mention_len) as int,
        ) == encode_utf8(target)
    }
}

/// The UTF-8 bytes of a concatenation are the bytes of its parts, in order.
pub proof fn lemma_encode_utf8_concat(a: Seq<char>, b: Seq<char>)
    ensures
        encode_utf8(a + b) == encode_utf8(a) + encode_utf8(b),
    decreases a.len(),
{
    if a.len() == 0 {
        assert(a + b =~= b);
        assert(encode_utf8(a) + encode_utf8(b) =~= encode_utf8(b));
    } else {
        lemma_encode_utf8_concat(a.drop_first(), b);
        assert((a + b).drop_first() =~= a.drop_first() + b);
        assert(encode_utf8(a + b) =~= encode_scalar(a[0] as u32) + (encode_utf8(a.drop_first())
            + encode_utf8(b)));
        assert(encode_utf8(a) + encode_utf8(b) =~= encode_scalar(a[0] as u32) + (encode_utf8(
            a.drop_first(),
        ) + encode_utf8(b)));
    }
}

/// A mention that starts where `before` ends and is as long as `target`
/// highlights `target` in the text `before + target + after`.
pub proof fn lemma_highlights(message: OutboundMessageView, before: Seq<char>, target: Seq<char>, after: Seq<char>)
    requires
        message.text == before + target + after,
        message.mention_start == encode_utf8(before).len(),
        message.mention_len == encode_utf8(target).len(),
    ensures
        message.highlights(target),
{
    lemma_encode_utf8_concat(before + target, after);
    lemma_encode_utf8_concat(before, target);
    let bytes = encode_utf8(message.text);
    assert(bytes == encode_utf8(before) + encode_utf8(target) + encode_utf8(after));
    assert(bytes.subrange(
        message.mention_start as int,
        (message.mention_start + message.mention_len) as int,
    ) =~= encode_utf8(target));
}

/// The lower-case hexadecimal digit of `n`, a number below 16.
pub open spec fn hex_digit(n: nat) -> char {
    if n < 10 {
        (('0' as u32) + n) as char
    } else {
        (('a' as u32) + n - 10) as char
    }
}

/// How a JSON string literal writes the character `c`: a double quote and a
/// backslash behind a backslash; backspace, tab, line feed, form feed and
/// carriage return as `\b`, `\t`, `\n`, `\f` and `\r`; any other character
/// below U+0020 as `\u00` and its two hexadecimal digits; and every other
/// character as it is.
pub open spec fn json_escape(c: char) -> Seq<char> {
    if c == '"' {
        seq!['\\', '"']
    } else if c == '\\' {
        seq!['\\', '\\']
    } else if c == '\u{8}' {
        seq!['\\', 'b']
    } else if c == '\t' {
        seq!['\\', 't']
    } else if c == '\n' {
        seq!['\\', 'n']
    } else if c == '\u{c}' {
        seq!['\\', 'f']
    } else if c == '\r' {
        seq!['\\', 'r']
    } else if (c as u32) < 0x20 {
        seq![
            '\\',
            'u',
            '0',
            '0',
            hex_digit((c as u32 / 16) as nat),
            hex_digit((c as u32 % 16) as nat),
        ]
    } else {
        seq![c]
    }
}

/// The characters of `s`, each as a JSON string literal writes it.
pub open spec fn json_escaped(s: Seq<char>) -> Seq<char>
    decreases s.len(),
{
    if s.len() == 0 {
        Seq::empty()
    } else {
        json_escaped(s.drop_last()) + json_escape(s.last())
    }
}

/// `s` between two double quotes.
pub open spec fn in_quotes(s: Seq<char>) -> Seq<char> {
    seq!['"'] + s + seq!['"']
}

/// The JSON string literal that writes `s`: its characters, escaped where
/// JSON asks for it, between double quotes.
pub open spec fn json_quoted(s: Seq<char>) -> Seq<char> {
    in_quotes(json_escaped(s))
}

/// Text that a JSON string literal holds as it is: it has no double quote,
/// no backslash and no control character below U+0020.
pub open spec fn is_plain_text(s: Seq<char>) -> bool {
    forall|i: int|
        0 <= i < s.len() ==> {
            &&& (#[trigger] s[i]) != '"'
            &&& s[i] != '\\'
            &&& s[i] as u32 >= 0x20
        }
}

/// Plain text is written as it is, between double quotes: what is posted of
/// it reads back as the text.
pub proof fn lemma_plain_text_is_quoted_as_it_is(s: Seq<char>)
    requires
        is_plain_text(s),
    ensures
        json_escaped(s) == s,
        json_quoted(s) == in_quotes(s),
    decreases s.len(),
{
    if s.len() > 0 {
        assert(is_plain_text(s.drop_last())) by {
            assert forall|i: int| 0 <= i < s.drop_last().len() implies {
                &&& (#[trigger] s.drop_last()[i]) != '"'
                &&& s.drop_last()[i] != '\\'
                &&& s.drop_last()[i] as u32 >= 0x20
            } by {
                assert(s.drop_last()[i] == s[i]);
            }
        }
        lemma_plain_text_is_quoted_as_it_is(s.drop_last());
        assert(json_escape(s.last()) == seq![s.last()]);
        assert(s.drop_last() + seq![s.last()] =~= s);
    } else {
        assert(json_escaped(s) =~= s);
    }
}

/// Writes `s` as a JSON string literal. The call is `to_string` on the
/// `serde_json::Value::String` that holds `s`, which serialises it in compact
/// form. The contract claims what the serialiser's string writer and its
/// escape table show: a double quote before and after, and between them
/// each character of `s` as `json_escape` says.
#[verifier::external_body]
fn json_quote(s: &str) -> (quoted: String)
    ensures
        quoted@ == json_quoted(s@),
{
    serde_json::Value::String(s.to_owned()).to_string()
}

/// The body of the request that posts a message, from the two string
/// literals that it holds: a JSON object with the keys `attachments`,
/// `bot_id` and `text`. The one attachment is of type `mentions` and holds
/// the mentioned user and the span of the mention.
pub open spec fn body_text(
    bot_id_literal: Seq<char>,
    text_literal: Seq<char>,
    mention_start: nat,
    mention_len: nat,
    mention_id: nat,
) -> Seq<char> {
    "{\"attachments\":[{\"loci\":[["@ + decimal_text(mention_start) + ","@ + decimal_text(
        mention_len,
    ) + "]],\"type\":\"mentions\",\"user_ids\":["@ + decimal_text(mention_id)
        + "]}],\"bot_id\":"@ + bot_id_literal + ",\"text\":"@ + text_literal + "}"@
}

/// The body of the request that posts the text `text` as the bot `bot_id`.
pub open spec fn mention_body(
    bot_id: Seq<char>,
    text: Seq<char>,
    mention_start: nat,
    mention_len: nat,
    mention_id: nat,
) -> Seq<char> {
    body_text(json_quoted(bot_id), json_quoted(text), mention_start, mention_len, mention_id)
}

/// Writes the body of a request around the JSON string literals of the bot's
/// id and of the text.
pub fn compose_body(
    bot_id_literal: &str,
    text_literal: &str,
    mention_start: usize,
    mention_len: usize,
    mention_id: u64,
) -> (body: String)
    ensures
        body@ == body_text(
            bot_id_literal@,
            text_literal@,
            mention_start as nat,
            mention_len as nat,
            mention_id as nat,
        ),
{
    let mut body = String::from_str("{\"attachments\":[{\"loci\":[[");
    body.append(decimal_string(mention_start as u64).as_str());
    body.append(",");
    body.append(decimal_string(mention_len as u64).as_str());
    body.append("]],\"type\":\"mentions\",\"user_ids\":[");
    body.append(decimal_string(mention_id).as_str());
    body.append("]}],\"bot_id\":");
    body.append(bot_id_literal);
    body.append(",\"text\":");
    body.append(text_literal);
    body.append("}");
    body
}

/// A request to the chat webhook: the body is to be posted to the URL.
#[derive(Debug, PartialEq, Eq)]
pub struct PostRequest {
    pub url: String,
    pub body: String,
}

/// What is needed to post as the bot: its id and the URL of the webhook.
#[derive(Debug, PartialEq, Eq)]
pub struct GMMessenger {
    pub bot_id: String,
    pub post_url: String,
}

impl GMMessenger {
    pub fn new(bot_id: String, post_url: String) -> (messenger: GMMessenger)
        ensures
            messenger.bot_id@ == bot_id@,
            messenger.post_url@ == post_url@,
    {
        GMMessenger { bot_id, post_url }
    }

    /// The request that sends `msg_text` with one mention of the user
    /// `men_id`, which highlights `men_loci_len` bytes from
    /// `men_loci_start_pos` on. Plain text is posted as it is, between
    /// double quotes.
    pub fn send_message_with_mention(
        &self,
        msg_text: String,
        men_loci_start_pos: usize,
        men_loci_len: usize,
        men_id: u64,
    ) -> (request: PostRequest)
        ensures
            request.url@ == self.post_url@,
            request.body@ == mention_body(
                self.bot_id@,
                msg_text@,
                men_loci_start_pos as nat,
                men_loci_len as nat,
                men_id as nat,
            ),
            is_plain_text(self.bot_id@) && is_plain_text(msg_text@) ==> request.body@
                == body_text(
                in_quotes(self.bot_id@),
                in_quotes(msg_text@),
                men_loci_start_pos as nat,
                men_loci_len as nat,
                men_id as nat,
            ),
    {
        proof {
            if is_plain_text(self.bot_id@) && is_plain_text(msg_text@) {
                lemma_plain_text_is_quoted_as_it_is(self.bot_id@);
                lemma_plain_text_is_quoted_as_it_is(msg_text@);
            }
        }
        let body = compose_body(
            json_quote(self.bot_id.as_str()).as_str(),
            json_quote(msg_text.as_str()).as_str(),
            men_loci_start_pos,
            men_loci_len,
            men_id,
        );
        PostRequest { url: self.post_url.clone(), body }
    }

    /// The request that delivers `message`.
    pub fn deliver(&self, message: &OutboundMessage) -> (request: PostRequest)
        ensures
            request.url@ == self.post_url@,
            request.body@ == mention_body(
                self.bot_id@,
                message@.text,
                message@.mention_start,
                message@.mention_len,
                message@.mention_id,
            ),
            is_plain_text(self.bot_id@) && is_plain_text(message@.text) ==> request.body@
                == body_text(
                in_quotes(self.bot_id@),
                in_quotes(message@.text),
                message@.mention_start,
                message@.mention_len,
                message@.mention_id,
            ),
    {
        self.send_message_with_mention(
            message.text.clone(),
            message.mention_start,
            message.mention_len,
            message.mention_id,
        )
    }
}

} // verus!
