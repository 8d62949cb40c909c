use vstd::prelude::*;
use vstd::string::*;

verus! {

#[verifier::external_type_specification]
#[verifier::external_body]
pub struct ExJsonError(serde_json::Error);

/// A lowercase hexadecimal digit for a value below sixteen.
pub open spec fn hex_digit(d: nat) -> char {
    if d < 10 {
        (('0' as u32) + d) as char
    } else {
        (('a' as u32) + (d - 10)) as char
    }
}

/// How one character stands inside a JSON string literal: a quote and a
/// backslash get a backslash; backspace, tab, line feed, form feed and
/// carriage return get their short escapes; the other characters below
/// 0x20 become `\u00XX` in lowercase hex; every other character is kept.
pub open spec fn json_escape(c: char) -> Seq<char> {
    let v = c as u32;
    if c == '"' {
        seq!['\\', '"']
    } else if c == '\\' {
        seq!['\\', '\\']
    } else if v == 0x08 {
        seq!['\\', 'b']
    } else if v == 0x09 {
        seq!['\\', 't']
    } else if v == 0x0A {
        seq!['\\', 'n']
    } else if v == 0x0C {
        seq!['\\', 'f']
    } else if v == 0x0D {
        seq!['\\', 'r']
    } else if v < 0x20 {
        seq!['\\', 'u', '0', '0', hex_digit((v / 16) as nat), hex_digit((v % 16) as nat)]
    } else {
        seq![c]
    }
}

/// The characters of a text, each escaped for a JSON string literal.
pub open spec fn json_escaped(s: Seq<char>) -> Seq<char>
    decreases s.len(),
{
    if s.len() == 0 {
        Seq::empty()
    } else {
        json_escaped(s.drop_last()) + json_escape(s.last())
    }
}

/// The JSON string literal that stands for a text: its escaped characters
/// between double quotes.
pub open spec fn json_string_of(s: Seq<char>) -> Seq<char> {
    seq!['"'] + json_escaped(s) + seq!['"']
}

/// Relies on serde_json::to_string on a `str`: it writes the text as a JSON
/// string literal (compact formatter, fixed escape table) into a `Vec`,
/// which cannot fail.
#[verifier::external_body]
fn encode_json_string(s: &str) -> (r: Result<String, serde_json::Error>)
    ensures
        r is Ok,
        r matches Ok(t) ==> t@ == json_string_of(s@),
{
    serde_json::to_string(s)
}

/// The webhook channel: an authenticated POST to a configured URL.
pub struct WebhookNotifier {
    url: String,
    secret: String,
}

/// The value of the `Authorization` header.
pub open spec fn bearer(secret: Seq<char>) -> Seq<char> {
    "Bearer "@ + secret
}

/// The value of the `Content-Type` header.
pub open spec fn json_content_type() -> Seq<char> {
    "application/json"@
}

/// The body `{"text":<message>}` once the message is encoded as JSON.
pub open spec fn text_body(encoded: Seq<char>) -> Seq<char> {
    "{\"text\":"@ + encoded + "}"@
}

/// An HTTP status in the success range.
pub open spec fn is_success_status(status: u16) -> bool {
    200 <= status <= 299
}

impl WebhookNotifier {
    pub closed spec fn spec_url(&self) -> Seq<char> {
        self.url@
    }

    pub closed spec fn spec_secret(&self) -> Seq<char> {
        self.secret@
    }

    pub fn new(url: String, secret: String) -> (r: WebhookNotifier)
        ensures
            r.spec_url() == url@,
            r.spec_secret() == secret@,
    {
        WebhookNotifier { url, secret }
    }

    pub fn url(&self) -> (r: &str)
        ensures
            r@ == self.spec_url(),
    {
        self.url.as_str()
    }

    pub fn secret(&self) -> (r: &str)
        ensures
            r@ == self.spec_secret(),
    {
        self.secret.as_str()
    }

    /// The `Authorization` header value: `Bearer <secret>`.
    pub fn authorization(&self) -> (r: String)
        ensures
            r@ == bearer(self.spec_secret()),
    {
        let mut r = String::from_str("Bearer ");
        r.append(self.secret.as_str());
        r
    }

    /// The JSON body `{"text":<message>}`, given the message already encoded
    /// as a JSON string literal.
    pub fn body_of_encoded(encoded: &str) -> (r: String)
        ensures
            r@ == text_body(encoded@),
    {
        let mut r = String::from_str("{\"text\":");
        r.append(encoded);
        r.append("}");
        r
    }

    /// The JSON body `{"text":<message>}` for a message.
    pub fn body(message: &str) -> (r: String)
        ensures
            r@ == text_body(json_string_of(message@)),
    {
        let encoded = encode_json_string(message);
        match encoded {
            Ok(t) => WebhookNotifier::body_of_encoded(t.as_str()),
            Err(_) => {
                proof {
                    assert(encoded is Ok);
                }
                String::new()
            },
        }
    }
}

} // verus!
