//! The HTTP requests the helper sends to a vCenter.

use crate::config::{VcenterEntry, VcenterEntryView};
use crate::text;
use vstd::prelude::*;
use vstd::string::StringExecFns;

verus! {

/// How long a logout may take, in seconds.
pub const LOGOUT_TIMEOUT: u64 = 5;

/// How long connecting to a vCenter may take, in seconds.
pub const CONNECT_TIMEOUT: u64 = 10;

/// How long a request to a vCenter may take, in seconds.
pub const REQUEST_TIMEOUT: u64 = 120;

/// The methods the helper uses.
#[derive(Clone, Copy, Debug, PartialEq, Eq, Structural)]
pub enum HttpMethod {
    Get,
    Post,
    Delete,
}

/// A request to a vCenter.
#[derive(Debug)]
pub struct HttpRequest {
    pub method: HttpMethod,
    pub url: String,
    /// Names and values, in the order in which they are sent.
    pub headers: Vec<(String, String)>,
    /// User and password for basic authentication.
    pub basic_auth: Option<(String, String)>,
    pub body: Option<String>,
    /// In seconds, where it is not that of the client.
    pub timeout: Option<u64>,
}

/// What an [`HttpRequest`] says.
#[verifier::ext_equal]
pub struct HttpRequestView {
    pub method: HttpMethod,
    pub url: Seq<char>,
    pub headers: Seq<(Seq<char>, Seq<char>)>,
    pub basic_auth: Option<(Seq<char>, Seq<char>)>,
    pub body: Option<Seq<char>>,
    pub timeout: Option<u64>,
}

/// What a list of headers says.
pub open spec fn headers_view(headers: Seq<(String, String)>) -> Seq<(Seq<char>, Seq<char>)> {
    headers.map_values(|h: (String, String)| (h.0@, h.1@))
}

impl View for HttpRequest {
    type V = HttpRequestView;

    open spec fn view(&self) -> HttpRequestView {
        HttpRequestView {
            method: self.method,
            url: self.url@,
            headers: headers_view(self.headers@),
            basic_auth: match self.basic_auth {
                Some((user, password)) => Some((user@, password@)),
                None => None,
            },
            body: text::option_view(self.body),
            timeout: self.timeout,
        }
    }
}

/// `c` as it is written inside an XML element or attribute.
pub open spec fn escaped_char(c: char) -> Seq<char> {
    if c == '&' {
        "&amp;"@
    } else if c == '<' {
        "&lt;"@
    } else if c == '>' {
        "&gt;"@
    } else if c == '"' {
        "&quot;"@
    } else if c == '\'' {
        "&apos;"@
    } else {
        seq![c]
    }
}

/// `text` as it is written inside an XML element or attribute.
pub open spec fn escaped(text: Seq<char>) -> Seq<char>
    decreases text.len(),
{
    if text.len() == 0 {
        seq![]
    } else {
        escaped(text.drop_last()) + escaped_char(text.last())
    }
}

/// Escape text interpolated into a SOAP envelope. A password containing `&` or `<`
/// would otherwise produce malformed XML that looks like a bad login.
pub fn xml_escape(s: &str) -> (out: String)
    ensures
        out@ == escaped(s@),
{
    let mut out = String::new();
    for c in iter: s.chars()
        invariant
            iter.seq() == s@,
            out@ == escaped(s@.take(iter.index())),
    {
        let ghost seen = s@.take(iter.index());
        proof {
            assert(s@.take(iter.index() + 1).drop_last() == seen);
        }
        match c {
            '&' => out.append("&amp;"),
            '<' => out.append("&lt;"),
            '>' => out.append("&gt;"),
            '"' => out.append("&quot;"),
            '\'' => out.append("&apos;"),
            _ => out.push(c),
        }
        assert(out@ == escaped(seen) + escaped_char(c));
    }
    assert(s@.take(s@.len() as int) == s@);
    out
}

/// The names of the five characters that XML gives a meaning.
pub proof fn lemma_entities()
    ensures
        "&amp;"@ == seq!['&', 'a', 'm', 'p', ';'],
        "&lt;"@ == seq!['&', 'l', 't', ';'],
        "&gt;"@ == seq!['&', 'g', 't', ';'],
        "&quot;"@ == seq!['&', 'q', 'u', 'o', 't', ';'],
        "&apos;"@ == seq!['&', 'a', 'p', 'o', 's', ';'],
{
    reveal_strlit("&amp;");
    reveal_strlit("&lt;");
    reveal_strlit("&gt;");
    reveal_strlit("&quot;");
    reveal_strlit("&apos;");
    assert("&amp;"@ =~= seq!['&', 'a', 'm', 'p', ';']);
    assert("&lt;"@ =~= seq!['&', 'l', 't', ';']);
    assert("&gt;"@ =~= seq!['&', 'g', 't', ';']);
    assert("&quot;"@ =~= seq!['&', 'q', 'u', 'o', 't', ';']);
    assert("&apos;"@ =~= seq!['&', 'a', 'p', 'o', 's', ';']);
}

/// Escaped text cannot open or close a tag, nor end an attribute.
pub proof fn law_escaped_text_is_inert(text: Seq<char>)
    ensures
        forall|i: int|
            0 <= i < escaped(text).len() ==> {
                let c = #[trigger] escaped(text)[i];
                c != '<' && c != '>' && c != '"' && c != '\''
            },
    decreases text.len(),
{
    if text.len() > 0 {
        lemma_entities();
        law_escaped_text_is_inert(text.drop_last());
        let before = escaped(text.drop_last());
        let last = escaped_char(text.last());
        assert forall|i: int| 0 <= i < escaped(text).len() implies {
            let c = #[trigger] escaped(text)[i];
            c != '<' && c != '>' && c != '"' && c != '\''
        } by {
            if i < before.len() {
                assert(escaped(text)[i] == before[i]);
            } else {
                assert(escaped(text)[i] == last[i - before.len()]);
            }
        }
    }
}

/// Escaping begins with the first character.
proof fn lemma_escaped_front(text: Seq<char>)
    requires
        text.len() > 0,
    ensures
        escaped(text) == escaped_char(text[0]) + escaped(text.drop_first()),
    decreases text.len(),
{
    let before = text.drop_last();
    if before.len() > 0 {
        lemma_escaped_front(before);
        assert(before.drop_first() == text.drop_first().drop_last());
        assert(text.drop_first().last() == text.last());
    } else {
        assert(escaped(before) == Seq::<char>::empty());
        assert(escaped(text.drop_first()) == Seq::<char>::empty());
    }
}

/// The text that XML reads: each of the five references, from left to right, replaced by its
/// character.
pub open spec fn unescaped(text: Seq<char>) -> Seq<char>
    decreases text.len(),
{
    if text.len() == 0 {
        seq![]
    } else {
        proof {
            lemma_entities();
        }
        if "&amp;"@.is_prefix_of(text) {
            seq!['&'] + unescaped(text.skip("&amp;"@.len() as int))
        } else if "&lt;"@.is_prefix_of(text) {
            seq!['<'] + unescaped(text.skip("&lt;"@.len() as int))
        } else if "&gt;"@.is_prefix_of(text) {
            seq!['>'] + unescaped(text.skip("&gt;"@.len() as int))
        } else if "&quot;"@.is_prefix_of(text) {
            seq!['"'] + unescaped(text.skip("&quot;"@.len() as int))
        } else if "&apos;"@.is_prefix_of(text) {
            seq!['\''] + unescaped(text.skip("&apos;"@.len() as int))
        } else {
            seq![text[0]] + unescaped(text.drop_first())
        }
    }
}

/// XML reads back what was escaped.
pub proof fn law_escaped_text_reads_back(text: Seq<char>)
    ensures
        unescaped(escaped(text)) == text,
    decreases text.len(),
{
    if text.len() > 0 {
        lemma_entities();
        lemma_escaped_front(text);
        let whole = escaped(text);
        let first = escaped_char(text[0]);
        let rest = text.drop_first();
        law_escaped_text_reads_back(rest);
        assert(whole.take(first.len() as int) == first);
        assert(whole.skip(first.len() as int) == escaped(rest));
        assert(whole.drop_first() == whole.skip(1));
        assert(text == seq![text[0]] + rest);
        assert(whole[0] == first[0]);
        if first[0] == '&' {
            lemma_reference_is_read(whole, text[0]);
        }
        assert(unescaped(whole) == seq![text[0]] + unescaped(escaped(rest)));
    }
}

/// A reference at the start is read as its character.
proof fn lemma_reference_is_read(whole: Seq<char>, c: char)
    requires
        escaped_char(c).is_prefix_of(whole),
        escaped_char(c).len() > 1,
    ensures
        unescaped(whole) == seq![c] + unescaped(whole.skip(escaped_char(c).len() as int)),
{
    lemma_entities();
    let first = escaped_char(c);
    assert(whole[1] == first[1] && whole[2] == first[2]);
    assert("&amp;"@.is_prefix_of(whole) ==> whole[1] == 'a' && whole[2] == 'm');
    assert("&lt;"@.is_prefix_of(whole) ==> whole[1] == 'l');
    assert("&gt;"@.is_prefix_of(whole) ==> whole[1] == 'g');
    assert("&quot;"@.is_prefix_of(whole) ==> whole[1] == 'q');
    assert("&apos;"@.is_prefix_of(whole) ==> whole[1] == 'a' && whole[2] == 'p');
}

/// Escaping loses nothing: two texts that are escaped alike are the same text.
pub proof fn law_escaping_loses_nothing(a: Seq<char>, b: Seq<char>)
    requires
        escaped(a) == escaped(b),
    ensures
        a == b,
{
    law_escaped_text_reads_back(a);
    law_escaped_text_reads_back(b);
}

/// The SOAP message that holds `body`.
pub open spec fn envelope(body: Seq<char>) -> Seq<char> {
    "<?xml version=\"1.0\" encoding=\"UTF-8\"?><soapenv:Envelope xmlns:soapenv=\"http://schemas.xmlsoap.org/soap/envelope/\" xmlns:xsi=\"http://www.w3.org/2001/XMLSchema-instance\" xmlns:vim25=\"urn:vim25\"><soapenv:Body>"@
        + body + "</soapenv:Body></soapenv:Envelope>"@
}

/// The SOAP message that holds `body`.
pub fn soap_envelope(body: &str) -> (message: String)
    ensures
        message@ == envelope(body@),
{
    "<?xml version=\"1.0\" encoding=\"UTF-8\"?><soapenv:Envelope xmlns:soapenv=\"http://schemas.xmlsoap.org/soap/envelope/\" xmlns:xsi=\"http://www.w3.org/2001/XMLSchema-instance\" xmlns:vim25=\"urn:vim25\"><soapenv:Body>".to_owned().concat(
        body,
    ).concat("</soapenv:Body></soapenv:Envelope>")
}

/// A request of the session that `token` names.
pub open spec fn rest_request_view(
    method: HttpMethod,
    url: Seq<char>,
    token: Seq<char>,
) -> HttpRequestView {
    HttpRequestView {
        method,
        url,
        headers: seq![("vmware-api-session-id"@, token)],
        basic_auth: None,
        body: None,
        timeout: None,
    }
}

/// A request of the session that `token` names.
pub fn rest_request(method: HttpMethod, url: String, token: &str) -> (request: HttpRequest)
    ensures
        request@ == rest_request_view(method, url@, token@),
{
    let mut headers: Vec<(String, String)> = Vec::new();
    headers.push(("vmware-api-session-id".to_owned(), token.to_owned()));
    let request = HttpRequest {
        method,
        url,
        headers,
        basic_auth: None,
        body: None,
        timeout: None,
    };
    assert(request@.headers == seq![("vmware-api-session-id"@, token@)]);
    request
}

/// The headers of a SOAP request, with the session's cookie where there is one.
pub open spec fn soap_headers(cookie: Option<Seq<char>>) -> Seq<(Seq<char>, Seq<char>)> {
    let headers = seq![
        ("content-type"@, "text/xml; charset=utf-8"@),
        ("SOAPAction"@, "urn:vim25/8.0"@),
    ];
    match cookie {
        Some(cookie) => headers.push(("Cookie"@, cookie)),
        None => headers,
    }
}

/// A request to run the SOAP operation `operation`.
pub open spec fn soap_request_view(
    base_url: Seq<char>,
    cookie: Option<Seq<char>>,
    operation: Seq<char>,
) -> HttpRequestView {
    HttpRequestView {
        method: HttpMethod::Post,
        url: base_url + "/sdk"@,
        headers: soap_headers(cookie),
        basic_auth: None,
        body: Some(envelope(operation)),
        timeout: None,
    }
}

/// A request to run the SOAP operation `operation`, in the session of `cookie` where there is one.
pub fn soap_request(base_url: String, cookie: Option<String>, operation: &str) -> (request:
    HttpRequest)
    ensures
        request@ == soap_request_view(base_url@, text::option_view(cookie), operation@),
{
    let ghost cookie_view = text::option_view(cookie);
    let mut headers: Vec<(String, String)> = Vec::new();
    headers.push(("content-type".to_owned(), "text/xml; charset=utf-8".to_owned()));
    headers.push(("SOAPAction".to_owned(), "urn:vim25/8.0".to_owned()));
    if let Some(cookie) = cookie {
        headers.push(("Cookie".to_owned(), cookie));
    }
    let request = HttpRequest {
        method: HttpMethod::Post,
        url: base_url.concat("/sdk"),
        headers,
        basic_auth: None,
        body: Some(soap_envelope(operation)),
        timeout: None,
    };
    assert(request@.headers == soap_headers(cookie_view));
    request
}

/// The request that opens a REST session.
pub open spec fn rest_login_view(entry: VcenterEntryView, password: Seq<char>) -> HttpRequestView {
    HttpRequestView {
        method: HttpMethod::Post,
        url: entry.base_url() + "/api/session"@,
        headers: seq![],
        basic_auth: Some((entry.username, password)),
        body: None,
        timeout: None,
    }
}

/// The request that opens a REST session.
pub fn rest_login_request(entry: &VcenterEntry, password: String) -> (request: HttpRequest)
    ensures
        request@ == rest_login_view(entry@, password@),
{
    let request = HttpRequest {
        method: HttpMethod::Post,
        url: entry.base_url().concat("/api/session"),
        headers: Vec::new(),
        basic_auth: Some((entry.username.clone(), password)),
        body: None,
        timeout: None,
    };
    assert(request@.headers == Seq::<(Seq<char>, Seq<char>)>::empty());
    request
}

/// The operation that opens a SOAP session.
pub open spec fn login_operation(username: Seq<char>, password: Seq<char>) -> Seq<char> {
    "<vim25:Login><vim25:_this type=\"SessionManager\">SessionManager</vim25:_this><vim25:userName>"@
        + escaped(username) + "</vim25:userName><vim25:password>"@ + escaped(password)
        + "</vim25:password></vim25:Login>"@
}

/// The request that opens a SOAP session.
pub fn soap_login_request(entry: &VcenterEntry, password: &str) -> (request: HttpRequest)
    ensures
        request@ == soap_request_view(
            entry@.base_url(),
            None,
            login_operation(entry@.username, password@),
        ),
{
    let operation =
        "<vim25:Login><vim25:_this type=\"SessionManager\">SessionManager</vim25:_this><vim25:userName>".to_owned().concat(
        &xml_escape(&entry.username),
    ).concat("</vim25:userName><vim25:password>").concat(&xml_escape(password)).concat(
        "</vim25:password></vim25:Login>",
    );
    soap_request(entry.base_url(), None, &operation)
}

} // verus!
