//! The requests a strategy asks its caller to send, and the header sets they carry.

use vstd::prelude::*;
use vstd::string::*;

verus! {

/// The user agent of the plain data calls.
pub const USER_AGENT: &'static str =
    "Mozilla/5.0 (Windows NT 10.0; Win64; x64) AppleWebKit/537.36 (KHTML, like Gecko) Chrome/91.0.4472.124 Safari/537.36";

/// The user agent of the emulated browser session.
pub const SESSION_USER_AGENT: &'static str =
    "Mozilla/5.0 (Macintosh; Intel Mac OS X 10_15_7) AppleWebKit/537.36 (KHTML, like Gecko) Chrome/145.0.0.0 Safari/537.36";

pub const DOCUMENT_ACCEPT: &'static str =
    "text/html,application/xhtml+xml,application/xml;q=0.9,image/avif,image/webp,*/*;q=0.8";

pub const ACCEPT_LANGUAGE: &'static str = "en-US,en;q=0.9,es-US;q=0.8,es;q=0.7";

pub const CLIENT_HINT_BRANDS: &'static str =
    r#""Not:A-Brand";v="99", "Google Chrome";v="145", "Chromium";v="145""#;

pub const CLIENT_HINT_PLATFORM: &'static str = r#""macOS""#;

/// One header line of a request.
pub struct Header {
    pub name: String,
    pub value: String,
}

impl View for Header {
    type V = (Seq<char>, Seq<char>);

    open spec fn view(&self) -> (Seq<char>, Seq<char>) {
        (self.name@, self.value@)
    }
}

/// The header lines of a list, as text, in order.
pub open spec fn header_views(headers: Seq<Header>) -> Seq<(Seq<char>, Seq<char>)> {
    headers.map_values(|h: Header| h@)
}

/// How the caller hands over the body of a reply.
#[derive(Clone, Copy, PartialEq, Eq, Structural, Debug)]
pub enum PayloadFormat {
    /// As text.
    Text,
    /// As the decoded list of currency entries of a JSON document.
    Quotes,
}

/// A request for the caller to send.
pub struct Request {
    pub url: String,
    /// The headers to present, in this order; a name may occur twice.
    pub headers: Vec<Header>,
    /// Whether the request belongs to the browser session, whose requests
    /// share one cookie jar and follow a bounded number of redirects.
    pub session: bool,
    pub format: PayloadFormat,
    /// The time after which the caller gives the request up as failed.
    pub timeout_secs: u64,
}

/// A request, as text.
pub struct RequestView {
    pub url: Seq<char>,
    pub headers: Seq<(Seq<char>, Seq<char>)>,
    pub session: bool,
    pub format: PayloadFormat,
    pub timeout_secs: u64,
}

impl View for Request {
    type V = RequestView;

    open spec fn view(&self) -> RequestView {
        RequestView {
            url: self.url@,
            headers: header_views(self.headers@),
            session: self.session,
            format: self.format,
            timeout_secs: self.timeout_secs,
        }
    }
}

/// The headers of a data call: the user agent, and the accepted media type
/// where the source names one.
pub open spec fn data_header_list(accept: Option<Seq<char>>) -> Seq<(Seq<char>, Seq<char>)> {
    match accept {
        Some(media) => seq![("User-Agent"@, USER_AGENT@), ("Accept"@, media)],
        None => seq![("User-Agent"@, USER_AGENT@)],
    }
}

/// The headers of a page load in the browser session.
pub open spec fn browser_header_list() -> Seq<(Seq<char>, Seq<char>)> {
    seq![
        ("User-Agent"@, SESSION_USER_AGENT@),
        ("Accept"@, DOCUMENT_ACCEPT@),
        ("Accept-Language"@, ACCEPT_LANGUAGE@),
        ("Sec-Ch-Ua"@, CLIENT_HINT_BRANDS@),
        ("Sec-Ch-Ua-Mobile"@, "?0"@),
        ("Sec-Ch-Ua-Platform"@, CLIENT_HINT_PLATFORM@),
        ("Sec-Fetch-Dest"@, "document"@),
        ("Sec-Fetch-Mode"@, "navigate"@),
        ("Sec-Fetch-Site"@, "none"@),
        ("Sec-Fetch-User"@, "?1"@),
        ("Upgrade-Insecure-Requests"@, "1"@),
    ]
}

/// The headers of a page load followed by one more line.
pub open spec fn browser_header_list_with(name: Seq<char>, value: Seq<char>) -> Seq<
    (Seq<char>, Seq<char>),
> {
    browser_header_list().push((name, value))
}

/// A header line.
pub fn header(name: &str, value: &str) -> (h: Header)
    ensures
        h@ == (name@, value@),
{
    Header { name: name.to_owned(), value: value.to_owned() }
}

/// The headers of a data call.
pub fn data_headers(accept: Option<&String>) -> (headers: Vec<Header>)
    ensures
        header_views(headers@) == data_header_list(
            match accept {
                Some(media) => Some(media@),
                None => None,
            },
        ),
{
    let mut headers: Vec<Header> = Vec::new();
    headers.push(header("User-Agent", USER_AGENT));
    match accept {
        Some(media) => {
            headers.push(header("Accept", media.as_str()));
        },
        None => {},
    }
    assert(header_views(headers@) =~= data_header_list(
        match accept {
            Some(media) => Some(media@),
            None => None,
        },
    ));
    headers
}

/// The headers of a page load in the browser session: a full
/// document-navigation set with client hints.
pub fn browser_headers() -> (headers: Vec<Header>)
    ensures
        header_views(headers@) == browser_header_list(),
{
    let mut headers: Vec<Header> = Vec::new();
    headers.push(header("User-Agent", SESSION_USER_AGENT));
    headers.push(header("Accept", DOCUMENT_ACCEPT));
    headers.push(header("Accept-Language", ACCEPT_LANGUAGE));
    headers.push(header("Sec-Ch-Ua", CLIENT_HINT_BRANDS));
    headers.push(header("Sec-Ch-Ua-Mobile", "?0"));
    headers.push(header("Sec-Ch-Ua-Platform", CLIENT_HINT_PLATFORM));
    headers.push(header("Sec-Fetch-Dest", "document"));
    headers.push(header("Sec-Fetch-Mode", "navigate"));
    headers.push(header("Sec-Fetch-Site", "none"));
    headers.push(header("Sec-Fetch-User", "?1"));
    headers.push(header("Upgrade-Insecure-Requests", "1"));
    assert(header_views(headers@) =~= browser_header_list());
    headers
}

/// The headers of a page load followed by one more line.
pub fn browser_headers_with(name: &str, value: &str) -> (headers: Vec<Header>)
    ensures
        header_views(headers@) == browser_header_list_with(name@, value@),
{
    let mut headers = browser_headers();
    headers.push(header(name, value));
    assert(header_views(headers@) =~= browser_header_list_with(name@, value@));
    headers
}

} // verus!
