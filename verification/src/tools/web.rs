//! The tools that fetch from the web and search it.

use vstd::prelude::*;
use crate::error::{ToolError, ToolErrorView};
use crate::text::{
    chars_of, joined, contains_seq, decimal_spec, extend_chars, extend_str, find_from,
    first_index, has_prefix, push_decimal, replace_chars, replace_spec, skip_spaces,
    skip_spaces_back, starts_with, str_contains, string_of, trim, trim_spec,
};
use crate::tool_args::{opt_view, WebFetchArgs, WebSearchArgs};

verus! {

// ---------------------------------------------------------------------------
// Trusted: url and html2text
// ---------------------------------------------------------------------------

/// What the `url` crate reads of an address: its scheme, its host if it has
/// one, and the address as the crate writes it.
#[derive(Debug, Clone)]
pub struct ParsedUrl {
    pub scheme: String,
    pub host: Option<String>,
    pub text: String,
}

/// An address as read, over character sequences.
pub struct ParsedUrlView {
    pub scheme: Seq<char>,
    pub host: Option<Seq<char>>,
    pub text: Seq<char>,
}

impl View for ParsedUrl {
    type V = ParsedUrlView;

    open spec fn view(&self) -> ParsedUrlView {
        ParsedUrlView { scheme: self.scheme@, host: opt_view(self.host), text: self.text@ }
    }
}

/// The view of the result of reading an address.
pub open spec fn parsed_view(r: Result<ParsedUrl, String>) -> Result<ParsedUrlView, Seq<char>> {
    match r {
        Ok(u) => Ok(u@),
        Err(e) => Err(e@),
    }
}

/// What `url::Url::parse` makes of a text: the scheme, the host and the
/// text of the address that it reads, or the text of its error.
pub uninterp spec fn parsed_url_of(text: Seq<char>) -> Result<ParsedUrlView, Seq<char>>;

/// What `html2text::from_read` makes of a page for lines of `width`
/// columns: the text of the page, or the text of its error.
pub uninterp spec fn html_text_of(html: Seq<char>, width: usize) -> Result<Seq<char>, Seq<char>>;

/// `url::Url::parse`, read out with `scheme`, `host_str` and `as_str`. The
/// result is named by [`parsed_url_of`]; nothing else is claimed of it.
#[verifier::external_body]
fn parse_url(text: &str) -> (r: Result<ParsedUrl, String>)
    ensures
        parsed_view(r) == parsed_url_of(text@),
{
    match url::Url::parse(text) {
        Ok(u) => Ok(
            ParsedUrl {
                scheme: u.scheme().to_string(),
                host: u.host_str().map(|h| h.to_string()),
                text: u.as_str().to_string(),
            },
        ),
        Err(e) => Err(e.to_string()),
    }
}

/// `html2text::from_read` on the bytes of a page. The result is named by
/// [`html_text_of`]; nothing else is claimed of it.
#[verifier::external_body]
fn html_to_text(html: &str, width: usize) -> (r: Result<String, String>)
    ensures
        crate::agent_loop::outcome_text(r) == html_text_of(html@, width),
{
    match html2text::from_read(html.as_bytes(), width) {
        Ok(text) => Ok(text),
        Err(e) => Err(e.to_string()),
    }
}

// ---------------------------------------------------------------------------
// web_fetch
// ---------------------------------------------------------------------------

/// The tool that fetches an address.
#[derive(Debug, Default)]
pub struct WebFetch;

/// The largest answer that is taken where the call sets no limit, in KB.
pub const DEFAULT_SIZE_LIMIT_KB: usize = 100;

/// The largest limit that a call can set, in KB.
pub const MAX_SIZE_LIMIT_KB: usize = 500;

/// The width of the lines that a page is turned into.
pub const PAGE_WIDTH: usize = 80;

/// What is to be fetched, and how large the answer may be, in bytes.
#[derive(Debug, Clone)]
pub struct FetchPlan {
    pub url: String,
    pub size_limit: usize,
}

/// What came back from the server.
#[derive(Debug, Clone)]
pub struct FetchResponse {
    /// The status code.
    pub status: u16,
    /// The standard words for the status code, where there are any.
    pub reason: Option<String>,
    /// The address that answered, redirects followed.
    pub final_url: String,
    /// The content type that the server named.
    pub content_type: Option<String>,
    /// The number of bytes of the body.
    pub body_len: usize,
    /// The body as text.
    pub body: String,
}

/// Whether a host is this machine or lies in a private network, by its
/// name or the beginning of its address.
pub open spec fn is_private_host(host: Seq<char>) -> bool {
    ||| host == "localhost"@
    ||| host == "127.0.0.1"@
    ||| has_prefix(host, "192.168."@)
    ||| has_prefix(host, "10."@)
    ||| has_prefix(host, "172.16."@)
    ||| has_prefix(host, "172.17."@)
    ||| has_prefix(host, "172.18."@)
    ||| has_prefix(host, "172.19."@)
    ||| has_prefix(host, "172.20."@)
    ||| has_prefix(host, "172.21."@)
    ||| has_prefix(host, "172.22."@)
    ||| has_prefix(host, "172.23."@)
    ||| has_prefix(host, "172.24."@)
    ||| has_prefix(host, "172.25."@)
    ||| has_prefix(host, "172.26."@)
    ||| has_prefix(host, "172.27."@)
    ||| has_prefix(host, "172.28."@)
    ||| has_prefix(host, "172.29."@)
    ||| has_prefix(host, "172.30."@)
    ||| has_prefix(host, "172.31."@)
}

/// The largest answer that is taken, in bytes.
pub open spec fn size_limit_spec(size_limit_kb: Option<usize>) -> nat {
    let kb = match size_limit_kb {
        Some(k) => k as nat,
        None => DEFAULT_SIZE_LIMIT_KB as nat,
    };
    (if kb < MAX_SIZE_LIMIT_KB {
        kb
    } else {
        MAX_SIZE_LIMIT_KB as nat
    }) * 1024
}

/// The error for an address that is not fetched, if it is not: one that
/// cannot be read, one that is neither `http` nor `https`, and one whose
/// host is this machine or lies in a private network.
pub open spec fn fetch_fault(parsed: Result<ParsedUrlView, Seq<char>>) -> Option<ToolErrorView> {
    match parsed {
        Err(e) => Some(ToolErrorView::InvalidUrl("Invalid URL: "@ + e)),
        Ok(u) => if u.scheme != "http"@ && u.scheme != "https"@ {
            Some(
                ToolErrorView::InvalidUrl(
                    "Only HTTP and HTTPS URLs are allowed, got: "@ + u.scheme,
                ),
            )
        } else if u.host is Some && is_private_host(u.host->0) {
            Some(
                ToolErrorView::InvalidUrl("Cannot fetch from localhost or private IP addresses"@),
            )
        } else {
            None
        },
    }
}

/// The error for an answer that is not passed on, if it is not: one whose
/// status is outside 200 to 299, and one that is larger than the limit.
pub open spec fn response_fault(size_limit: usize, response: FetchResponse) -> Option<
    ToolErrorView,
> {
    if !(200 <= response.status < 300) {
        Some(
            ToolErrorView::Http(
                "HTTP "@ + decimal_spec(response.status as nat) + " "@ + match response.reason {
                    Some(r) => r@,
                    None => "Unknown"@,
                },
            ),
        )
    } else if response.body_len > size_limit {
        Some(
            ToolErrorView::Http(
                "Response size ("@ + decimal_spec(response.body_len as nat)
                    + " bytes) exceeds limit ("@ + decimal_spec(size_limit as nat) + " bytes)"@,
            ),
        )
    } else {
        None
    }
}

/// The content type as it is shown.
pub open spec fn shown_content_type(response: FetchResponse) -> Seq<char> {
    match response.content_type {
        Some(t) => t@,
        None => "unknown"@,
    }
}

/// Whether the answer is a page that is turned into text.
pub open spec fn is_html(response: FetchResponse) -> bool {
    contains_seq(shown_content_type(response), "html"@)
}

/// What `web_fetch` gives for an answer whose body reads `content`.
pub open spec fn fetch_text(response: FetchResponse, content: Seq<char>) -> Seq<char> {
    "Status: "@ + decimal_spec(response.status as nat) + "\nContent-Type: "@ + shown_content_type(
        response,
    ) + "\nFinal URL: "@ + response.final_url@ + "\nSize: "@ + decimal_spec(
        response.body_len as nat,
    ) + " bytes\n\n"@ + trim_spec(content) + "\n"@
}

/// What `web_fetch` gives for an answer, where `page` is what the page
/// turns into as text.
pub open spec fn fetch_outcome(
    size_limit: usize,
    response: FetchResponse,
    page: Result<Seq<char>, Seq<char>>,
) -> Result<Seq<char>, ToolErrorView> {
    match response_fault(size_limit, response) {
        Some(e) => Err(e),
        None => if is_html(response) {
            match page {
                Ok(text) => Ok(fetch_text(response, text)),
                Err(e) => Err(ToolErrorView::Other("Failed to convert HTML: "@ + e)),
            }
        } else {
            Ok(fetch_text(response, response.body@))
        },
    }
}

fn is_private(host: &str) -> (r: bool)
    ensures
        r == is_private_host(host@),
{
    let h = chars_of(host);
    crate::text::chars_eq(&h, &chars_of("localhost")) || crate::text::chars_eq(
        &h,
        &chars_of("127.0.0.1"),
    ) || starts_with(&h, &chars_of("192.168.")) || starts_with(&h, &chars_of("10."))
        || starts_with(&h, &chars_of("172.16.")) || starts_with(&h, &chars_of("172.17."))
        || starts_with(&h, &chars_of("172.18.")) || starts_with(&h, &chars_of("172.19."))
        || starts_with(&h, &chars_of("172.20.")) || starts_with(&h, &chars_of("172.21."))
        || starts_with(&h, &chars_of("172.22.")) || starts_with(&h, &chars_of("172.23."))
        || starts_with(&h, &chars_of("172.24.")) || starts_with(&h, &chars_of("172.25."))
        || starts_with(&h, &chars_of("172.26.")) || starts_with(&h, &chars_of("172.27."))
        || starts_with(&h, &chars_of("172.28.")) || starts_with(&h, &chars_of("172.29."))
        || starts_with(&h, &chars_of("172.30.")) || starts_with(&h, &chars_of("172.31."))
}

impl WebFetch {
    /// The name of the tool.
    pub fn name() -> (r: &'static str)
        ensures
            r@ == "web_fetch"@,
    {
        "web_fetch"
    }

    /// The largest answer that is taken, in bytes: 100 KB where the call
    /// sets no limit, and never more than 500 KB.
    pub fn size_limit(args: &WebFetchArgs) -> (r: usize)
        ensures
            r == size_limit_spec(args.size_limit_kb),
    {
        let kb = match args.size_limit_kb {
            Some(k) => k,
            None => DEFAULT_SIZE_LIMIT_KB,
        };
        let capped = if kb < MAX_SIZE_LIMIT_KB {
            kb
        } else {
            MAX_SIZE_LIMIT_KB
        };
        capped * 1024
    }

    /// Decides on an address that was read: what to fetch, or why not.
    pub fn check(parsed: Result<ParsedUrl, String>, size_limit: usize) -> (r: Result<
        FetchPlan,
        ToolError,
    >)
        ensures
            match r {
                Ok(plan) => fetch_fault(parsed_view(parsed)) is None && plan.url@
                    == parsed->Ok_0.text@ && plan.size_limit == size_limit,
                Err(e) => fetch_fault(parsed_view(parsed)) == Some(e@),
            },
    {
        match parsed {
            Err(e) => Err(ToolError::InvalidUrl(joined("Invalid URL: ", e.as_str()))),
            Ok(u) => {
                if !crate::text::str_eq(u.scheme.as_str(), "http") && !crate::text::str_eq(
                    u.scheme.as_str(),
                    "https",
                ) {
                    return Err(
                        ToolError::InvalidUrl(
                            joined("Only HTTP and HTTPS URLs are allowed, got: ", u.scheme.as_str()),
                        ),
                    );
                }
                let private = match &u.host {
                    Some(h) => is_private(h.as_str()),
                    None => false,
                };
                if private {
                    return Err(
                        ToolError::invalid_url("Cannot fetch from localhost or private IP addresses"),
                    );
                }
                Ok(FetchPlan { url: u.text, size_limit })
            },
        }
    }

    /// Reads the address of the call and decides what to fetch, or why
    /// not.
    pub fn plan(args: &WebFetchArgs) -> (r: Result<FetchPlan, ToolError>)
        ensures
            match r {
                Ok(plan) => fetch_fault(parsed_url_of(args.url@)) is None && plan.url@
                    == parsed_url_of(args.url@)->Ok_0.text && plan.size_limit == size_limit_spec(
                    args.size_limit_kb,
                ),
                Err(e) => fetch_fault(parsed_url_of(args.url@)) == Some(e@),
            },
    {
        Self::check(parse_url(args.url.as_str()), Self::size_limit(args))
    }

    /// What the tool gives for an answer that is passed on, where
    /// `content` is its body as it is shown.
    pub fn compose(response: &FetchResponse, content: &str) -> (r: String)
        ensures
            r@ == fetch_text(*response, content@),
    {
        let mut out = chars_of("Status: ");
        push_decimal(&mut out, response.status as u64);
        extend_str(&mut out, "\nContent-Type: ");
        match &response.content_type {
            Some(t) => {
                extend_str(&mut out, t.as_str());
            },
            None => {
                extend_str(&mut out, "unknown");
            },
        }
        extend_str(&mut out, "\nFinal URL: ");
        extend_str(&mut out, response.final_url.as_str());
        extend_str(&mut out, "\nSize: ");
        push_decimal(&mut out, response.body_len as u64);
        extend_str(&mut out, " bytes\n\n");
        extend_str(&mut out, trim(content).as_str());
        extend_str(&mut out, "\n");
        string_of(&out)
    }

    /// Decides on an answer, where `page` is what its body turns into as
    /// the text of a page: the error for a status that is no success or a
    /// body over the limit; and else the answer with its body, turned into
    /// text where it is a page.
    pub fn finish(size_limit: usize, response: &FetchResponse, page: Result<String, String>) -> (r:
        Result<String, ToolError>)
        ensures
            crate::agent_loop::outcome_view(r) == fetch_outcome(
                size_limit,
                *response,
                crate::agent_loop::outcome_text(page),
            ),
    {
        if !(200 <= response.status && response.status < 300) {
            let mut m = chars_of("HTTP ");
            push_decimal(&mut m, response.status as u64);
            extend_str(&mut m, " ");
            match &response.reason {
                Some(r) => {
                    extend_str(&mut m, r.as_str());
                },
                None => {
                    extend_str(&mut m, "Unknown");
                },
            }
            return Err(ToolError::Http(string_of(&m)));
        }
        if response.body_len > size_limit {
            let mut m = chars_of("Response size (");
            push_decimal(&mut m, response.body_len as u64);
            extend_str(&mut m, " bytes) exceeds limit (");
            push_decimal(&mut m, size_limit as u64);
            extend_str(&mut m, " bytes)");
            return Err(ToolError::Http(string_of(&m)));
        }
        let html = match &response.content_type {
            Some(t) => str_contains(t.as_str(), "html"),
            None => str_contains("unknown", "html"),
        };
        if html {
            match page {
                Ok(text) => Ok(Self::compose(response, text.as_str())),
                Err(e) => Err(ToolError::Other(joined("Failed to convert HTML: ", e.as_str()))),
            }
        } else {
            Ok(Self::compose(response, response.body.as_str()))
        }
    }

    /// Whether the body of an answer is turned into text: it is where the
    /// answer is passed on and is a page.
    pub fn is_page(size_limit: usize, response: &FetchResponse) -> (r: bool)
        ensures
            r == (response_fault(size_limit, *response) is None && is_html(*response)),
    {
        200 <= response.status && response.status < 300 && response.body_len <= size_limit
            && match &response.content_type {
            Some(t) => str_contains(t.as_str(), "html"),
            None => str_contains("unknown", "html"),
        }
    }

    /// Decides on an answer: the error for a status that is no success or
    /// a body over the limit; and else the answer with its body, turned
    /// into text of 80 columns where it is a page. Only the body of a page
    /// that is passed on is turned into text.
    pub fn render(plan: &FetchPlan, response: &FetchResponse) -> (r: Result<String, ToolError>)
        ensures
            crate::agent_loop::outcome_view(r) == fetch_outcome(
                plan.size_limit,
                *response,
                html_text_of(response.body@, PAGE_WIDTH),
            ),
    {
        if Self::is_page(plan.size_limit, response) {
            let page = html_to_text(response.body.as_str(), PAGE_WIDTH);
            Self::finish(plan.size_limit, response, page)
        } else {
            Self::finish(plan.size_limit, response, Err(String::new()))
        }
    }
}


// ---------------------------------------------------------------------------
// web_search
// ---------------------------------------------------------------------------

/// The tool that searches the web.
#[derive(Debug, Default)]
pub struct WebSearch;

/// One result of a search.
#[derive(Debug, Clone)]
pub struct SearchResult {
    pub title: String,
    pub url: String,
    pub snippet: String,
}

/// A result of a search over character sequences.
pub struct SearchResultView {
    pub title: Seq<char>,
    pub url: Seq<char>,
    pub snippet: Seq<char>,
}

impl View for SearchResult {
    type V = SearchResultView;

    open spec fn view(&self) -> SearchResultView {
        SearchResultView { title: self.title@, url: self.url@, snippet: self.snippet@ }
    }
}

/// The views of a sequence of results.
pub open spec fn search_results_view(results: Seq<SearchResult>) -> Seq<SearchResultView> {
    Seq::new(results.len(), |i: int| results[i]@)
}

/// The number of results where the call sets none.
pub const DEFAULT_NUM_RESULTS: usize = 5;

/// The largest number of results.
pub const MAX_NUM_RESULTS: usize = 10;

/// The character of a hexadecimal digit, in upper case.
pub open spec fn upper_hex_char(d: nat) -> char {
    if d < 10 {
        crate::text::digit_char(d)
    } else if d == 10 {
        'A'
    } else if d == 11 {
        'B'
    } else if d == 12 {
        'C'
    } else if d == 13 {
        'D'
    } else if d == 14 {
        'E'
    } else {
        'F'
    }
}

/// Whether a character stands for itself in a query.
pub open spec fn is_unreserved(c: char) -> bool {
    ('A' <= c && c <= 'Z') || ('a' <= c && c <= 'z') || ('0' <= c && c <= '9') || c == '-' || c
        == '_' || c == '.' || c == '~'
}

/// How one character of a query is written in an address: letters, digits
/// and `-_.~` as they are, a space as `+`, and any other as `%` and the
/// two hexadecimal digits of the low byte of its code.
pub open spec fn encoded_char(c: char) -> Seq<char> {
    if is_unreserved(c) {
        seq![c]
    } else if c == ' ' {
        seq!['+']
    } else {
        let low = (c as u32 % 256) as nat;
        seq!['%', upper_hex_char(low / 16), upper_hex_char(low % 16)]
    }
}

/// How a query is written in an address.
pub open spec fn encode_spec(input: Seq<char>) -> Seq<char>
    decreases input.len(),
{
    if input.len() == 0 {
        Seq::empty()
    } else {
        encode_spec(input.drop_last()) + encoded_char(input.last())
    }
}

/// The value of a hexadecimal digit in either case.
pub open spec fn hex_value(c: char) -> Option<nat> {
    if '0' <= c && c <= '9' {
        Some((c as u32 - '0' as u32) as nat)
    } else if 'a' <= c && c <= 'f' {
        Some((c as u32 - 'a' as u32 + 10) as nat)
    } else if 'A' <= c && c <= 'F' {
        Some((c as u32 - 'A' as u32 + 10) as nat)
    } else {
        None
    }
}

/// The byte that two characters after a `%` stand for: two hexadecimal
/// digits, or a plus sign and one.
pub open spec fn hex_byte(first: char, second: char) -> Option<nat> {
    match (hex_value(first), hex_value(second)) {
        (Some(a), Some(b)) => Some(a * 16 + b),
        (None, Some(b)) => if first == '+' {
            Some(b)
        } else {
            None
        },
        _ => None,
    }
}

/// A character before what the rest of a text decodes to.
pub open spec fn decoded_after(c: char, rest: Result<Seq<char>, Seq<char>>) -> Result<
    Seq<char>,
    Seq<char>,
> {
    match rest {
        Ok(text) => Ok(seq![c] + text),
        Err(e) => Err(e),
    }
}

/// The number of bytes of the two characters after a `%`, or of as many
/// as there are.
pub open spec fn taken_width(input: Seq<char>) -> nat {
    if input.len() < 2 {
        0
    } else if input.len() < 3 {
        crate::text::char_width(input[1])
    } else {
        crate::text::char_width(input[1]) + crate::text::char_width(input[2])
    }
}

/// What a text from an address stands for: `+` for a space, `%` and two
/// hexadecimal digits for the character with that code, any other
/// character for itself; the first fault from the left gives the error. A
/// `%` is incomplete unless two bytes follow it.
pub open spec fn decode_spec(input: Seq<char>) -> Result<Seq<char>, Seq<char>>
    decreases input.len(),
{
    if input.len() == 0 {
        Ok(Seq::empty())
    } else if input[0] == '+' {
        decoded_after(' ', decode_spec(input.drop_first()))
    } else if input[0] == '%' {
        if taken_width(input) != 2 {
            Err("Incomplete percent encoding"@)
        } else if input.len() < 3 {
            Err("Invalid hex encoding"@)
        } else {
            match hex_byte(input[1], input[2]) {
                Some(b) => decoded_after(
                    (b as u8) as char,
                    decode_spec(input.subrange(3, input.len() as int)),
                ),
                None => Err("Invalid hex encoding"@),
            }
        }
    } else {
        decoded_after(input[0], decode_spec(input.drop_first()))
    }
}

fn upper_hex(d: u32) -> (c: char)
    requires
        d < 16,
    ensures
        c == upper_hex_char(d as nat),
{
    if d == 0 {
        '0'
    } else if d == 1 {
        '1'
    } else if d == 2 {
        '2'
    } else if d == 3 {
        '3'
    } else if d == 4 {
        '4'
    } else if d == 5 {
        '5'
    } else if d == 6 {
        '6'
    } else if d == 7 {
        '7'
    } else if d == 8 {
        '8'
    } else if d == 9 {
        '9'
    } else if d == 10 {
        'A'
    } else if d == 11 {
        'B'
    } else if d == 12 {
        'C'
    } else if d == 13 {
        'D'
    } else if d == 14 {
        'E'
    } else {
        'F'
    }
}

fn hex_digit_value(c: char) -> (r: Option<u8>)
    ensures
        match r {
            Some(v) => hex_value(c) == Some(v as nat) && v < 16,
            None => hex_value(c) is None,
        },
{
    let u: u32 = c as u32;
    if '0' <= c && c <= '9' {
        Some((u - 48) as u8)
    } else if 'a' <= c && c <= 'f' {
        Some((u - 97 + 10) as u8)
    } else if 'A' <= c && c <= 'F' {
        Some((u - 65 + 10) as u8)
    } else {
        None
    }
}

/// Writes a query for an address.
pub fn encode(input: &str) -> (r: String)
    ensures
        r@ == encode_spec(input@),
{
    let v = chars_of(input);
    let mut out: Vec<char> = Vec::new();
    let mut i: usize = 0;
    assert(v@.take(0) =~= Seq::<char>::empty());
    while i < v.len()
        invariant
            i <= v@.len(),
            out@ == encode_spec(v@.take(i as int)),
        decreases v@.len() - i,
    {
        let c = v[i];
        let ghost before = out@;
        if (c >= 'A' && c <= 'Z') || (c >= 'a' && c <= 'z') || (c >= '0' && c <= '9') || c == '-'
            || c == '_' || c == '.' || c == '~' {
            out.push(c);
        } else if c == ' ' {
            out.push('+');
        } else {
            let low: u32 = (c as u32) % 256;
            out.push('%');
            out.push(upper_hex(low / 16));
            out.push(upper_hex(low % 16));
        }
        assert(out@ =~= before + encoded_char(c));
        assert(v@.take(i + 1).drop_last() == v@.take(i as int));
        i += 1;
    }
    assert(v@.take(v@.len() as int) == v@);
    string_of(&out)
}

/// Reads a text from an address.
pub fn decode(input: &str) -> (r: Result<String, String>)
    ensures
        crate::agent_loop::outcome_text(r) == decode_spec(input@),
{
    let v = chars_of(input);
    let mut out: Vec<char> = Vec::new();
    let mut i: usize = 0;
    assert(v@.subrange(0, v@.len() as int) == v@);
    while i < v.len()
        invariant
            i <= v@.len(),
            v@ == input@,
            decode_spec(v@) == match decode_spec(v@.subrange(i as int, v@.len() as int)) {
                Ok(text) => Ok(out@ + text),
                Err(e) => Err(e),
            },
        decreases v@.len() - i,
    {
        let ghost rest = v@.subrange(i as int, v@.len() as int);
        let c = v[i];
        assert(rest[0] == c);
        if c == '+' {
            assert(rest.drop_first() == v@.subrange(i + 1, v@.len() as int));
            let ghost before = out@;
            out.push(' ');
            assert(forall|t: Seq<char>| #[trigger] (before + (seq![' '] + t)) =~= out@ + t);
            i += 1;
        } else if c == '%' {
            let width: usize = if v.len() - i < 2 {
                0
            } else if v.len() - i < 3 {
                assert(rest[1] == v@[i + 1]);
                crate::text::width_of(v[i + 1])
            } else {
                assert(rest[1] == v@[i + 1] && rest[2] == v@[i + 2]);
                crate::text::width_of(v[i + 1]) + crate::text::width_of(v[i + 2])
            };
            if width != 2 {
                return Err("Incomplete percent encoding".to_owned());
            }
            if v.len() - i < 3 {
                return Err("Invalid hex encoding".to_owned());
            }
            assert(rest[1] == v@[i + 1] && rest[2] == v@[i + 2]);
            let first = v[i + 1];
            let second = v[i + 2];
            let byte: Option<u8> = match (hex_digit_value(first), hex_digit_value(second)) {
                (Some(a), Some(b)) => Some(a * 16 + b),
                (None, Some(b)) => if first == '+' {
                    Some(b)
                } else {
                    None
                },
                _ => None,
            };
            match byte {
                Some(b) => {
                    assert(rest.subrange(3, rest.len() as int) == v@.subrange(
                        i + 3,
                        v@.len() as int,
                    ));
                    let ghost before = out@;
                    out.push(b as char);
                    assert(forall|t: Seq<char>| #[trigger]
                        (before + (seq![b as char] + t)) =~= out@ + t);
                    i += 3;
                },
                None => {
                    return Err("Invalid hex encoding".to_owned());
                },
            }
        } else {
            assert(rest.drop_first() == v@.subrange(i + 1, v@.len() as int));
            let ghost before = out@;
            out.push(c);
            assert(forall|t: Seq<char>| #[trigger] (before + (seq![c] + t)) =~= out@ + t);
            i += 1;
        }
    }
    assert(out@ + Seq::<char>::empty() =~= out@);
    Ok(string_of(&out))
}

/// A text of a page with its entities and its marks of emphasis taken out,
/// and without the whitespace around it.
pub open spec fn decode_html_spec(text: Seq<char>) -> Seq<char> {
    let a = replace_spec(text, "&amp;"@, "&"@, None);
    let b = replace_spec(a, "&lt;"@, "<"@, None);
    let c = replace_spec(b, "&gt;"@, ">"@, None);
    let d = replace_spec(c, "&quot;"@, "\""@, None);
    let e = replace_spec(d, "&#39;"@, "'"@, None);
    let f = replace_spec(e, "&nbsp;"@, " "@, None);
    let g = replace_spec(f, "<b>"@, ""@, None);
    let h = replace_spec(g, "</b>"@, ""@, None);
    let i = replace_spec(h, "<em>"@, ""@, None);
    let j = replace_spec(i, "</em>"@, ""@, None);
    trim_spec(j)
}

fn swap_all(text: &Vec<char>, from: &str, to: &str) -> (r: Vec<char>)
    ensures
        r@ == replace_spec(text@, from@, to@, None),
{
    replace_chars(text, &chars_of(from), &chars_of(to), None)
}

/// Takes the entities and the marks of emphasis out of a text of a page.
pub fn decode_html(text: &Vec<char>) -> (r: Vec<char>)
    ensures
        r@ == decode_html_spec(text@),
{
    let a = swap_all(text, "&amp;", "&");
    let b = swap_all(&a, "&lt;", "<");
    let c = swap_all(&b, "&gt;", ">");
    let d = swap_all(&c, "&quot;", "\"");
    let e = swap_all(&d, "&#39;", "'");
    let f = swap_all(&e, "&nbsp;", " ");
    let g = swap_all(&f, "<b>", "");
    let h = swap_all(&g, "</b>", "");
    let i = swap_all(&h, "<em>", "");
    let j = swap_all(&i, "</em>", "");
    let from = skip_spaces(&j, 0);
    let to = skip_spaces_back(&j, from, j.len());
    assert(j@.subrange(0, j@.len() as int) == j@);
    let mut out: Vec<char> = Vec::new();
    let mut k: usize = from;
    while k < to
        invariant
            from <= k <= to <= j@.len(),
            out@ == j@.subrange(from as int, k as int),
        decreases to - k,
    {
        out.push(j[k]);
        k += 1;
    }
    out
}

/// The address that a link of the results page leads to: what its
/// redirect carries, decoded, where it is a redirect of the search engine,
/// and else the link itself. A redirect that cannot be decoded leads
/// nowhere.
pub open spec fn resolved_url(raw: Seq<char>) -> Seq<char> {
    if has_prefix(raw, "//duckduckgo.com/l/?uddg="@) {
        match first_index(raw, "uddg="@, 0) {
            Some(at) => {
                let carried = raw.subrange(at + 5, raw.len() as int);
                let encoded = match first_index(carried, "&"@, 0) {
                    Some(amp) => carried.subrange(0, amp),
                    None => carried,
                };
                match decode_spec(encoded) {
                    Ok(text) => text,
                    Err(_) => Seq::empty(),
                }
            },
            None => raw,
        }
    } else {
        raw
    }
}

/// The title and the address of a result, read from its section of the
/// page: the address from the `href` of the link of class `result__a`, the
/// title from the text of the link.
pub open spec fn title_and_url(section: Seq<char>) -> Option<(Seq<char>, Seq<char>)> {
    match first_index(section, "class=\"result__a\""@, 0) {
        None => None,
        Some(link_at) => {
            let link = section.subrange(link_at, section.len() as int);
            match first_index(link, "href=\""@, 0) {
                None => None,
                Some(href_at) => match first_index(link, "\""@, href_at + 6) {
                    None => None,
                    Some(href_end) => match first_index(link, ">"@, 0) {
                        None => None,
                        Some(open_end) => match first_index(link, "</a>"@, open_end + 1) {
                            None => None,
                            Some(title_end) => Some(
                                (
                                    decode_html_spec(link.subrange(open_end + 1, title_end)),
                                    resolved_url(link.subrange(href_at + 6, href_end)),
                                ),
                            ),
                        },
                    },
                },
            }
        },
    }
}

/// The snippet of a result, read from its section of the page; empty
/// where there is none.
pub open spec fn snippet_of(section: Seq<char>) -> Seq<char> {
    match first_index(section, "class=\"result__snippet\">"@, 0) {
        None => Seq::empty(),
        Some(at) => match first_index(section, "</"@, at + 24) {
            None => Seq::empty(),
            Some(end) => decode_html_spec(section.subrange(at + 24, end)),
        },
    }
}

/// The results of a results page from the index `pos` on, `limit` of them
/// at most. A result begins at `class="result ` and goes up to the next
/// `</div>`; one without a title or an address is passed over.
pub open spec fn results_from(html: Seq<char>, pos: int, limit: nat) -> Seq<SearchResultView>
    decreases html.len() - pos,
{
    if limit == 0 || pos < 0 || pos > html.len() {
        Seq::empty()
    } else {
        match first_index(html, "class=\"result "@, pos) {
            None => Seq::empty(),
            Some(begin) => match first_index(html, "</div>"@, begin) {
                None => Seq::empty(),
                Some(end) => if end + 6 <= pos || end < begin || end + 6 > html.len() {
                    Seq::empty()
                } else {
                    let section = html.subrange(begin, end);
                    match title_and_url(section) {
                        Some((title, url)) => seq![
                            SearchResultView { title, url, snippet: snippet_of(section) },
                        ] + results_from(html, end + 6, (limit - 1) as nat),
                        None => results_from(html, end + 6, limit),
                    }
                },
            },
        }
    }
}

/// The characters `v[from..to]`.
fn slice_of(v: &Vec<char>, from: usize, to: usize) -> (r: Vec<char>)
    requires
        from <= to <= v@.len(),
    ensures
        r@ == v@.subrange(from as int, to as int),
{
    let mut out: Vec<char> = Vec::new();
    let mut k: usize = from;
    while k < to
        invariant
            from <= k <= to <= v@.len(),
            out@ == v@.subrange(from as int, k as int),
        decreases to - k,
    {
        out.push(v[k]);
        k += 1;
    }
    out
}

fn resolve_url(raw: &Vec<char>) -> (r: Vec<char>)
    ensures
        r@ == resolved_url(raw@),
{
    let total = raw.len();
    proof {
        reveal_strlit("uddg=");
        assert("uddg="@.len() == 5);
    }
    if starts_with(raw, &chars_of("//duckduckgo.com/l/?uddg=")) {
        match find_from(raw, &chars_of("uddg="), 0) {
            Some(at) => {
                let carried = slice_of(raw, at + 5, raw.len());
                let encoded = match find_from(&carried, &chars_of("&"), 0) {
                    Some(amp) => slice_of(&carried, 0, amp),
                    None => carried,
                };
                match decode(string_of(&encoded).as_str()) {
                    Ok(text) => chars_of(text.as_str()),
                    Err(_) => Vec::new(),
                }
            },
            None => slice_of(raw, 0, raw.len()),
        }
    } else {
        let r = slice_of(raw, 0, raw.len());
        assert(raw@.subrange(0, raw@.len() as int) == raw@);
        r
    }
}

/// The title and the address of a result, read from its section of the
/// page.
pub fn extract_title_and_url(section: &Vec<char>) -> (r: Option<(String, String)>)
    ensures
        match r {
            Some((title, url)) => title_and_url(section@) == Some((title@, url@)),
            None => title_and_url(section@) is None,
        },
{
    let link_at = match find_from(section, &chars_of("class=\"result__a\""), 0) {
        Some(i) => i,
        None => {
            return None;
        },
    };
    let link = slice_of(section, link_at, section.len());
    let href_at = match find_from(&link, &chars_of("href=\""), 0) {
        Some(i) => i,
        None => {
            return None;
        },
    };
    let total = link.len();
    proof {
        reveal_strlit("href=\"");
        assert("href=\""@.len() == 6);
    }
    let href_end = match find_from(&link, &chars_of("\""), href_at + 6) {
        Some(i) => i,
        None => {
            return None;
        },
    };
    let open_end = match find_from(&link, &chars_of(">"), 0) {
        Some(i) => i,
        None => {
            return None;
        },
    };
    proof {
        reveal_strlit(">");
        assert(">"@.len() == 1);
    }
    let title_end = match find_from(&link, &chars_of("</a>"), open_end + 1) {
        Some(i) => i,
        None => {
            return None;
        },
    };
    let url = resolve_url(&slice_of(&link, href_at + 6, href_end));
    let title = decode_html(&slice_of(&link, open_end + 1, title_end));
    Some((string_of(&title), string_of(&url)))
}

/// The snippet of a result, read from its section of the page.
pub fn extract_snippet(section: &Vec<char>) -> (r: String)
    ensures
        r@ == snippet_of(section@),
{
    let total = section.len();
    proof {
        reveal_strlit("class=\"result__snippet\">");
        assert("class=\"result__snippet\">"@.len() == 24);
    }
    match find_from(section, &chars_of("class=\"result__snippet\">"), 0) {
        Some(at) => {
            match find_from(section, &chars_of("</"), at + 24) {
                Some(end) => string_of(&decode_html(&slice_of(section, at + 24, end))),
                None => String::new(),
            }
        },
        None => String::new(),
    }
}

/// The results of a results page, `limit` of them at most.
pub fn parse_duckduckgo_results(html: &str, limit: usize) -> (r: Vec<SearchResult>)
    ensures
        search_results_view(r@) == results_from(html@, 0, limit as nat),
{
    let v = chars_of(html);
    let mut results: Vec<SearchResult> = Vec::new();
    let mut pos: usize = 0;
    let total = v.len();
    proof {
        reveal_strlit("</div>");
        assert("</div>"@.len() == 6);
    }
    loop
        invariant_except_break
            pos <= v@.len() == total,
            v@ == html@,
            results@.len() <= limit,
            "</div>"@.len() == 6,
            search_results_view(results@) + results_from(
                v@,
                pos as int,
                (limit - results@.len()) as nat,
            ) == results_from(v@, 0, limit as nat),
        ensures
            search_results_view(results@) == results_from(html@, 0, limit as nat),
        decreases v@.len() - pos,
    {
        if results.len() >= limit {
            break ;
        }
        let begin = match find_from(&v, &chars_of("class=\"result "), pos) {
            Some(i) => i,
            None => {
                break ;
            },
        };
        let end = match find_from(&v, &chars_of("</div>"), begin) {
            Some(i) => i,
            None => {
                break ;
            },
        };
        let section = slice_of(&v, begin, end);
        let ghost before = search_results_view(results@);
        match extract_title_and_url(&section) {
            Some((title, url)) => {
                let snippet = extract_snippet(&section);
                results.push(SearchResult { title, url, snippet });
                assert(search_results_view(results@) =~= before + seq![
                    SearchResultView { title: title@, url: url@, snippet: snippet@ },
                ]);
            },
            None => {},
        }
        pos = end + 6;
    }
    results
}

/// The address of the results page for a query.
pub open spec fn search_url_spec(query: Seq<char>) -> Seq<char> {
    "https://html.duckduckgo.com/html/?q="@ + encode_spec(query)
}

/// One result as it is shown.
pub open spec fn shown_result(index: nat, r: SearchResultView) -> Seq<char> {
    decimal_spec(index + 1) + ". "@ + r.title + "\n   URL: "@ + r.url + "\n   "@ + r.snippet
        + "\n\n"@
}

/// The results as they are shown, one after the other.
pub open spec fn shown_results(results: Seq<SearchResultView>) -> Seq<char>
    decreases results.len(),
{
    if results.len() == 0 {
        Seq::empty()
    } else {
        shown_results(results.drop_last()) + shown_result(
            (results.len() - 1) as nat,
            results.last(),
        )
    }
}

/// What `web_search` gives for the results of a query.
pub open spec fn search_text(query: Seq<char>, results: Seq<SearchResultView>) -> Seq<char> {
    if results.len() == 0 {
        "No search results found."@
    } else {
        "Found "@ + decimal_spec(results.len()) + " search results for \""@ + query + "\":\n\n"@
            + shown_results(results)
    }
}

impl WebSearch {
    /// The name of the tool.
    pub fn name() -> (r: &'static str)
        ensures
            r@ == "web_search"@,
    {
        "web_search"
    }

    /// The number of results that the call asks for: 5 where it sets
    /// none, and never more than 10.
    pub fn num_results(args: &WebSearchArgs) -> (n: usize)
        ensures
            n == match args.num_results {
                Some(k) => if k < MAX_NUM_RESULTS {
                    k
                } else {
                    MAX_NUM_RESULTS
                },
                None => DEFAULT_NUM_RESULTS,
            },
    {
        match args.num_results {
            Some(k) => if k < MAX_NUM_RESULTS {
                k
            } else {
                MAX_NUM_RESULTS
            },
            None => DEFAULT_NUM_RESULTS,
        }
    }

    /// The address of the results page for the query of the call, or the
    /// error for a query that holds nothing but whitespace.
    pub fn search_url(args: &WebSearchArgs) -> (r: Result<String, ToolError>)
        ensures
            match r {
                Ok(url) => trim_spec(args.query@).len() > 0 && url@ == search_url_spec(
                    args.query@,
                ),
                Err(e) => trim_spec(args.query@).len() == 0 && e@
                    == ToolErrorView::InvalidArguments("Search query cannot be empty"@),
            },
    {
        if chars_of(trim(args.query.as_str()).as_str()).len() == 0 {
            return Err(ToolError::invalid_arguments("Search query cannot be empty"));
        }
        Ok(joined("https://html.duckduckgo.com/html/?q=", encode(args.query.as_str()).as_str()))
    }

    /// The text of the error for a results page that came with a status
    /// that is no success.
    pub fn status_error(status: &str) -> (e: ToolError)
        ensures
            e@ == ToolErrorView::Http("Search request failed with status: "@ + status@),
    {
        ToolError::Http(joined("Search request failed with status: ", status))
    }

    /// What the tool gives for the results page `html`: the results that
    /// the page holds, as many as the call asks for, or a note that there
    /// are none.
    pub fn render(args: &WebSearchArgs, html: &str) -> (r: String)
        ensures
            r@ == search_text(
                args.query@,
                results_from(
                    html@,
                    0,
                    match args.num_results {
                        Some(k) => if k < MAX_NUM_RESULTS {
                            k as nat
                        } else {
                            MAX_NUM_RESULTS as nat
                        },
                        None => DEFAULT_NUM_RESULTS as nat,
                    },
                ),
            ),
    {
        let results = parse_duckduckgo_results(html, Self::num_results(args));
        if results.len() == 0 {
            return "No search results found.".to_owned();
        }
        let ghost rv = search_results_view(results@);
        let mut body: Vec<char> = Vec::new();
        let mut i: usize = 0;
        assert(rv.take(0) =~= Seq::<SearchResultView>::empty());
        while i < results.len()
            invariant
                i <= results@.len(),
                rv == search_results_view(results@),
                body@ == shown_results(rv.take(i as int)),
            decreases results@.len() - i,
        {
            let mut one: Vec<char> = Vec::new();
            push_decimal(&mut one, (i + 1) as u64);
            extend_str(&mut one, ". ");
            extend_str(&mut one, results[i].title.as_str());
            extend_str(&mut one, "\n   URL: ");
            extend_str(&mut one, results[i].url.as_str());
            extend_str(&mut one, "\n   ");
            extend_str(&mut one, results[i].snippet.as_str());
            extend_str(&mut one, "\n\n");
            assert(one@ =~= shown_result(i as nat, rv[i as int]));
            extend_chars(&mut body, &one);
            assert(rv.take(i + 1).drop_last() == rv.take(i as int));
            assert(rv.take(i + 1).last() == rv[i as int]);
            i += 1;
        }
        assert(rv.take(rv.len() as int) == rv);
        let mut out = chars_of("Found ");
        push_decimal(&mut out, results.len() as u64);
        extend_str(&mut out, " search results for \"");
        extend_str(&mut out, args.query.as_str());
        extend_str(&mut out, "\":\n\n");
        extend_chars(&mut out, &body);
        string_of(&out)
    }
}

} // verus!
