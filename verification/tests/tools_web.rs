use agent_t::tool_args::{WebFetchArgs, WebSearchArgs};
use agent_t::tools::web::{
    decode, decode_html, encode, extract_snippet, extract_title_and_url, parse_duckduckgo_results,
    FetchPlan, FetchResponse, ParsedUrl, WebFetch, WebSearch,
};

fn fetch_args(url: &str, kb: Option<usize>) -> WebFetchArgs {
    WebFetchArgs { url: url.to_string(), size_limit_kb: kb }
}

#[test]
fn addresses_are_checked_before_a_fetch() {
    let plan = WebFetch::plan(&fetch_args("https://Example.com/a b?q=1", None)).unwrap();
    assert_eq!(plan.url, "https://example.com/a%20b?q=1");
    assert_eq!(plan.size_limit, 100 * 1024);
    assert_eq!(WebFetch::plan(&fetch_args("http://example.com", Some(1))).unwrap().size_limit, 1024);
    assert_eq!(
        WebFetch::plan(&fetch_args("http://example.com", Some(9999))).unwrap().size_limit,
        500 * 1024
    );
    assert_eq!(WebFetch::size_limit(&fetch_args("x", Some(0))), 0);
    assert_eq!(WebFetch::size_limit(&fetch_args("x", Some(usize::MAX))), 512_000);
    let error = |url: &str| WebFetch::plan(&fetch_args(url, None)).unwrap_err().message();
    assert_eq!(
        error("file:///etc/passwd"),
        "Invalid URL: Only HTTP and HTTPS URLs are allowed, got: file"
    );
    assert_eq!(
        error("ftp://example.com/"),
        "Invalid URL: Only HTTP and HTTPS URLs are allowed, got: ftp"
    );
    assert!(error("not a url").starts_with("Invalid URL: Invalid URL: "));
    for private in [
        "http://localhost/",
        "http://LOCALHOST:8080/x",
        "http://127.0.0.1/",
        "https://192.168.1.1/",
        "http://10.0.0.8/",
        "http://172.16.0.1/",
        "http://172.31.255.255/",
    ] {
        assert_eq!(
            error(private),
            "Invalid URL: Cannot fetch from localhost or private IP addresses",
            "{}",
            private
        );
    }
    for public in ["http://172.15.0.1/", "http://172.32.0.1/", "http://11.0.0.1/", "http://example.com/"] {
        assert!(WebFetch::plan(&fetch_args(public, None)).is_ok(), "{}", public);
    }
}

#[test]
fn a_decision_on_an_address_that_was_read() {
    let parsed = ParsedUrl {
        scheme: "https".to_string(),
        host: Some("10.example.com".to_string()),
        text: "https://10.example.com/".to_string(),
    };
    assert_eq!(
        WebFetch::check(Ok(parsed), 5).unwrap_err().message(),
        "Invalid URL: Cannot fetch from localhost or private IP addresses"
    );
    let parsed = ParsedUrl { scheme: "http".to_string(), host: None, text: "http:x".to_string() };
    let plan = WebFetch::check(Ok(parsed), 5).unwrap();
    assert_eq!(plan.url, "http:x");
    assert_eq!(plan.size_limit, 5);
    assert_eq!(
        WebFetch::check(Err("empty host".to_string()), 5).unwrap_err().message(),
        "Invalid URL: Invalid URL: empty host"
    );
}

fn response(status: u16, content_type: Option<&str>, body: &str) -> FetchResponse {
    FetchResponse {
        status,
        reason: Some("Not Found".to_string()),
        final_url: "https://example.com/final".to_string(),
        content_type: content_type.map(|t| t.to_string()),
        body_len: body.len(),
        body: body.to_string(),
    }
}

#[test]
fn answers_are_passed_on_or_refused() {
    let plan = FetchPlan { url: "https://example.com/".to_string(), size_limit: 20 };
    assert_eq!(
        WebFetch::render(&plan, &response(200, Some("text/plain"), "  hello \n")).unwrap(),
        "Status: 200\nContent-Type: text/plain\nFinal URL: https://example.com/final\nSize: 9 bytes\n\nhello\n"
    );
    assert_eq!(
        WebFetch::render(&plan, &response(299, None, "x")).unwrap(),
        "Status: 299\nContent-Type: unknown\nFinal URL: https://example.com/final\nSize: 1 bytes\n\nx\n"
    );
    assert_eq!(
        WebFetch::render(&plan, &response(404, Some("text/plain"), "x")).unwrap_err().message(),
        "HTTP error: HTTP 404 Not Found"
    );
    let mut no_reason = response(599, None, "x");
    no_reason.reason = None;
    assert_eq!(
        WebFetch::render(&plan, &no_reason).unwrap_err().message(),
        "HTTP error: HTTP 599 Unknown"
    );
    assert!(WebFetch::render(&plan, &response(199, None, "x")).is_err());
    assert!(WebFetch::render(&plan, &response(300, None, "x")).is_err());
    assert!(WebFetch::render(&plan, &response(200, None, &"x".repeat(20))).is_ok());
    assert_eq!(
        WebFetch::render(&plan, &response(200, None, &"x".repeat(21))).unwrap_err().message(),
        "HTTP error: Response size (21 bytes) exceeds limit (20 bytes)"
    );
}

#[test]
fn a_page_is_turned_into_text() {
    let plan = FetchPlan { url: "https://example.com/".to_string(), size_limit: 10_000 };
    let page = "<html><body><h1>Title</h1><p>Some <b>bold</b> text.</p></body></html>";
    let shown = WebFetch::render(&plan, &response(200, Some("text/html; charset=utf-8"), page)).unwrap();
    assert!(shown.starts_with("Status: 200\nContent-Type: text/html; charset=utf-8\n"));
    assert!(shown.contains("Title"));
    assert!(shown.contains("bold"));
    assert!(!shown.contains("<h1>"));
    assert!(!shown.contains("<p>"));
    // what is no page stays as it is
    let shown = WebFetch::render(&plan, &response(200, Some("text/plain"), page)).unwrap();
    assert!(shown.contains("<h1>Title</h1>"));
    assert_eq!(
        WebFetch::finish(10, &response(200, Some("text/html"), "x"), Err("too narrow".to_string()))
            .unwrap_err()
            .message(),
        "Failed to convert HTML: too narrow"
    );
    assert_eq!(
        WebFetch::finish(10, &response(200, Some("text/html"), "x"), Ok(" text ".to_string())).unwrap(),
        "Status: 200\nContent-Type: text/html\nFinal URL: https://example.com/final\nSize: 1 bytes\n\ntext\n"
    );
    assert_eq!(
        WebFetch::compose(&response(200, Some("a/b"), "ignored"), "\n shown \n"),
        "Status: 200\nContent-Type: a/b\nFinal URL: https://example.com/final\nSize: 7 bytes\n\nshown\n"
    );
}

#[test]
fn queries_are_encoded_and_decoded() {
    assert_eq!(encode("rust verus"), "rust+verus");
    assert_eq!(encode("a-b_c.d~e"), "a-b_c.d~e");
    assert_eq!(encode("a&b=c/d?e"), "a%26b%3Dc%2Fd%3Fe");
    assert_eq!(encode("100%"), "100%25");
    assert_eq!(encode("\n"), "%0A");
    // a character beyond one byte is written by the low byte of its code
    assert_eq!(encode("\u{e9}"), "%E9");
    assert_eq!(encode("\u{20ac}"), "%AC");
    assert_eq!(encode(""), "");
    assert_eq!(decode("rust+verus"), Ok("rust verus".to_string()));
    assert_eq!(decode("a%26b%3dc"), Ok("a&b=c".to_string()));
    assert_eq!(decode("%E9"), Ok("\u{e9}".to_string()));
    assert_eq!(decode("%+f"), Ok("\u{f}".to_string()));
    assert_eq!(decode(""), Ok(String::new()));
    assert_eq!(decode("%"), Err("Incomplete percent encoding".to_string()));
    assert_eq!(decode("%4"), Err("Incomplete percent encoding".to_string()));
    assert_eq!(decode("ok%zz"), Err("Invalid hex encoding".to_string()));
    assert_eq!(decode("%4g"), Err("Invalid hex encoding".to_string()));
    assert_eq!(decode("%-1"), Err("Invalid hex encoding".to_string()));
    assert_eq!(decode("%++"), Err("Invalid hex encoding".to_string()));
    assert_eq!(decode("%\u{e9}"), Err("Invalid hex encoding".to_string()));
    assert_eq!(decode("%a\u{e9}"), Err("Incomplete percent encoding".to_string()));
    assert_eq!(decode("%zz%"), Err("Invalid hex encoding".to_string()));
    for text in ["hello world", "a+b", "x=1&y=2", "~tilde~", "tab\there"] {
        assert_eq!(decode(&encode(text)), Ok(text.to_string()));
    }
}

fn chars(text: &str) -> Vec<char> {
    text.chars().collect()
}

fn text(v: Vec<char>) -> String {
    v.into_iter().collect()
}

#[test]
fn entities_are_taken_out() {
    assert_eq!(text(decode_html(&chars("  a &amp; b &lt;c&gt; &quot;d&quot; &#39;e&#39;&nbsp;f "))), "a & b <c> \"d\" 'e' f");
    assert_eq!(text(decode_html(&chars("<b>bold</b> and <em>em</em>"))), "bold and em");
    assert_eq!(text(decode_html(&chars("&amp;lt;"))), "<");
    assert_eq!(text(decode_html(&chars("&nbsp;"))), "");
    assert_eq!(text(decode_html(&chars(""))), "");
}

const PAGE: &str = "<html><div class=\"result results_links\">\n<h2><a rel=\"nofollow\" class=\"result__a\" href=\"//duckduckgo.com/l/?uddg=https%3A%2F%2Fwww.rust%2Dlang.org%2F&amp;rut=abc\">The <b>Rust</b> Language</a></h2>\n<a class=\"result__snippet\">A language &amp; more</a>\n</div>\n<div class=\"result no-link\"><span>nothing here</span></div>\n<div class=\"result results_links\"><a class=\"result__a\" href=\"https://example.com/x\">Example</a></div>\n<div class=\"result x\"><a class=\"result__a\" href=\"https://third.example/\">Third</a><a class=\"result__snippet\">3rd</a></div></html>";

#[test]
fn results_are_read_from_the_page() {
    let results = parse_duckduckgo_results(PAGE, 10);
    assert_eq!(results.len(), 3);
    assert_eq!(results[0].title, "The Rust Language");
    assert_eq!(results[0].url, "https://www.rust-lang.org/");
    assert_eq!(results[0].snippet, "A language & more");
    assert_eq!(results[1].title, "Example");
    assert_eq!(results[1].url, "https://example.com/x");
    assert_eq!(results[1].snippet, "");
    assert_eq!(results[2].title, "Third");
    assert_eq!(results[2].snippet, "3rd");
    assert_eq!(parse_duckduckgo_results(PAGE, 2).len(), 2);
    assert_eq!(parse_duckduckgo_results(PAGE, 1)[0].title, "The Rust Language");
    assert_eq!(parse_duckduckgo_results(PAGE, 0).len(), 0);
    assert_eq!(parse_duckduckgo_results("", 5).len(), 0);
    assert_eq!(parse_duckduckgo_results("<div class=\"result x\"> no end", 5).len(), 0);
}

#[test]
fn parts_of_a_result() {
    assert_eq!(
        extract_title_and_url(&chars("<a class=\"result__a\" href=\"u\">T</a>")),
        Some(("T".to_string(), "u".to_string()))
    );
    assert_eq!(extract_title_and_url(&chars("<a class=\"result__a\" href=\"u\">T")), None);
    assert_eq!(extract_title_and_url(&chars("<a class=\"result__a\" href=\"u>T</a>")), None);
    assert_eq!(extract_title_and_url(&chars("<a class=\"other\" href=\"u\">T</a>")), None);
    assert_eq!(extract_title_and_url(&chars("class=\"result__a\"")), None);
    // a redirect that cannot be decoded leads nowhere
    assert_eq!(
        extract_title_and_url(&chars("class=\"result__a\" href=\"//duckduckgo.com/l/?uddg=%zz\">T</a>")),
        Some(("T".to_string(), String::new()))
    );
    assert_eq!(
        extract_title_and_url(&chars("class=\"result__a\" href=\"//duckduckgo.com/l/?uddg=a%20b\">T</a>")),
        Some(("T".to_string(), "a b".to_string()))
    );
    assert_eq!(extract_snippet(&chars("x class=\"result__snippet\"> hi <b>there</b> </a>")), "hi there");
    assert_eq!(extract_snippet(&chars("x class=\"result__snippet\">unclosed")), "");
    assert_eq!(extract_snippet(&chars("none")), "");
}

#[test]
fn a_search_is_put_together_and_shown() {
    let args = WebSearchArgs { query: "rust lang".to_string(), num_results: None };
    assert_eq!(WebSearch::num_results(&args), 5);
    assert_eq!(
        WebSearch::search_url(&args).unwrap(),
        "https://html.duckduckgo.com/html/?q=rust+lang"
    );
    let blank = WebSearchArgs { query: " \t\n".to_string(), num_results: Some(50) };
    assert_eq!(WebSearch::num_results(&blank), 10);
    assert_eq!(
        WebSearch::search_url(&blank).unwrap_err().message(),
        "Invalid arguments: Search query cannot be empty"
    );
    assert_eq!(WebSearch::render(&args, "<html></html>"), "No search results found.");
    let two = WebSearchArgs { query: "rust \"lang\"".to_string(), num_results: Some(2) };
    assert_eq!(
        WebSearch::render(&two, PAGE),
        "Found 2 search results for \"rust \"lang\"\":\n\n1. The Rust Language\n   URL: https://www.rust-lang.org/\n   A language & more\n\n2. Example\n   URL: https://example.com/x\n   \n\n"
    );
    assert_eq!(
        WebSearch::status_error("503 Service Unavailable").message(),
        "HTTP error: Search request failed with status: 503 Service Unavailable"
    );
}
