//! The inspection of one URL: where to look the host up, and what a response
//! and its page tell.

use crate::text::{trim_bounds, trimmed};
use scraper::{Html, Selector};
use url::Url;
use vstd::prelude::*;
use vstd::string::StringExecFns;

verus! {

/// The port that a URL without one is looked up with.
pub const DEFAULT_LOOKUP_PORT: u16 = 443;

/// Which of the headers that guard a page a response carries.
pub struct SecurityHeaders {
    pub hsts: bool,
    pub csp: bool,
    pub x_frame_options: bool,
}

/// What the inspection of one URL found.
pub struct UrlAnalysisResult {
    pub url: String,
    pub ip_addresses: Vec<String>,
    pub response_time_ms: u128,
    pub http_status: u16,
    pub content_type: String,
    pub content_length: u64,
    pub server: String,
    pub powered_by: String,
    pub page_title: Option<String>,
    pub meta_description: Option<String>,
    pub robots_txt_found: bool,
    pub technologies: Vec<String>,
    pub security_headers: SecurityHeaders,
}

/// One header of a response.
pub enum HeaderText {
    /// The response has no such header.
    Missing,
    /// The header is there, and its value is no visible ASCII text.
    Unreadable,
    /// The header's value.
    Text(String),
}

/// What the inspection reads of a response before its body.
pub struct ResponseHead {
    pub status: u16,
    pub has_hsts: bool,
    pub has_csp: bool,
    pub has_x_frame_options: bool,
    pub content_type: HeaderText,
    pub server: HeaderText,
    pub powered_by: HeaderText,
    pub content_length: Option<u64>,
}

/// Where to look up the host of a URL, and where its robots file is.
pub struct DomainPlan {
    pub host: String,
    pub port: u16,
    pub robots_url: Option<String>,
}

/// The host of the URL that a text is, where it is one and has a host.
pub uninterp spec fn url_host_of(url: Seq<char>) -> Option<Seq<char>>;

/// The port that the URL that a text is names, where it is one and names a
/// port other than its scheme's own.
pub uninterp spec fn url_port_of(url: Seq<char>) -> Option<u16>;

/// The URL that a reference gives when resolved against the URL that a text
/// is, where the text is one and the reference resolves.
pub uninterp spec fn url_joined(url: Seq<char>, reference: Seq<char>) -> Option<Seq<char>>;

/// Whether an element of the parsed page matches a selector group: nothing
/// where the selector group is malformed.
pub uninterp spec fn selector_hits(body: Seq<char>, selector: Seq<char>) -> Option<bool>;

/// The inner HTML of the first element of the parsed page that matches a
/// selector group.
pub uninterp spec fn first_inner_html(body: Seq<char>, selector: Seq<char>) -> Option<Seq<char>>;

/// The value of an attribute of the first element of the parsed page that
/// matches a selector group.
pub uninterp spec fn first_attribute(
    body: Seq<char>,
    selector: Seq<char>,
    name: Seq<char>,
) -> Option<Seq<char>>;

/// Calls `Url::parse` and, on the URL, `Url::host_str`. The result depends
/// on the text alone and is named by `url_host_of`.
#[verifier::external_body]
fn url_host(url: &str) -> (r: Option<String>)
    ensures
        r is Some <==> url_host_of(url@) is Some,
        r is Some ==> r->0@ == url_host_of(url@)->0,
{
    match Url::parse(url) {
        Ok(parsed) => parsed.host_str().map(str::to_string),
        Err(_) => None,
    }
}

/// Calls `Url::parse` and, on the URL, `Url::port`. The result depends on
/// the text alone and is named by `url_port_of`.
#[verifier::external_body]
fn url_port(url: &str) -> (r: Option<u16>)
    ensures
        r == url_port_of(url@),
{
    match Url::parse(url) {
        Ok(parsed) => parsed.port(),
        Err(_) => None,
    }
}

/// Calls `Url::parse` and, on the URL, `Url::join`. The result depends on
/// the two texts alone and is named by `url_joined`.
#[verifier::external_body]
fn url_join(url: &str, reference: &str) -> (r: Option<String>)
    ensures
        r is Some <==> url_joined(url@, reference@) is Some,
        r is Some ==> r->0@ == url_joined(url@, reference@)->0,
{
    match Url::parse(url) {
        Ok(parsed) => match parsed.join(reference) {
            Ok(joined) => Some(joined.as_str().to_string()),
            Err(_) => None,
        },
        Err(_) => None,
    }
}

/// Calls `Html::parse_document`, `Selector::parse` and `Html::select`, and
/// asks for the first match. The result depends on the two texts alone and is
/// named by `selector_hits`.
#[verifier::external_body]
fn select_any(body: &str, selector: &str) -> (r: Option<bool>)
    ensures
        r == selector_hits(body@, selector@),
{
    match Selector::parse(selector) {
        Ok(parsed) => Some(Html::parse_document(body).select(&parsed).next().is_some()),
        Err(_) => None,
    }
}

/// Calls `Html::parse_document`, `Selector::parse` and `Html::select`, and
/// `ElementRef::inner_html` on the first match. The result depends on the two
/// texts alone and is named by `first_inner_html`.
#[verifier::external_body]
fn select_inner_html(body: &str, selector: &str) -> (r: Option<String>)
    ensures
        r is Some <==> first_inner_html(body@, selector@) is Some,
        r is Some ==> r->0@ == first_inner_html(body@, selector@)->0,
{
    match Selector::parse(selector) {
        Ok(parsed) => match Html::parse_document(body).select(&parsed).next() {
            Some(element) => Some(element.inner_html()),
            None => None,
        },
        Err(_) => None,
    }
}

/// Calls `Html::parse_document`, `Selector::parse` and `Html::select`, and
/// `Element::attr` on the first match. The result depends on the three texts
/// alone and is named by `first_attribute`.
#[verifier::external_body]
fn select_attribute(body: &str, selector: &str, name: &str) -> (r: Option<String>)
    ensures
        r is Some <==> first_attribute(body@, selector@, name@) is Some,
        r is Some ==> r->0@ == first_attribute(body@, selector@, name@)->0,
{
    match Selector::parse(selector) {
        Ok(parsed) => match Html::parse_document(body).select(&parsed).next() {
            Some(element) => element.value().attr(name).map(str::to_string),
            None => None,
        },
        Err(_) => None,
    }
}

/// Whether a status code stands for success: 200 to 299.
pub open spec fn is_success(status: u16) -> bool {
    200 <= status < 300
}

/// Whether the robots file was found: its request was answered, with success.
pub fn robots_found(status: Option<u16>) -> (r: bool)
    ensures
        r == (status is Some && is_success(status->0)),
{
    match status {
        Some(code) => 200 <= code && code < 300,
        None => false,
    }
}

/// The plan that the named parts of a URL give: none without a host, the
/// default port where the URL names none.
pub open spec fn plan_fits(
    host: Option<Seq<char>>,
    port: Option<u16>,
    robots: Option<Seq<char>>,
    plan: Option<DomainPlan>,
) -> bool {
    match host {
        None => plan is None,
        Some(h) => {
            &&& plan is Some
            &&& plan->0.host@ == h
            &&& plan->0.port == match port {
                Some(p) => p,
                None => DEFAULT_LOOKUP_PORT,
            }
            &&& plan->0.robots_url is Some <==> robots is Some
            &&& robots is Some ==> plan->0.robots_url->0@ == robots->0
        },
    }
}

/// Puts the parts of a URL together to a plan.
pub fn plan_from_parts(host: Option<String>, port: Option<u16>, robots: Option<String>) -> (r:
    Option<DomainPlan>)
    ensures
        plan_fits(
            match host {
                Some(h) => Some(h@),
                None => None,
            },
            port,
            match robots {
                Some(u) => Some(u@),
                None => None,
            },
            r,
        ),
{
    match host {
        None => None,
        Some(h) => Some(
            DomainPlan {
                host: h,
                port: match port {
                    Some(p) => p,
                    None => DEFAULT_LOOKUP_PORT,
                },
                robots_url: robots,
            },
        ),
    }
}

/// Says where to look up the host of a URL and where its robots file is:
/// nothing where the text is no URL or has no host.
pub fn domain_plan(url: &str) -> (r: Option<DomainPlan>)
    ensures
        plan_fits(url_host_of(url@), url_port_of(url@), url_joined(url@, "/robots.txt"@), r),
{
    let host = url_host(url);
    let port = url_port(url);
    let robots = url_join(url, "/robots.txt");
    plan_from_parts(host, port, robots)
}

/// A text without the white space at either end.
pub fn trim_text(s: &str) -> (r: String)
    ensures
        r@ == trimmed(s@),
{
    let n: usize = s.unicode_len();
    assert(s@.subrange(0, n as int) =~= s@);
    let (i, j) = trim_bounds(s, 0, n);
    s.substring_char(i, j).to_owned()
}

/// The title of a page: the inner HTML of its first `title` element,
/// trimmed.
pub open spec fn title_of(inner: Option<Seq<char>>) -> Option<Seq<char>> {
    match inner {
        Some(html) => Some(trimmed(html)),
        None => None,
    }
}

/// Whether a text that may be missing is the given one.
pub open spec fn same_text(got: Option<String>, want: Option<Seq<char>>) -> bool {
    match want {
        Some(w) => got is Some && got->0@ == w,
        None => got is None,
    }
}

/// Makes the title of the inner HTML of a page's `title` element.
pub fn page_title(inner: Option<String>) -> (r: Option<String>)
    ensures
        same_text(
            r,
            title_of(
                match inner {
                    Some(html) => Some(html@),
                    None => None,
                },
            ),
        ),
{
    match inner {
        Some(html) => Some(trim_text(html.as_str())),
        None => None,
    }
}

/// Finds the title of a page and the description that its `meta` element
/// gives.
pub fn find_meta_info(body: &str) -> (r: (Option<String>, Option<String>))
    ensures
        same_text(r.0, title_of(first_inner_html(body@, "title"@))),
        same_text(r.1, first_attribute(body@, "meta[name='description']"@, "content"@)),
{
    let title = page_title(select_inner_html(body, "title"));
    let description = select_attribute(body, "meta[name='description']", "content");
    (title, description)
}

/// The texts of a sequence of strings.
pub open spec fn texts(names: Seq<String>) -> Seq<Seq<char>> {
    names.map_values(|s: String| s@)
}

/// A name where its selector group hit, nothing where it did not or was
/// malformed.
pub open spec fn named_if(hit: Option<bool>, name: Seq<char>) -> Seq<Seq<char>> {
    if hit == Some(true) {
        seq![name]
    } else {
        Seq::empty()
    }
}

/// The technologies whose selector groups hit, in the order of their names
/// as bytes.
pub open spec fn technologies_of(
    bootstrap: Option<bool>,
    react: Option<bool>,
    wordpress: Option<bool>,
    jquery: Option<bool>,
) -> Seq<Seq<char>> {
    named_if(bootstrap, "Bootstrap"@) + named_if(react, "React"@) + named_if(
        wordpress,
        "WordPress"@,
    ) + named_if(jquery, "jQuery"@)
}

/// Adds a name to a list where its selector group hit.
fn push_if(found: &mut Vec<String>, hit: Option<bool>, name: &str)
    ensures
        texts(final(found)@) == texts(old(found)@) + named_if(hit, name@),
{
    match hit {
        Some(true) => {
            found.push(name.to_owned());
            assert(texts(found@) =~= texts(old(found)@) + named_if(hit, name@));
        },
        _ => {
            assert(texts(found@) =~= texts(old(found)@) + named_if(hit, name@));
        },
    }
}

/// Lists the technologies of a page by what its four selector groups hit.
pub fn technologies_from_hits(
    bootstrap: Option<bool>,
    react: Option<bool>,
    wordpress: Option<bool>,
    jquery: Option<bool>,
) -> (r: Vec<String>)
    ensures
        texts(r@) == technologies_of(bootstrap, react, wordpress, jquery),
{
    let mut found: Vec<String> = Vec::new();
    assert(texts(found@) =~= Seq::<Seq<char>>::empty());
    push_if(&mut found, bootstrap, "Bootstrap");
    push_if(&mut found, react, "React");
    push_if(&mut found, wordpress, "WordPress");
    push_if(&mut found, jquery, "jQuery");
    assert(texts(found@) =~= technologies_of(bootstrap, react, wordpress, jquery));
    found
}

/// The technologies that a page shows signs of.
pub open spec fn technologies_in(body: Seq<char>) -> Seq<Seq<char>> {
    technologies_of(
        selector_hits(body, "link[href*='bootstrap'], script[src*='bootstrap']"@),
        selector_hits(body, "[data-reactroot], [data-reactid]"@),
        selector_hits(
            body,
            "link[href*='wp-content'], script[src*='wp-content'], meta[name='generator'][content*='WordPress']"@,
        ),
        selector_hits(body, "script[src*='jquery']"@),
    )
}

/// Finds the technologies that a page shows signs of, each named once, the
/// names in the order of their bytes.
pub fn find_technologies(body: &str) -> (r: Vec<String>)
    ensures
        texts(r@) == technologies_in(body@),
{
    let wordpress = select_any(
        body,
        "link[href*='wp-content'], script[src*='wp-content'], meta[name='generator'][content*='WordPress']",
    );
    let jquery = select_any(body, "script[src*='jquery']");
    let react = select_any(body, "[data-reactroot], [data-reactid]");
    let bootstrap = select_any(body, "link[href*='bootstrap'], script[src*='bootstrap']");
    technologies_from_hits(bootstrap, react, wordpress, jquery)
}

/// The text of a header that must be there.
pub open spec fn header_text(header: HeaderText) -> Option<Seq<char>> {
    match header {
        HeaderText::Text(s) => Some(s@),
        _ => None,
    }
}

/// What stands for a missing `X-Powered-By` header.
pub open spec fn unknown_text() -> Seq<char> {
    "Bilinmiyor"@
}

/// Puts the result of an inspection together. There is none unless the
/// response names its content type and its server in readable text.
pub fn assemble_analysis(
    url: &str,
    response_time_ms: u128,
    head: ResponseHead,
    ip_addresses: Vec<String>,
    robots_txt_found: bool,
    body: &str,
) -> (r: Option<UrlAnalysisResult>)
    ensures
        r is Some <==> head.content_type is Text && head.server is Text,
        r is Some ==> {
            &&& r->0.url@ == url@
            &&& r->0.ip_addresses == ip_addresses
            &&& r->0.response_time_ms == response_time_ms
            &&& r->0.http_status == head.status
            &&& Some(r->0.content_type@) == header_text(head.content_type)
            &&& Some(r->0.server@) == header_text(head.server)
            &&& r->0.powered_by@ == match head.powered_by {
                HeaderText::Text(s) => s@,
                _ => unknown_text(),
            }
            &&& r->0.content_length == match head.content_length {
                Some(n) => n,
                None => 0,
            }
            &&& r->0.robots_txt_found == robots_txt_found
            &&& r->0.security_headers.hsts == head.has_hsts
            &&& r->0.security_headers.csp == head.has_csp
            &&& r->0.security_headers.x_frame_options == head.has_x_frame_options
            &&& same_text(r->0.page_title, title_of(first_inner_html(body@, "title"@)))
            &&& same_text(
                r->0.meta_description,
                first_attribute(body@, "meta[name='description']"@, "content"@),
            )
            &&& texts(r->0.technologies@) == technologies_in(body@)
        },
{
    let content_type = match head.content_type {
        HeaderText::Text(s) => s,
        _ => { return None; },
    };
    let server = match head.server {
        HeaderText::Text(s) => s,
        _ => { return None; },
    };
    let powered_by = match head.powered_by {
        HeaderText::Text(s) => s,
        _ => "Bilinmiyor".to_owned(),
    };
    let content_length: u64 = match head.content_length {
        Some(n) => n,
        None => 0,
    };
    let (page_title, meta_description) = find_meta_info(body);
    let technologies = find_technologies(body);
    Some(
        UrlAnalysisResult {
            url: url.to_owned(),
            ip_addresses,
            response_time_ms,
            http_status: head.status,
            content_type,
            content_length,
            server,
            powered_by,
            page_title,
            meta_description,
            robots_txt_found,
            technologies,
            security_headers: SecurityHeaders {
                hsts: head.has_hsts,
                csp: head.has_csp,
                x_frame_options: head.has_x_frame_options,
            },
        },
    )
}

} // verus!
