use portscanner::page::{
    assemble_analysis, domain_plan, find_meta_info, find_technologies, page_title,
    plan_from_parts, robots_found, technologies_from_hits, trim_text, HeaderText, ResponseHead,
};

fn head() -> ResponseHead {
    ResponseHead {
        status: 200,
        has_hsts: true,
        has_csp: false,
        has_x_frame_options: true,
        content_type: HeaderText::Text(String::from("text/html")),
        server: HeaderText::Text(String::from("nginx")),
        powered_by: HeaderText::Missing,
        content_length: None,
    }
}

const PAGE: &str = "<html><head><title>  Hello page \n</title>\
<meta name='description' content=' A page '>\
<script src='/js/jquery.min.js'></script>\
<link href='/css/bootstrap.css' rel='stylesheet'></head>\
<body><div data-reactroot=''>x</div></body></html>";

#[test]
fn success_is_two_hundred_to_two_hundred_ninety_nine() {
    assert!(!robots_found(None));
    assert!(!robots_found(Some(199)));
    assert!(robots_found(Some(200)));
    assert!(robots_found(Some(204)));
    assert!(robots_found(Some(299)));
    assert!(!robots_found(Some(300)));
    assert!(!robots_found(Some(404)));
}

#[test]
fn plan_has_host_port_and_robots_file() {
    let plan = domain_plan("https://example.com/a/b?q=1").unwrap();
    assert_eq!(plan.host, "example.com");
    assert_eq!(plan.port, 443);
    assert_eq!(plan.robots_url, Some(String::from("https://example.com/robots.txt")));
    let plan = domain_plan("http://example.com:8080/x").unwrap();
    assert_eq!(plan.host, "example.com");
    assert_eq!(plan.port, 8080);
    assert_eq!(plan.robots_url, Some(String::from("http://example.com:8080/robots.txt")));
    let plan = domain_plan("http://example.com").unwrap();
    assert_eq!(plan.port, 443);
}

#[test]
fn no_plan_without_a_host() {
    assert!(domain_plan("not a url").is_none());
    assert!(domain_plan("").is_none());
    assert!(domain_plan("mailto:someone@example.com").is_none());
}

#[test]
fn plan_from_parts_takes_the_default_port() {
    assert!(plan_from_parts(None, Some(80), Some(String::from("x"))).is_none());
    let plan = plan_from_parts(Some(String::from("h")), None, None).unwrap();
    assert_eq!(plan.host, "h");
    assert_eq!(plan.port, 443);
    assert_eq!(plan.robots_url, None);
    let plan = plan_from_parts(Some(String::from("h")), Some(81), Some(String::from("r"))).unwrap();
    assert_eq!(plan.port, 81);
    assert_eq!(plan.robots_url, Some(String::from("r")));
}

#[test]
fn trims_texts() {
    assert_eq!(trim_text("  a b \n"), "a b");
    assert_eq!(trim_text(""), "");
    assert_eq!(trim_text(" \t "), "");
    assert_eq!(page_title(Some(String::from(" T "))), Some(String::from("T")));
    assert_eq!(page_title(None), None);
}

#[test]
fn finds_title_and_description() {
    let (title, description) = find_meta_info(PAGE);
    assert_eq!(title, Some(String::from("Hello page")));
    assert_eq!(description, Some(String::from(" A page ")));
    let (title, description) = find_meta_info("<p>nothing</p>");
    assert_eq!(title, None);
    assert_eq!(description, None);
    let (_, description) = find_meta_info("<meta name='description'>");
    assert_eq!(description, None);
}

#[test]
fn finds_technologies_in_byte_order() {
    assert_eq!(find_technologies(PAGE), vec!["Bootstrap", "React", "jQuery"]);
    assert_eq!(find_technologies("<p>plain</p>"), Vec::<String>::new());
    let wp = "<meta name='generator' content='WordPress 6.0'><script src='/x/jquery.js'></script>";
    assert_eq!(find_technologies(wp), vec!["WordPress", "jQuery"]);
    let both = "<link href='/wp-content/a.css'><script src='/wp-content/b.js'></script>";
    assert_eq!(find_technologies(both), vec!["WordPress"]);
    let mut sorted = find_technologies(PAGE);
    sorted.sort();
    sorted.dedup();
    assert_eq!(sorted, find_technologies(PAGE));
}

#[test]
fn names_technologies_by_their_hits() {
    assert_eq!(
        technologies_from_hits(Some(true), Some(true), Some(true), Some(true)),
        vec!["Bootstrap", "React", "WordPress", "jQuery"]
    );
    assert_eq!(
        technologies_from_hits(Some(false), None, Some(true), Some(false)),
        vec!["WordPress"]
    );
    assert_eq!(technologies_from_hits(None, None, None, None), Vec::<String>::new());
}

#[test]
fn assembles_an_analysis() {
    let ips = vec![String::from("192.0.2.7")];
    let r = assemble_analysis("https://example.com", 12, head(), ips.clone(), true, PAGE).unwrap();
    assert_eq!(r.url, "https://example.com");
    assert_eq!(r.ip_addresses, ips);
    assert_eq!(r.response_time_ms, 12);
    assert_eq!(r.http_status, 200);
    assert_eq!(r.content_type, "text/html");
    assert_eq!(r.content_length, 0);
    assert_eq!(r.server, "nginx");
    assert_eq!(r.powered_by, "Bilinmiyor");
    assert_eq!(r.page_title, Some(String::from("Hello page")));
    assert_eq!(r.meta_description, Some(String::from(" A page ")));
    assert!(r.robots_txt_found);
    assert_eq!(r.technologies, vec!["Bootstrap", "React", "jQuery"]);
    assert!(r.security_headers.hsts);
    assert!(!r.security_headers.csp);
    assert!(r.security_headers.x_frame_options);
}

#[test]
fn analysis_keeps_what_the_headers_give() {
    let mut h = head();
    h.powered_by = HeaderText::Text(String::from("PHP/8"));
    h.content_length = Some(1234);
    h.status = 404;
    let r = assemble_analysis("u", 0, h, Vec::new(), false, "").unwrap();
    assert_eq!(r.powered_by, "PHP/8");
    assert_eq!(r.content_length, 1234);
    assert_eq!(r.http_status, 404);
    assert_eq!(r.page_title, None);
    let mut h = head();
    h.powered_by = HeaderText::Unreadable;
    let r = assemble_analysis("u", 0, h, Vec::new(), false, "").unwrap();
    assert_eq!(r.powered_by, "Bilinmiyor");
}

#[test]
fn no_analysis_without_content_type_or_server() {
    let mut h = head();
    h.content_type = HeaderText::Missing;
    assert!(assemble_analysis("u", 0, h, Vec::new(), false, PAGE).is_none());
    let mut h = head();
    h.content_type = HeaderText::Unreadable;
    assert!(assemble_analysis("u", 0, h, Vec::new(), false, PAGE).is_none());
    let mut h = head();
    h.server = HeaderText::Missing;
    assert!(assemble_analysis("u", 0, h, Vec::new(), false, PAGE).is_none());
    let mut h = head();
    h.server = HeaderText::Unreadable;
    assert!(assemble_analysis("u", 0, h, Vec::new(), false, PAGE).is_none());
}
