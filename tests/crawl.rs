use rn_spider::config::{BaseConf, ErrorWithStr};
use rn_spider::matchers::Matchers;
use rn_spider::page::{NextLink, PageFacts, SubLink};
use rn_spider::task::{Step, Task};
use rn_spider::text::{counter_string, decimal_string};
use rn_spider::throttle::pause_millis;

fn conf(list: &[&str]) -> BaseConf {
    BaseConf {
        base: String::from("http://h/"),
        encoding: String::from("utf-8"),
        url_list: list.iter().map(|s| s.to_string()).collect(),
        content: String::from("div.c"),
        ..Default::default()
    }
}

fn running(c: BaseConf) -> Task {
    let mut t = Task::new(c, String::from("out.txt")).ok().expect("valid configuration");
    t.start();
    t
}

fn page(t: &mut Task, html: &str) -> Vec<String> {
    let f = t.read_page(html.as_bytes()).ok().expect("known encoding");
    t.apply_page(&f).ok().expect("page extracts")
}

fn fetch_item(t: &Task) -> String {
    match t.next_step(0) {
        Ok(Step::Fetch { item, .. }) => item,
        Ok(Step::Stop) => panic!("unexpected stop"),
        Err(e) => panic!("{}", e),
    }
}

fn facts(content: Option<&str>) -> PageFacts {
    PageFacts {
        title: None,
        content: content.map(String::from),
        sub_links: Vec::new(),
        next_link: None,
        markup: String::from("<html></html>"),
    }
}

#[test]
fn empty_content_selector_is_refused() {
    let mut c = conf(&["a"]);
    c.content = String::new();
    match Task::new(c, String::from("o")) {
        Err(e) => assert_eq!(e, "content is expected"),
        Ok(_) => panic!("accepted"),
    }
}

#[test]
fn start_index_past_the_list_is_refused() {
    let mut c = conf(&["a", "b"]);
    c.url_list_index = 3;
    match Task::new(c, String::from("o")) {
        Err(e) => assert_eq!(e, "url_list_index is out of index for url_list"),
        Ok(_) => panic!("accepted"),
    }
}

#[test]
fn start_index_at_the_end_is_accepted_and_defaults_fill_in() {
    let mut c = conf(&["a", "b"]);
    c.url_list_index = 2;
    c.encoding = String::new();
    let t = Task::new(c, String::from("o")).ok().unwrap();
    assert_eq!(t.current(), 2);
    assert_eq!(t.item_count(), 2);
    assert!(!t.is_running());
    assert_eq!(t.conf().encoding, "utf-8");
    assert!(t.conf().agent.starts_with("Mozilla/5.0"));
    assert_eq!(t.output(), "o");
    // nothing is left to fetch from there
    // a run resumed there ends at once, without an error
    let mut t = t;
    t.start();
    assert!(!t.is_running());
    assert!(matches!(t.next_step(0), Ok(Step::Stop)));
}

#[test]
fn malformed_selector_or_pattern_fails_construction() {
    let mut c = conf(&["a"]);
    c.title = String::from("div[");
    assert_eq!(Task::new(c, String::from("o")).err().unwrap(), "invalid title selector");
    let mut c = conf(&["a"]);
    c.content = String::from("div[");
    assert_eq!(Task::new(c, String::from("o")).err().unwrap(), "invalid content selector");
    let mut c = conf(&["a"]);
    c.next_regexp_not_match = String::from("(");
    assert_eq!(Task::new(c, String::from("o")).err().unwrap(), "invalid next_regexp_not_match pattern");
    let mut c = conf(&["a"]);
    c.encoding = String::from("klingon");
    assert_eq!(Task::new(c, String::from("o")).err().unwrap(), "unknown encoding");
    // an empty encoding is utf-8
    let mut c = conf(&["a"]);
    c.encoding = String::new();
    assert!(Matchers::compile(&c).is_ok());
}

#[test]
fn resumed_run_has_no_pause_before_its_first_fetch() {
    let mut c = conf(&["a", "b", "c"]);
    c.url_list_index = 1;
    c.sleep_millis = 10;
    let mut t = running(c);
    match t.next_step(0) {
        Ok(Step::Fetch { item, pause_millis, .. }) => {
            assert_eq!(item, "b");
            assert_eq!(pause_millis, None);
        }
        _ => panic!("expected a fetch"),
    }
    page(&mut t, "<div class=\"c\">x</div>");
    match t.next_step(0) {
        Ok(Step::Fetch { item, pause_millis, .. }) => {
            assert_eq!(item, "c");
            assert_eq!(pause_millis, Some(10));
        }
        _ => panic!("expected a fetch"),
    }
}

#[test]
fn facts_follow_the_document() {
    let mut c = conf(&["a"]);
    c.title = String::from("h1");
    c.sub = String::from("a.sub");
    c.next = String::from("a.next");
    c.next_regexp = String::from("^n");
    c.next_regexp_not_match = String::from("x$");
    let t = running(c);
    let f = t.read_page(b"<h1>T<i>1</i></h1><div class=\"c\">C</div><a class=\"sub\" href=\"s1\"></a><a class=\"sub\"></a><a class=\"next\" href=\"nx\"></a>").ok().unwrap();
    assert_eq!(f.title, Some(Some(String::from("T1"))));
    assert_eq!(f.content, Some(String::from("C")));
    assert_eq!(f.sub_links.len(), 1);
    assert_eq!(f.sub_links[0].href, "s1");
    assert!(f.sub_links[0].accepted);
    let n = f.next_link.unwrap();
    assert_eq!(n.href, "nx");
    assert!(n.denied);
    assert!(n.allowed);
    assert!(f.markup.starts_with("<html><head></head><body><h1>"));
}

#[test]
fn error_with_str_keeps_its_message() {
    let e = ErrorWithStr::new("broken");
    assert_eq!(e.details(), "broken");
}

#[test]
fn malformed_selector_and_pattern_and_encoding_are_refused() {
    let mut c = conf(&["a"]);
    c.title = String::from("div[");
    assert_eq!(Matchers::compile(&c).err().unwrap(), "invalid title selector");
    let mut c = conf(&["a"]);
    c.next_regexp = String::from("(unclosed");
    assert_eq!(Matchers::compile(&c).err().unwrap(), "invalid next_regexp pattern");
    let mut c = conf(&["a"]);
    c.sub_regexp = String::from("[z-a]");
    assert_eq!(Matchers::compile(&c).err().unwrap(), "invalid sub_regexp pattern");
    let mut c = conf(&["a"]);
    c.encoding = String::from("no-such-encoding");
    assert_eq!(Matchers::compile(&c).err().unwrap(), "unknown encoding");
}

#[test]
fn content_text_is_the_joined_text_nodes() {
    let mut t = running(conf(&["a", "b"]));
    let out = page(&mut t, "<html><body><div class=\"c\">one <b>two</b> three</div></body></html>");
    assert_eq!(out, vec![String::from("one two three\n")]);
}

#[test]
fn content_markup_is_the_serialised_node() {
    let mut c = conf(&["a", "b"]);
    c.is_inner_html = true;
    let mut t = running(c);
    let out = page(&mut t, "<html><body><div class=\"c\">one <b>two</b></div></body></html>");
    assert_eq!(out, vec![String::from("<div class=\"c\">one <b>two</b></div>\n")]);
}

#[test]
fn title_comes_before_content() {
    let mut c = conf(&["a", "b"]);
    c.title = String::from("h1");
    let mut t = running(c);
    let out = page(&mut t, "<html><body><h1>Head</h1><div class=\"c\">body</div></body></html>");
    assert_eq!(out, vec![String::from("Head\n"), String::from("body\n")]);
}

#[test]
fn missing_title_is_an_error_and_leaves_the_task() {
    let mut c = conf(&["a", "b"]);
    c.title = String::from("h1");
    let mut t = running(c);
    let f = t.read_page(b"<div class=\"c\">x</div>").ok().unwrap();
    let e = t.apply_page(&f).err().unwrap();
    assert!(e.starts_with("no title found: a\n\n"));
    assert_eq!(t.current(), 0);
    assert_eq!(t.item_count(), 0);
}

#[test]
fn missing_content_is_an_error() {
    let mut t = running(conf(&["a"]));
    let f = t.read_page(b"<p>nothing</p>").ok().unwrap();
    let e = t.apply_page(&f).err().unwrap();
    assert!(e.starts_with("no content found: a\n\n<html>"));
}

#[test]
fn skipped_first_page_writes_nothing_once() {
    let mut c = conf(&["a", "b", "c"]);
    c.is_expired_next = true;
    let mut t = running(c);
    let html = "<div class=\"c\">x</div>";
    assert!(page(&mut t, html).is_empty());
    assert_eq!(page(&mut t, html), vec![String::from("x\n")]);
}

#[test]
fn allowed_next_link_rewrites_the_entry() {
    let mut c = conf(&["a", "b"]);
    c.next = String::from("a.next");
    c.next_regexp = String::from("^a-p\\d$");
    c.next_regexp_not_match = String::from("stop");
    let mut t = running(c);
    page(&mut t, "<div class=\"c\">x</div><a class=\"next\" href=\"a-p2\">more</a>");
    assert_eq!(t.current(), 0);
    assert_eq!(t.url_list(), &vec![String::from("a-p2"), String::from("b")]);
    assert_eq!(fetch_item(&t), "a-p2");
    // a link that the allow pattern does not match is not followed
    page(&mut t, "<div class=\"c\">x</div><a class=\"next\" href=\"elsewhere\">more</a>");
    assert_eq!(t.current(), 1);
    assert_eq!(t.url_list(), &vec![String::from("a-p2"), String::from("b")]);
}

#[test]
fn denied_next_link_advances_the_cursor() {
    let mut c = conf(&["a", "b"]);
    c.next = String::from("a.next");
    c.next_regexp = String::from("p");
    c.next_regexp_not_match = String::from("stop");
    let mut t = running(c);
    page(&mut t, "<div class=\"c\">x</div><a class=\"next\" href=\"p-stop\">more</a>");
    assert_eq!(t.current(), 1);
    assert_eq!(t.url_list(), &vec![String::from("a"), String::from("b")]);
    assert_eq!(t.item_count(), 1);
}

#[test]
fn next_link_without_patterns_is_followed() {
    let mut c = conf(&["a"]);
    c.next = String::from("a.next");
    let mut t = running(c);
    page(&mut t, "<div class=\"c\">x</div><a class=\"next\" href=\"a2\">n</a><a class=\"next\" href=\"a3\">n</a>");
    assert_eq!(t.url_list(), &vec![String::from("a2")]);
    assert!(t.is_running());
}

#[test]
fn subpages_are_visited_in_document_order() {
    let mut c = conf(&["list", "other"]);
    c.sub = String::from("a.sub");
    c.sub_regexp = String::from("^s");
    let mut t = running(c);
    let html = "<div class=\"c\">x</div><a class=\"sub\" href=\"s-a\"></a><a class=\"sub\" href=\"skip-me-not\"></a>\
                <a class=\"sub\" href=\"x-no\"></a><a class=\"sub\">no href</a><a class=\"sub\" href=\"s-c\"></a>";
    page(&mut t, html);
    assert_eq!(t.sub_stack(), &vec![String::from("s-c"), String::from("skip-me-not"), String::from("s-a")]);
    let leaf = "<div class=\"c\">leaf</div><a class=\"sub\" href=\"s-deeper\"></a>";
    let mut order = Vec::new();
    for _ in 0..3 {
        order.push(fetch_item(&t));
        page(&mut t, leaf);
        if !t.sub_stack().is_empty() {
            // the cursor holds while sub-pages remain
            assert_eq!(t.current(), 0);
            assert_eq!(t.url_list()[0], "list");
        }
    }
    assert_eq!(order, vec!["s-a", "skip-me-not", "s-c"]);
    assert!(t.sub_stack().is_empty());
    assert_eq!(t.current(), 1);
    assert_eq!(fetch_item(&t), "other");
}

#[test]
fn subpage_stack_blocks_next_link_rewrite() {
    let mut c = conf(&["list"]);
    c.sub = String::from("a.sub");
    c.next = String::from("a.next");
    let mut t = running(c);
    page(&mut t, "<div class=\"c\">x</div><a class=\"sub\" href=\"s1\"></a><a class=\"sub\" href=\"s2\"></a><a class=\"next\" href=\"n\"></a>");
    assert_eq!(t.url_list(), &vec![String::from("list")]);
    assert_eq!(t.current(), 0);
    assert_eq!(t.sub_stack().len(), 2);
}

#[test]
fn end_of_list_stops_the_run() {
    let mut t = running(conf(&["a", "b"]));
    page(&mut t, "<div class=\"c\">x</div>");
    assert!(t.is_running());
    page(&mut t, "<div class=\"c\">y</div>");
    assert!(!t.is_running());
    assert_eq!(t.current(), 2);
    assert!(matches!(t.next_step(5), Ok(Step::Stop)));
    assert!(matches!(t.plan_step(), Ok(Step::Stop)));
}

#[test]
fn stop_ends_the_following_step() {
    let mut t = running(conf(&["a", "b", "c"]));
    assert!(matches!(t.next_step(0), Ok(Step::Fetch { .. })));
    t.stop();
    // the page in flight is still handled
    assert_eq!(page(&mut t, "<div class=\"c\">x</div>"), vec![String::from("x\n")]);
    assert!(matches!(t.next_step(0), Ok(Step::Stop)));
}

#[test]
fn fetch_error_names_the_address_and_counter() {
    let mut c = conf(&["a", "b"]);
    c.url_list_index = 1;
    let t = running(c);
    let url = match t.next_step(0) {
        Ok(Step::Fetch { url, .. }) => url,
        _ => panic!("expected a fetch"),
    };
    assert_eq!(url, "http://h/b");
    assert_eq!(t.fetch_error(&url, "connection refused"), "item(0001) \"http://h/b\": connection refused");
}

#[test]
fn pause_follows_the_throttle() {
    assert_eq!(pause_millis(0, 100, 50, 7), None);
    assert_eq!(pause_millis(3, 0, 0, 7), None);
    assert_eq!(pause_millis(3, 100, 0, 7), Some(100));
    assert_eq!(pause_millis(3, 100, 50, 77), Some(127));
    assert_eq!(pause_millis(3, 0, 50, 49), Some(49));
    assert_eq!(pause_millis(1, u64::MAX, 50, 49), Some(u64::MAX));
}

#[test]
fn step_carries_the_pause() {
    let mut c = conf(&["a", "b"]);
    c.sleep_millis = 10;
    c.random_sleep_millis = 5;
    let mut t = running(c);
    match t.next_step(9) {
        Ok(Step::Fetch { pause_millis, .. }) => assert_eq!(pause_millis, None),
        _ => panic!("expected a fetch"),
    }
    page(&mut t, "<div class=\"c\">x</div>");
    match t.next_step(9) {
        Ok(Step::Fetch { item, pause_millis, .. }) => {
            assert_eq!(item, "b");
            assert_eq!(pause_millis, Some(14));
        }
        _ => panic!("expected a fetch"),
    }
}

#[test]
fn counter_is_zero_padded() {
    assert_eq!(counter_string(0), "0000");
    assert_eq!(counter_string(7), "0007");
    assert_eq!(counter_string(42), "0042");
    assert_eq!(counter_string(999), "0999");
    assert_eq!(counter_string(12345), "12345");
    assert_eq!(decimal_string(1000), "1000");
}

#[test]
fn pages_decode_with_the_configured_encoding() {
    let mut c = conf(&["a"]);
    c.encoding = String::from("gbk");
    let mut t = running(c);
    // "中文" in GBK
    let body: Vec<u8> = [b"<div class=\"c\">".to_vec(), vec![0xD6, 0xD0, 0xCE, 0xC4], b"</div>".to_vec()].concat();
    let f = t.read_page(&body).ok().unwrap();
    assert_eq!(t.apply_page(&f).ok().unwrap(), vec![String::from("中文\n")]);
}

#[test]
fn link_resolution_from_facts() {
    let mut t = running(conf(&["a", "b"]));
    let mut f = facts(Some("x"));
    f.sub_links = vec![
        SubLink { href: String::from("s1"), accepted: true },
        SubLink { href: String::from("s2"), accepted: false },
        SubLink { href: String::from("s3"), accepted: true },
    ];
    f.next_link = Some(NextLink { href: String::from("n"), denied: false, allowed: true });
    t.apply_page(&f).ok().unwrap();
    assert_eq!(t.sub_stack(), &vec![String::from("s3"), String::from("s1")]);
    assert_eq!(t.url_list(), &vec![String::from("a"), String::from("b")]);
    let mut g = facts(Some("y"));
    g.next_link = Some(NextLink { href: String::from("n"), denied: true, allowed: true });
    t.apply_page(&g).ok().unwrap();
    assert_eq!(t.sub_stack(), &vec![String::from("s3")]);
    t.apply_page(&g).ok().unwrap();
    assert!(t.sub_stack().is_empty());
    assert_eq!(t.current(), 1);
}
