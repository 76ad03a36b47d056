use vstd::prelude::*;
use vstd::string::*;

verus! {

/// The user agent sent when the configuration names none.
pub const DEFAULT_AGENT: &'static str =
    "Mozilla/5.0 (Macintosh; Intel Mac OS X 10.15; rv:90.0) Gecko/20100101 Firefox/90.0";

/// The character encoding used when the configuration names none.
pub const DEFAULT_ENCODING: &'static str = "utf-8";

/// The crawl configuration: where to go, what to extract and how to pace.
/// An empty selector or pattern string switches the feature off.
#[derive(Default, Debug, Clone)]
pub struct BaseConf {
    /// Prefix put before every list entry and every discovered link.
    pub base: String,
    /// The crawl list: path suffixes, visited in order.
    pub url_list: Vec<String>,
    /// CSS selector of the title; empty means no title is written.
    pub title: String,
    /// CSS selector of the content; required.
    pub content: String,
    /// CSS selector of the next-page link.
    pub next: String,
    /// Pattern a next-page link must match to be followed.
    pub next_regexp: String,
    /// Pattern that rejects a next-page link; it wins over `next_regexp`.
    pub next_regexp_not_match: String,
    /// CSS selector of the sub-page links.
    pub sub: String,
    /// Pattern a sub-page link must match to be visited.
    pub sub_regexp: String,
    /// WHATWG label of the pages' character encoding.
    pub encoding: String,
    /// Skip extraction on the first fetch (resuming mid-pagination).
    pub is_expired_next: bool,
    /// User agent of every request.
    pub agent: String,
    /// Upper bound (exclusive) of the random part of the pause between fetches.
    pub random_sleep_millis: u64,
    /// Fixed part of the pause between fetches.
    pub sleep_millis: u64,
    /// Write the content node's markup instead of its text.
    pub is_inner_html: bool,
    /// List index to start (or resume) from.
    pub url_list_index: usize,
    /// Proxy for every request; empty means none.
    pub proxy: String,
}

/// Every field of `a` but the crawl list equals that of `b`.
pub open spec fn same_settings(a: BaseConf, b: BaseConf) -> bool {
    &&& a.base == b.base
    &&& a.title == b.title
    &&& a.content == b.content
    &&& a.next == b.next
    &&& a.next_regexp == b.next_regexp
    &&& a.next_regexp_not_match == b.next_regexp_not_match
    &&& a.sub == b.sub
    &&& a.sub_regexp == b.sub_regexp
    &&& a.encoding == b.encoding
    &&& a.is_expired_next == b.is_expired_next
    &&& a.agent == b.agent
    &&& a.random_sleep_millis == b.random_sleep_millis
    &&& a.sleep_millis == b.sleep_millis
    &&& a.is_inner_html == b.is_inner_html
    &&& a.url_list_index == b.url_list_index
    &&& a.proxy == b.proxy
}

/// An error that carries a message.
#[derive(Debug)]
pub struct ErrorWithStr {
    details: String,
}

impl ErrorWithStr {
    /// The message this error carries.
    pub closed spec fn message(&self) -> Seq<char> {
        self.details@
    }

    pub fn new(msg: &str) -> (r: Self)
        ensures
            r.message() == msg@,
    {
        ErrorWithStr { details: String::from_str(msg) }
    }

    /// The message, as text.
    pub fn details(&self) -> (r: &str)
        ensures
            r@ == self.message(),
    {
        self.details.as_str()
    }
}

} // verus!
