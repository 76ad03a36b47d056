//! Compiling the configuration's selector and pattern strings, once, before
//! any page is fetched.
use vstd::prelude::*;
use vstd::string::*;
use crate::config::{BaseConf, DEFAULT_ENCODING};
use crate::outside::{decode_page, encoding_known, regex_compiles, selector_parses, Css, Pattern};

verus! {

/// The compiled form of the configuration's selectors and patterns. A field
/// is `None` exactly when its string is empty: the feature is off.
pub struct Matchers {
    pub title: Option<Css>,
    pub content: Css,
    pub next: Option<Css>,
    pub next_allow: Option<Pattern>,
    pub next_deny: Option<Pattern>,
    pub sub: Option<Css>,
    pub sub_allow: Option<Pattern>,
}

/// The encoding in force: the configured label, or `utf-8` when it is empty.
pub open spec fn effective_encoding(c: BaseConf) -> Seq<char> {
    if c.encoding@.len() == 0 {
        DEFAULT_ENCODING@
    } else {
        c.encoding@
    }
}

/// An optional selector is fine when it is empty or parses.
pub open spec fn optional_selector_ok(s: Seq<char>) -> bool {
    s.len() == 0 || selector_parses(s)
}

/// An optional pattern is fine when it is empty or compiles.
pub open spec fn optional_regex_ok(s: Seq<char>) -> bool {
    s.len() == 0 || regex_compiles(s)
}

/// The first configuration error, checked in field order, if any.
pub open spec fn config_fault(c: BaseConf) -> Option<Seq<char>> {
    if !optional_selector_ok(c.title@) {
        Some("invalid title selector"@)
    } else if !selector_parses(c.content@) {
        Some("invalid content selector"@)
    } else if !optional_selector_ok(c.next@) {
        Some("invalid next selector"@)
    } else if !optional_regex_ok(c.next_regexp@) {
        Some("invalid next_regexp pattern"@)
    } else if !optional_regex_ok(c.next_regexp_not_match@) {
        Some("invalid next_regexp_not_match pattern"@)
    } else if !optional_selector_ok(c.sub@) {
        Some("invalid sub selector"@)
    } else if !optional_regex_ok(c.sub_regexp@) {
        Some("invalid sub_regexp pattern"@)
    } else if !encoding_known(effective_encoding(c)) {
        Some("unknown encoding"@)
    } else {
        None
    }
}

/// The source text of an optional compiled selector.
pub open spec fn css_source(o: Option<Css>) -> Option<Seq<char>> {
    match o {
        Some(c) => Some(c.source()),
        None => None,
    }
}

/// The source text of an optional compiled pattern.
pub open spec fn pattern_source(o: Option<Pattern>) -> Option<Seq<char>> {
    match o {
        Some(p) => Some(p.source()),
        None => None,
    }
}

/// An optional setting's text, `None` when it is empty.
pub open spec fn configured(s: Seq<char>) -> Option<Seq<char>> {
    if s.len() == 0 {
        None
    } else {
        Some(s)
    }
}

/// The matchers were compiled from this configuration: each one is made from
/// its string, and an optional one is present exactly when its string is not
/// empty.
pub open spec fn compiled_from(m: Matchers, c: BaseConf) -> bool {
    &&& css_source(m.title) == configured(c.title@)
    &&& m.content.source() == c.content@
    &&& css_source(m.next) == configured(c.next@)
    &&& pattern_source(m.next_allow) == configured(c.next_regexp@)
    &&& pattern_source(m.next_deny) == configured(c.next_regexp_not_match@)
    &&& css_source(m.sub) == configured(c.sub@)
    &&& pattern_source(m.sub_allow) == configured(c.sub_regexp@)
}

fn optional_selector(s: &String) -> (r: Option<Option<Css>>)
    ensures
        r is Some <==> optional_selector_ok(s@),
        r matches Some(o) ==> css_source(o) == configured(s@),
{
    if s.as_str().is_empty() {
        Some(None)
    } else {
        match Css::parse(s.as_str()) {
            Some(sel) => Some(Some(sel)),
            None => None,
        }
    }
}

fn optional_regex(s: &String) -> (r: Option<Option<Pattern>>)
    ensures
        r is Some <==> optional_regex_ok(s@),
        r matches Some(o) ==> pattern_source(o) == configured(s@),
{
    if s.as_str().is_empty() {
        Some(None)
    } else {
        match Pattern::new(s.as_str()) {
            Some(re) => Some(Some(re)),
            None => None,
        }
    }
}

impl Matchers {
    /// Compiles every selector and pattern of the configuration and checks its
    /// encoding label (`utf-8` when empty); fails with the first malformed one.
    pub fn compile(c: &BaseConf) -> (r: Result<Matchers, String>)
        ensures
            r is Ok <==> config_fault(*c) is None,
            r matches Err(e) ==> config_fault(*c) == Some(e@),
            r matches Ok(m) ==> compiled_from(m, *c),
    {
        let title = match optional_selector(&c.title) {
            Some(t) => t,
            None => return Err(String::from_str("invalid title selector")),
        };
        let content = match Css::parse(c.content.as_str()) {
            Some(t) => t,
            None => return Err(String::from_str("invalid content selector")),
        };
        let next = match optional_selector(&c.next) {
            Some(t) => t,
            None => return Err(String::from_str("invalid next selector")),
        };
        let next_allow = match optional_regex(&c.next_regexp) {
            Some(t) => t,
            None => return Err(String::from_str("invalid next_regexp pattern")),
        };
        let next_deny = match optional_regex(&c.next_regexp_not_match) {
            Some(t) => t,
            None => return Err(String::from_str("invalid next_regexp_not_match pattern")),
        };
        let sub = match optional_selector(&c.sub) {
            Some(t) => t,
            None => return Err(String::from_str("invalid sub selector")),
        };
        let sub_allow = match optional_regex(&c.sub_regexp) {
            Some(t) => t,
            None => return Err(String::from_str("invalid sub_regexp pattern")),
        };
        let label: &str = if c.encoding.as_str().is_empty() {
            DEFAULT_ENCODING
        } else {
            c.encoding.as_str()
        };
        // An empty input decodes under every known label and under no other.
        let probe: Vec<u8> = Vec::new();
        if decode_page(label, probe.as_slice()).is_none() {
            return Err(String::from_str("unknown encoding"));
        }
        Ok(Matchers { title, content, next, next_allow, next_deny, sub, sub_allow })
    }
}

} // verus!
