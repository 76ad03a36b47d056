//! What the traversal needs to know about one fetched page, read out of the
//! parsed page with the compiled matchers.
use vstd::prelude::*;
use crate::matchers::{css_source, pattern_source, Matchers};
use crate::outside::{
    all_hrefs, document_markup, first_markup, first_markup_of, first_text, first_text_of,
    hrefs_of, markup_of, opt_view, regex_is_match, regex_matches, Page, Pattern,
};

verus! {

/// The first next-page link of a page, with the verdicts of the patterns.
pub struct NextLink {
    pub href: String,
    /// The deny pattern is configured and matches `href`.
    pub denied: bool,
    /// No allow pattern is configured, or it matches `href`.
    pub allowed: bool,
}

/// A candidate sub-page link, with whether the sub-page pattern accepts it.
pub struct SubLink {
    pub href: String,
    pub accepted: bool,
}

/// The facts about one page that extraction and link resolution read.
pub struct PageFacts {
    /// `None` when no title selector is configured; `Some(None)` when it
    /// matches nothing; else the title text.
    pub title: Option<Option<String>>,
    /// The first content match, as markup or text as configured; `None` when
    /// nothing matches.
    pub content: Option<String>,
    /// The `href` of every sub-page selector match that has one, in document
    /// order.
    pub sub_links: Vec<SubLink>,
    /// The `href` of the first next-page selector match, if it has one.
    pub next_link: Option<NextLink>,
    /// The whole page's markup, for diagnostics.
    pub markup: String,
}

/// A pattern's verdict on `href`: whether it matches, or `absent` when no
/// pattern is configured.
pub open spec fn verdict(pattern: Option<Seq<char>>, absent: bool, href: Seq<char>) -> bool {
    match pattern {
        Some(p) => regex_matches(p, href),
        None => absent,
    }
}

/// The sub-page candidates: each present `href`, in order, with the allow
/// pattern's verdict (every link is accepted when there is none).
pub open spec fn expected_links(hrefs: Seq<Option<Seq<char>>>, allow: Option<Seq<char>>) -> Seq<
    (Seq<char>, bool),
>
    decreases hrefs.len(),
{
    if hrefs.len() == 0 {
        Seq::empty()
    } else {
        let rest = expected_links(hrefs.drop_last(), allow);
        match hrefs.last() {
            Some(h) => rest.push((h, verdict(allow, true, h))),
            None => rest,
        }
    }
}

/// The next-page candidate: the first match's `href` if it has one, with the
/// deny and allow verdicts.
pub open spec fn expected_next(
    hrefs: Seq<Option<Seq<char>>>,
    deny: Option<Seq<char>>,
    allow: Option<Seq<char>>,
) -> Option<(Seq<char>, bool, bool)> {
    if hrefs.len() > 0 && hrefs[0] is Some {
        let h = hrefs[0]->0;
        Some((h, verdict(deny, false, h), verdict(allow, true, h)))
    } else {
        None
    }
}

pub open spec fn links_view(links: Seq<SubLink>) -> Seq<(Seq<char>, bool)> {
    links.map_values(|l: SubLink| (l.href@, l.accepted))
}

pub open spec fn next_view(n: Option<NextLink>) -> Option<(Seq<char>, bool, bool)> {
    match n {
        Some(l) => Some((l.href@, l.denied, l.allowed)),
        None => None,
    }
}

/// `f` holds the facts of the page with source text `page` read with `m`:
/// the title text, the content (markup when `inner_html`, else text), the
/// sub-page and next-page candidates, and the page's markup.
pub open spec fn facts_of(m: Matchers, page: Seq<char>, inner_html: bool, f: PageFacts) -> bool {
    &&& match css_source(m.title) {
        Some(s) => f.title matches Some(t) && opt_view(t) == first_text_of(page, s),
        None => f.title is None,
    }
    &&& opt_view(f.content) == if inner_html {
        first_markup_of(page, m.content.source())
    } else {
        first_text_of(page, m.content.source())
    }
    &&& links_view(f.sub_links@) == match css_source(m.sub) {
        Some(s) => expected_links(hrefs_of(page, s), pattern_source(m.sub_allow)),
        None => Seq::empty(),
    }
    &&& next_view(f.next_link) == match css_source(m.next) {
        Some(s) => expected_next(
            hrefs_of(page, s),
            pattern_source(m.next_deny),
            pattern_source(m.next_allow),
        ),
        None => None,
    }
    &&& f.markup@ == markup_of(page)
}

fn pattern_verdict(re: &Option<Pattern>, absent: bool, hay: &str) -> (r: bool)
    ensures
        r == verdict(pattern_source(*re), absent, hay@),
{
    match re {
        Some(p) => regex_is_match(p, hay),
        None => absent,
    }
}

/// Reads the facts of a parsed page.
pub fn gather(m: &Matchers, page: &Page, inner_html: bool) -> (r: PageFacts)
    ensures
        facts_of(*m, page.source(), inner_html, r),
{
    let title = match &m.title {
        Some(sel) => Some(first_text(page, sel)),
        None => None,
    };
    let content = if inner_html {
        first_markup(page, &m.content)
    } else {
        first_text(page, &m.content)
    };
    let mut sub_links: Vec<SubLink> = Vec::new();
    if let Some(sel) = &m.sub {
        let hrefs = all_hrefs(page, sel);
        let ghost hv = hrefs_of(page.source(), sel.source());
        let ghost allow = pattern_source(m.sub_allow);
        let mut i: usize = 0;
        while i < hrefs.len()
            invariant
                i <= hrefs@.len(),
                allow == pattern_source(m.sub_allow),
                hrefs@.map_values(|o: Option<String>| opt_view(o)) == hv,
                links_view(sub_links@) == expected_links(hv.subrange(0, i as int), allow),
            decreases hrefs@.len() - i,
        {
            assert(hv.subrange(0, i + 1).drop_last() =~= hv.subrange(0, i as int));
            assert(hv[i as int] == opt_view(hrefs@[i as int]));
            assert(hv.subrange(0, i + 1).last() == hv[i as int]);
            if let Some(h) = &hrefs[i] {
                let hs: &str = h.as_str();
                assert(hs@ == h@);
                let accepted = pattern_verdict(&m.sub_allow, true, hs);
                let ghost before = sub_links@;
                sub_links.push(SubLink { href: h.clone(), accepted });
                assert(links_view(sub_links@) =~= links_view(before).push((h@, accepted)));
            }
            i = i + 1;
        }
        assert(hv.subrange(0, hv.len() as int) =~= hv);
    } else {
        assert(links_view(sub_links@) =~= Seq::empty());
    }
    let mut next_link: Option<NextLink> = None;
    if let Some(sel) = &m.next {
        let hrefs = all_hrefs(page, sel);
        let ghost hv = hrefs_of(page.source(), sel.source());
        assert(hrefs@.len() == hv.len());
        if hrefs.len() > 0 {
            assert(hv[0] == opt_view(hrefs@[0]));
            if let Some(h) = &hrefs[0] {
                let denied = pattern_verdict(&m.next_deny, false, h.as_str());
                let allowed = pattern_verdict(&m.next_allow, true, h.as_str());
                next_link = Some(NextLink { href: h.clone(), denied, allowed });
            }
        }
    }
    PageFacts { title, content, sub_links, next_link, markup: document_markup(page) }
}

} // verus!
