//! What the library takes from outside crates: the CSS selector engine and
//! HTML parser, the regular expression engine, the character decoder and the
//! random source. Each item states only what that crate guarantees.
//!
//! A compiled selector, a compiled pattern and a parsed page each keep, as a
//! ghost value, the text they were made from; they are made only here, by the
//! verified constructors below, so the named results can speak of that text.
use vstd::prelude::*;

verus! {

#[verifier::external_type_specification]
#[verifier::external_body]
pub struct ExSelector(scraper::Selector);

#[verifier::external_type_specification]
#[verifier::external_body]
pub struct ExHtml(scraper::Html);

#[verifier::external_type_specification]
#[verifier::external_body]
pub struct ExRegex(regex::Regex);

/// Whether the CSS selector text parses; a function of the text alone.
pub uninterp spec fn selector_parses(s: Seq<char>) -> bool;

/// Whether the regular expression compiles; a function of the pattern alone.
pub uninterp spec fn regex_compiles(s: Seq<char>) -> bool;

/// Whether the pattern matches somewhere in the text.
pub uninterp spec fn regex_matches(pattern: Seq<char>, hay: Seq<char>) -> bool;

/// Whether the WHATWG label names an encoding that the decoder knows.
pub uninterp spec fn encoding_known(label: Seq<char>) -> bool;

/// The text that the bytes decode to under the labelled encoding, with
/// malformed sequences dropped.
pub uninterp spec fn decoded(label: Seq<char>, bytes: Seq<u8>) -> Seq<char>;

/// The text nodes of the first element of the page that the selector
/// matches, joined in document order; `None` when nothing matches.
pub uninterp spec fn first_text_of(page: Seq<char>, sel: Seq<char>) -> Option<Seq<char>>;

/// The serialised markup of the first element of the page that the selector
/// matches; `None` when nothing matches.
pub uninterp spec fn first_markup_of(page: Seq<char>, sel: Seq<char>) -> Option<Seq<char>>;

/// For each element of the page that the selector matches, in document
/// order, its `href` attribute if it has one.
pub uninterp spec fn hrefs_of(page: Seq<char>, sel: Seq<char>) -> Seq<Option<Seq<char>>>;

/// The whole parsed page serialised as markup.
pub uninterp spec fn markup_of(page: Seq<char>) -> Seq<char>;

/// The text of an optional string.
pub open spec fn opt_view(o: Option<String>) -> Option<Seq<char>> {
    match o {
        Some(s) => Some(s@),
        None => None,
    }
}

/// A compiled CSS selector with the text it was parsed from.
pub struct Css {
    sel: scraper::Selector,
    src: Ghost<Seq<char>>,
}

/// A compiled regular expression with the pattern it was compiled from.
pub struct Pattern {
    re: regex::Regex,
    src: Ghost<Seq<char>>,
}

/// A parsed page with the text it was parsed from.
pub struct Page {
    doc: scraper::Html,
    src: Ghost<Seq<char>>,
}

impl Css {
    pub closed spec fn source(&self) -> Seq<char> {
        self.src@
    }

    /// Parses a selector; `None` when the text is not a valid selector list.
    pub fn parse(s: &str) -> (r: Option<Css>)
        ensures
            r is Some <==> selector_parses(s@),
            r matches Some(c) ==> c.source() == s@,
    {
        match parse_selector(s) {
            Some(sel) => Some(Css { sel, src: Ghost(s@) }),
            None => None,
        }
    }
}

impl Pattern {
    pub closed spec fn source(&self) -> Seq<char> {
        self.src@
    }

    /// Compiles a pattern; `None` when it does not compile.
    pub fn new(s: &str) -> (r: Option<Pattern>)
        ensures
            r is Some <==> regex_compiles(s@),
            r matches Some(p) ==> p.source() == s@,
    {
        match compile_regex(s) {
            Some(re) => Some(Pattern { re, src: Ghost(s@) }),
            None => None,
        }
    }
}

impl Page {
    pub closed spec fn source(&self) -> Seq<char> {
        self.src@
    }

    /// Parses a page; every text parses.
    pub fn parse(text: &str) -> (r: Page)
        ensures
            r.source() == text@,
    {
        Page { doc: parse_document(text), src: Ghost(text@) }
    }
}

/// Relies on `scraper::Selector::parse`: `Ok` exactly when the text is a valid
/// selector list.
#[verifier::external_body]
fn parse_selector(s: &str) -> (r: Option<scraper::Selector>)
    ensures
        r.is_some() == selector_parses(s@),
{
    scraper::Selector::parse(s).ok()
}

/// Relies on `regex::Regex::new`: `Ok` exactly when the pattern compiles.
#[verifier::external_body]
fn compile_regex(s: &str) -> (r: Option<regex::Regex>)
    ensures
        r.is_some() == regex_compiles(s@),
{
    regex::Regex::new(s).ok()
}

/// Relies on `regex::Regex::is_match`: whether the pattern matches somewhere
/// in the text.
#[verifier::external_body]
pub(crate) fn regex_is_match(p: &Pattern, hay: &str) -> (r: bool)
    ensures
        r == regex_matches(p.source(), hay@),
{
    p.re.is_match(hay)
}

/// Relies on `encoding::label::encoding_from_whatwg_label` (`Some` exactly for
/// a known label) and `Encoding::decode` with `DecoderTrap::Ignore`, which
/// drops malformed input and never fails.
#[verifier::external_body]
pub(crate) fn decode_page(label: &str, bytes: &[u8]) -> (r: Option<String>)
    ensures
        r.is_some() == encoding_known(label@),
        r matches Some(t) ==> t@ == decoded(label@, bytes@),
{
    encoding::label::encoding_from_whatwg_label(label).and_then(
        |e| e.decode(bytes, encoding::types::DecoderTrap::Ignore).ok(),
    )
}

/// Relies on `scraper::Html::parse_document`, which accepts any text.
#[verifier::external_body]
fn parse_document(text: &str) -> (r: scraper::Html) {
    scraper::Html::parse_document(text)
}

/// Relies on `scraper::Html::html`: the document serialised as markup.
#[verifier::external_body]
pub(crate) fn document_markup(page: &Page) -> (r: String)
    ensures
        r@ == markup_of(page.source()),
{
    page.doc.html()
}

/// Relies on `scraper::Html::select` and `ElementRef::text`: the text nodes of
/// the first matching element, joined in document order.
#[verifier::external_body]
pub(crate) fn first_text(page: &Page, sel: &Css) -> (r: Option<String>)
    ensures
        opt_view(r) == first_text_of(page.source(), sel.source()),
{
    page.doc.select(&sel.sel).next().map(|e| e.text().collect::<String>())
}

/// Relies on `scraper::Html::select` and `ElementRef::html`: the serialised
/// markup of the first matching element.
#[verifier::external_body]
pub(crate) fn first_markup(page: &Page, sel: &Css) -> (r: Option<String>)
    ensures
        opt_view(r) == first_markup_of(page.source(), sel.source()),
{
    page.doc.select(&sel.sel).next().map(|e| e.html())
}

/// Relies on `scraper::Html::select` and `Element::attr`: for each matching
/// element in document order, its `href` attribute if it has one.
#[verifier::external_body]
pub(crate) fn all_hrefs(page: &Page, sel: &Css) -> (r: Vec<Option<String>>)
    ensures
        r@.map_values(|o: Option<String>| opt_view(o)) == hrefs_of(page.source(), sel.source()),
{
    page.doc.select(&sel.sel).map(|e| e.value().attr("href").map(String::from)).collect()
}

/// Relies on `rand::random`: a value drawn from the thread-local generator.
/// Nothing is promised about it.
pub assume_specification<T>[ rand::random::<T> ]() -> (r: T)
    where
        rand::distributions::Standard: rand::distributions::Distribution<T>,
;

} // verus!
