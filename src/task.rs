//! The traversal state machine. A `Task` owns the crawl list, the cursor, the
//! fetch counter and the sub-page stack; the caller drives it: `start`, then
//! repeatedly `next_step` (what to fetch, after which pause), `read_page` and
//! `apply_page` (what to write, and where to go next), until `next_step`
//! answers `Step::Stop` or an error.
use vstd::prelude::*;
use vstd::string::*;
use crate::config::{BaseConf, same_settings, DEFAULT_AGENT, DEFAULT_ENCODING};
use crate::matchers::{compiled_from, config_fault, Matchers};
use crate::outside::{decode_page, decoded, encoding_known, Page};
use crate::page::{facts_of, gather, NextLink, PageFacts, SubLink};
use crate::text::{counter_string, counter_text};
use crate::throttle::{pause_millis, pause_spec};

verus! {

/// The mutable state of a task, as mathematical values.
pub struct TaskView {
    /// The crawl list; an entry is rewritten when a next-page link is followed.
    pub list: Seq<String>,
    /// Cleared on completion or by `stop`; the run ends at the next step.
    pub running: bool,
    /// The list cursor.
    pub current: nat,
    /// How many fetches were made, counting from the start index.
    pub item_count: nat,
    /// Sub-pages still to visit; the last one is visited first.
    pub stack: Seq<String>,
    /// Extraction is skipped for the next page.
    pub skip_render: bool,
}

/// One crawl, from its configuration to the end of the list.
pub struct Task {
    base: BaseConf,
    matchers: Matchers,
    output: String,
    running: bool,
    current: usize,
    item_count: usize,
    stack: Vec<String>,
    skip_render: bool,
}

/// What the caller does next.
pub enum Step {
    /// The run is over, finished or stopped; this is not an error.
    Stop,
    /// Fetch `url` (the base followed by `item`), after pausing if asked to.
    Fetch { item: String, url: String, pause_millis: Option<u64> },
}

pub open spec fn content_required_msg() -> Seq<char> {
    "content is expected"@
}

pub open spec fn index_range_msg() -> Seq<char> {
    "url_list_index is out of index for url_list"@
}

pub open spec fn cursor_range_msg() -> Seq<char> {
    "index out of board for current"@
}

pub open spec fn unknown_encoding_msg() -> Seq<char> {
    "unknown encoding"@
}

/// `t` is `c` with the empty encoding and agent replaced by their defaults.
pub open spec fn with_defaults(t: BaseConf, c: BaseConf) -> bool {
    &&& t.url_list == c.url_list
    &&& t.encoding@ == (if c.encoding@.len() == 0 { DEFAULT_ENCODING@ } else { c.encoding@ })
    &&& t.agent@ == (if c.agent@.len() == 0 { DEFAULT_AGENT@ } else { c.agent@ })
    &&& t.base == c.base
    &&& t.title == c.title
    &&& t.content == c.content
    &&& t.next == c.next
    &&& t.next_regexp == c.next_regexp
    &&& t.next_regexp_not_match == c.next_regexp_not_match
    &&& t.sub == c.sub
    &&& t.sub_regexp == c.sub_regexp
    &&& t.is_expired_next == c.is_expired_next
    &&& t.random_sleep_millis == c.random_sleep_millis
    &&& t.sleep_millis == c.sleep_millis
    &&& t.is_inner_html == c.is_inner_html
    &&& t.url_list_index == c.url_list_index
    &&& t.proxy == c.proxy
}

/// The state of a run at its start: at the start index, nothing stacked;
/// running unless the start index is already at the end of the list.
pub open spec fn started(v: TaskView, c: BaseConf) -> TaskView {
    TaskView {
        running: c.url_list_index < v.list.len(),
        current: c.url_list_index as nat,
        item_count: c.url_list_index as nat,
        stack: Seq::empty(),
        skip_render: c.is_expired_next,
        ..v
    }
}

/// What the next fetch is for: the top of the sub-page stack, else the list
/// entry under the cursor.
pub open spec fn target(v: TaskView) -> Option<String> {
    if v.stack.len() > 0 {
        Some(v.stack.last())
    } else if v.current < v.list.len() {
        Some(v.list[v.current as int])
    } else {
        None
    }
}

/// What `next_step` answers with `draw` as the random draw.
pub open spec fn step_fits(v: TaskView, c: BaseConf, draw: u64, r: Result<Step, String>) -> bool {
    if !v.running {
        r matches Ok(Step::Stop)
    } else {
        match target(v) {
            None => r matches Err(e) && e@ == cursor_range_msg(),
            Some(item) => r matches Ok(Step::Fetch { item: i, url, pause_millis: p }) && i == item
                && url@ == c.base@ + item@ && p == pause_spec(
                (v.item_count - c.url_list_index) as nat,
                c.sleep_millis,
                c.random_sleep_millis,
                draw,
            ),
        }
    }
}

/// The accepted sub-page links, in document order.
pub open spec fn accepted_links(links: Seq<SubLink>) -> Seq<String>
    decreases links.len(),
{
    if links.len() == 0 {
        Seq::empty()
    } else {
        let rest = accepted_links(links.drop_last());
        if links.last().accepted {
            rest.push(links.last().href)
        } else {
            rest
        }
    }
}

/// The stack after a page: discovery fills an empty stack with the accepted
/// links, reversed so that they are popped in document order; a non-empty
/// stack loses the page just visited.
pub open spec fn stack_after(v: TaskView, links: Seq<SubLink>) -> Seq<String> {
    if v.stack.len() == 0 {
        accepted_links(links).reverse()
    } else {
        v.stack.drop_last()
    }
}

/// The next-page link that is followed: one that is not denied and is allowed.
pub open spec fn followed(next: Option<NextLink>) -> Option<String> {
    match next {
        Some(l) => if !l.denied && l.allowed {
            Some(l.href)
        } else {
            None
        },
        None => None,
    }
}

/// Link resolution: stay on the sub-page stack while it is not empty; else
/// rewrite the current list entry with a followed next-page link; else
/// advance the cursor, and end the run when it reaches the end of the list.
pub open spec fn resolved(v: TaskView, f: PageFacts) -> TaskView {
    let stack = stack_after(v, f.sub_links@);
    if stack.len() > 0 {
        TaskView { stack, ..v }
    } else if followed(f.next_link) is Some {
        TaskView { stack, list: v.list.update(v.current as int, followed(f.next_link)->0), ..v }
    } else {
        let c = v.current + 1;
        TaskView { stack, current: c, running: v.running && c < v.list.len(), ..v }
    }
}

/// The fetch counter after one more fetch; it stops at the largest `usize`.
pub open spec fn bumped(n: nat) -> nat {
    if n < usize::MAX {
        n + 1
    } else {
        n
    }
}

/// The state after a page was fetched and its output written.
pub open spec fn after_page(v: TaskView, f: PageFacts) -> TaskView {
    resolved(TaskView { item_count: bumped(v.item_count), skip_render: false, ..v }, f)
}

/// The records written for a page fetched for `item`, or the extraction error:
/// nothing while extraction is skipped; else the title (when configured) and
/// the content, each followed by a newline. A configured title that matches
/// nothing is an error, as is content that matches nothing.
pub open spec fn page_records(v: TaskView, f: PageFacts, item: String) -> Result<
    Seq<Seq<char>>,
    Seq<char>,
> {
    if v.skip_render {
        Ok(Seq::empty())
    } else if f.title matches Some(None) {
        Err("no title found: "@ + item@ + "\n\n"@ + f.markup@)
    } else if f.content is None {
        Err("no content found: "@ + item@ + "\n\n"@ + f.markup@)
    } else {
        let content = seq![f.content->0@ + "\n"@];
        match f.title {
            Some(Some(t)) => Ok(seq![t@ + "\n"@] + content),
            _ => Ok(content),
        }
    }
}

/// What `apply_page` answers for a page: the records to write, or the error.
pub open spec fn page_outcome(v: TaskView, f: PageFacts) -> Result<Seq<Seq<char>>, Seq<char>> {
    match target(v) {
        None => Err(cursor_range_msg()),
        Some(item) => page_records(v, f, item),
    }
}

/// The message of a failed fetch: the fetch counter, the address and the cause.
pub open spec fn fetch_error_text(item_count: nat, url: Seq<char>, detail: Seq<char>) -> Seq<char> {
    "item("@ + counter_text(item_count) + ") \""@ + url + "\": "@ + detail
}

impl View for Task {
    type V = TaskView;

    closed spec fn view(&self) -> TaskView {
        TaskView {
            list: self.base.url_list@,
            running: self.running,
            current: self.current as nat,
            item_count: self.item_count as nat,
            stack: self.stack@,
            skip_render: self.skip_render,
        }
    }
}

impl Task {
    /// The configuration in force; its crawl list is the view's `list`.
    pub closed spec fn settings(&self) -> BaseConf {
        self.base
    }

    /// The path of the output file.
    pub closed spec fn output_path(&self) -> Seq<char> {
        self.output@
    }

    /// The compiled selectors and patterns in force.
    pub closed spec fn matchers(&self) -> Matchers {
        self.matchers
    }

    /// The matchers come from the settings, whose encoding is known; the
    /// counter never falls below the start index; while sub-pages are
    /// stacked, the cursor is on a list entry.
    pub closed spec fn wf(&self) -> bool {
        &&& compiled_from(self.matchers, self.base)
        &&& encoding_known(self.base.encoding@)
        &&& self.item_count >= self.base.url_list_index
        &&& self.stack@.len() > 0 ==> self.current < self.base.url_list@.len()
    }

    /// Validates the configuration: the content selector is required, the
    /// start index must lie within the list (or just past it), and every
    /// selector, pattern and the encoding label must compile. An empty
    /// encoding becomes `utf-8` and an empty agent a browser-like default.
    pub fn new(conf: BaseConf, output: String) -> (r: Result<Self, String>)
        ensures
            r is Ok <==> conf.content@.len() > 0 && conf.url_list_index <= conf.url_list@.len()
                && config_fault(conf) is None,
            conf.content@.len() == 0 ==> (r matches Err(e) && e@ == content_required_msg()),
            conf.content@.len() > 0 && conf.url_list_index > conf.url_list@.len() ==> (r matches Err(
                e,
            ) && e@ == index_range_msg()),
            conf.content@.len() > 0 && conf.url_list_index <= conf.url_list@.len() ==> (
            config_fault(conf) matches Some(msg) ==> r matches Err(e) && e@ == msg),
            r matches Ok(t) ==> {
                &&& t.wf()
                &&& compiled_from(t.matchers(), conf)
                &&& with_defaults(t.settings(), conf)
                &&& t.output_path() == output@
                &&& t@ == TaskView {
                    list: conf.url_list@,
                    running: false,
                    current: conf.url_list_index as nat,
                    item_count: conf.url_list_index as nat,
                    stack: Seq::empty(),
                    skip_render: conf.is_expired_next,
                }
            },
    {
        if conf.content.as_str().is_empty() {
            return Err(String::from_str("content is expected"));
        }
        let mut base = conf;
        if base.encoding.as_str().is_empty() {
            base.encoding = String::from_str(DEFAULT_ENCODING);
        }
        if base.agent.as_str().is_empty() {
            base.agent = String::from_str(DEFAULT_AGENT);
        }
        if base.url_list_index > base.url_list.len() {
            return Err(String::from_str("url_list_index is out of index for url_list"));
        }
        proof {
            reveal_strlit("utf-8");
        }
        let matchers = match Matchers::compile(&base) {
            Ok(m) => m,
            Err(e) => return Err(e),
        };
        let start = base.url_list_index;
        let skip = base.is_expired_next;
        Ok(Task {
            base,
            matchers,
            output,
            running: false,
            current: start,
            item_count: start,
            stack: Vec::new(),
            skip_render: skip,
        })
    }

    /// Begins a run at the start index, with nothing stacked.
    pub fn start(&mut self)
        requires
            old(self).wf(),
        ensures
            final(self).wf(),
            final(self).settings() == old(self).settings(),
            final(self).output_path() == old(self).output_path(),
            final(self)@ == started(old(self)@, old(self).settings()),
    {
        self.running = self.base.url_list_index < self.base.url_list.len();
        self.current = self.base.url_list_index;
        self.item_count = self.base.url_list_index;
        self.stack = Vec::new();
        self.skip_render = self.base.is_expired_next;
    }

    /// Asks the run to end: the next step answers `Step::Stop`.
    pub fn stop(&mut self)
        requires
            old(self).wf(),
        ensures
            final(self).wf(),
            final(self).settings() == old(self).settings(),
            final(self).output_path() == old(self).output_path(),
            final(self)@ == (TaskView { running: false, ..old(self)@ }),
    {
        self.running = false;
    }

    pub fn is_running(&self) -> (r: bool)
        ensures
            r == self@.running,
    {
        self.running
    }

    /// The list cursor.
    pub fn current(&self) -> (r: usize)
        ensures
            r == self@.current,
    {
        self.current
    }

    /// How many fetches were made, counting from the start index.
    pub fn item_count(&self) -> (r: usize)
        ensures
            r == self@.item_count,
    {
        self.item_count
    }

    /// The crawl list, with rewritten entries.
    pub fn url_list(&self) -> (r: &Vec<String>)
        ensures
            r@ == self@.list,
    {
        &self.base.url_list
    }

    /// The sub-pages still to visit; the last is visited first.
    pub fn sub_stack(&self) -> (r: &Vec<String>)
        ensures
            r@ == self@.stack,
    {
        &self.stack
    }

    /// The configuration in force.
    pub fn conf(&self) -> (r: &BaseConf)
        ensures
            *r == self.settings(),
    {
        &self.base
    }

    /// The path of the output file.
    pub fn output(&self) -> (r: &str)
        ensures
            r@ == self.output_path(),
    {
        self.output.as_str()
    }

    /// What to do next, with `draw` as the random part of the pause: stop if
    /// the run is over; else fetch the top of the sub-page stack or the list
    /// entry under the cursor, after the pause that the throttle asks for.
    pub fn next_step(&self, draw: u64) -> (r: Result<Step, String>)
        requires
            self.wf(),
        ensures
            step_fits(self@, self.settings(), draw, r),
    {
        if !self.running {
            return Ok(Step::Stop);
        }
        let n = self.stack.len();
        let item = if n > 0 {
            self.stack[n - 1].clone()
        } else if self.current < self.base.url_list.len() {
            self.base.url_list[self.current].clone()
        } else {
            return Err(String::from_str("index out of board for current"));
        };
        let mut url = self.base.base.clone();
        url.append(item.as_str());
        let pause = pause_millis(
            self.item_count - self.base.url_list_index,
            self.base.sleep_millis,
            self.base.random_sleep_millis,
            draw,
        );
        Ok(Step::Fetch { item, url, pause_millis: pause })
    }

    /// `next_step` with a draw from the random source.
    pub fn plan_step(&self) -> (r: Result<Step, String>)
        requires
            self.wf(),
        ensures
            exists|draw: u64| step_fits(self@, self.settings(), draw, r),
    {
        let draw: u64 = rand::random::<u64>();
        self.next_step(draw)
    }

    /// The error of a failed fetch of `url`, naming the fetch counter.
    pub fn fetch_error(&self, url: &str, detail: &str) -> (r: String)
        ensures
            r@ == fetch_error_text(self@.item_count, url@, detail@),
    {
        let mut s = String::from_str("item(");
        let count = counter_string(self.item_count);
        s.append(count.as_str());
        s.append(") \"");
        s.append(url);
        s.append("\": ");
        s.append(detail);
        proof {
            reveal_strlit("item(");
            reveal_strlit(") \"");
            reveal_strlit("\": ");
        }
        s
    }
}

fn accepted_vec(links: &Vec<SubLink>) -> (r: Vec<String>)
    ensures
        r@ == accepted_links(links@),
{
    let mut out: Vec<String> = Vec::new();
    let mut i: usize = 0;
    while i < links.len()
        invariant
            i <= links@.len(),
            out@ == accepted_links(links@.subrange(0, i as int)),
        decreases links@.len() - i,
    {
        assert(links@.subrange(0, i + 1).drop_last() =~= links@.subrange(0, i as int));
        if links[i].accepted {
            out.push(links[i].href.clone());
        }
        i = i + 1;
    }
    assert(links@.subrange(0, links@.len() as int) =~= links@);
    out
}

fn followed_href(next: &Option<NextLink>) -> (r: Option<String>)
    ensures
        r == followed(*next),
{
    match next {
        Some(l) => if !l.denied && l.allowed {
            Some(l.href.clone())
        } else {
            None
        },
        None => None,
    }
}

fn line_of(s: &String) -> (r: String)
    ensures
        r@ == s@ + "\n"@,
{
    let mut t = s.clone();
    t.append("\n");
    t
}

fn diagnostic(head: &str, item: &String, markup: &String) -> (r: String)
    ensures
        r@ == head@ + item@ + "\n\n"@ + markup@,
{
    let mut t = String::from_str(head);
    t.append(item.as_str());
    t.append("\n\n");
    t.append(markup.as_str());
    t
}

impl Task {
    /// Decodes a fetched body with the configured encoding, parses it and
    /// reads the facts that extraction and link resolution need.
    pub fn read_page(&self, bytes: &[u8]) -> (r: Result<PageFacts, String>)
        ensures
            r is Ok <==> encoding_known(self.settings().encoding@),
            r matches Err(e) ==> e@ == unknown_encoding_msg(),
            r matches Ok(f) ==> facts_of(
                self.matchers(),
                decoded(self.settings().encoding@, bytes@),
                self.settings().is_inner_html,
                f,
            ),
    {
        match decode_page(self.base.encoding.as_str(), bytes) {
            Some(text) => {
                let page = Page::parse(text.as_str());
                Ok(gather(&self.matchers, &page, self.base.is_inner_html))
            },
            None => Err(String::from_str("unknown encoding")),
        }
    }

    fn records(&self, f: &PageFacts, item: &String) -> (r: Result<Vec<String>, String>)
        ensures
            r is Ok <==> page_records(self@, *f, *item) is Ok,
            r matches Err(e) ==> page_records(self@, *f, *item) == Err::<Seq<Seq<char>>, Seq<char>>(
                e@,
            ),
            r matches Ok(v) ==> page_records(self@, *f, *item) == Ok::<Seq<Seq<char>>, Seq<char>>(
                v@.map_values(|s: String| s@),
            ),
    {
        let mut out: Vec<String> = Vec::new();
        if self.skip_render {
            assert(out@.map_values(|s: String| s@) =~= Seq::empty());
            return Ok(out);
        }
        match &f.title {
            Some(Some(t)) => {
                out.push(line_of(t));
            },
            Some(None) => {
                return Err(diagnostic("no title found: ", item, &f.markup));
            },
            None => {},
        }
        match &f.content {
            Some(c) => {
                out.push(line_of(c));
            },
            None => {
                return Err(diagnostic("no content found: ", item, &f.markup));
            },
        }
        assert(out@.map_values(|s: String| s@) =~= match f.title {
            Some(Some(t)) => seq![t@ + "\n"@] + seq![f.content->0@ + "\n"@],
            _ => seq![f.content->0@ + "\n"@],
        });
        Ok(out)
    }

    /// Link resolution for a fetched page; see [`resolved`].
    fn resolve(&mut self, f: &PageFacts)
        requires
            old(self).wf(),
            target(old(self)@) is Some,
        ensures
            final(self).wf(),
            same_settings(final(self).settings(), old(self).settings()),
            final(self).output_path() == old(self).output_path(),
            final(self)@ == resolved(old(self)@, *f),
    {
        let len = self.base.url_list.len();
        if self.stack.len() == 0 {
            let acc = accepted_vec(&f.sub_links);
            let n = acc.len();
            let mut i: usize = n;
            while i > 0
                invariant
                    n == acc@.len(),
                    i <= n,
                    self.stack@ =~= Seq::new((n - i) as nat, |j: int| acc@[n - 1 - j]),
                    self.base == old(self).base,
                    self.current == old(self).current,
                    self.running == old(self).running,
                    self.item_count == old(self).item_count,
                    self.skip_render == old(self).skip_render,
                    self.output == old(self).output,
                    self.matchers == old(self).matchers,
                decreases i,
            {
                i = i - 1;
                self.stack.push(acc[i].clone());
            }
            assert(self.stack@ =~= acc@.reverse());
        } else {
            self.stack.pop();
        }
        assert(self.stack@ =~= stack_after(old(self)@, f.sub_links@));
        if self.stack.len() == 0 {
            match followed_href(&f.next_link) {
                Some(h) => {
                    self.base.url_list.set(self.current, h);
                },
                None => {
                    self.current = self.current + 1;
                    if self.current >= len {
                        self.running = false;
                    }
                },
            }
        }
    }

    /// Takes the facts of the page fetched for the current target: answers
    /// the records to write (none while extraction is skipped) and moves on
    /// per link resolution. On an error the task is left as it was.
    pub fn apply_page(&mut self, f: &PageFacts) -> (r: Result<Vec<String>, String>)
        requires
            old(self).wf(),
        ensures
            final(self).wf(),
            same_settings(final(self).settings(), old(self).settings()),
            final(self).output_path() == old(self).output_path(),
            r is Ok <==> page_outcome(old(self)@, *f) is Ok,
            r matches Err(e) ==> page_outcome(old(self)@, *f) == Err::<Seq<Seq<char>>, Seq<char>>(
                e@,
            ) && final(self)@ == old(self)@,
            r matches Ok(v) ==> page_outcome(old(self)@, *f) == Ok::<Seq<Seq<char>>, Seq<char>>(
                v@.map_values(|s: String| s@),
            ) && final(self)@ == after_page(old(self)@, *f),
    {
        let n = self.stack.len();
        let item = if n > 0 {
            self.stack[n - 1].clone()
        } else if self.current < self.base.url_list.len() {
            self.base.url_list[self.current].clone()
        } else {
            return Err(String::from_str("index out of board for current"));
        };
        let out = match self.records(f, &item) {
            Ok(v) => v,
            Err(e) => return Err(e),
        };
        if self.item_count < usize::MAX {
            self.item_count = self.item_count + 1;
        }
        self.skip_render = false;
        self.resolve(f);
        Ok(out)
    }
}

} // verus!
