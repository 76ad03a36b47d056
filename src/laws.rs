//! Properties of the traversal that relate several steps, proved over the
//! spec functions that the task's contracts use.
use vstd::prelude::*;
use crate::config::BaseConf;
use crate::matchers::Matchers;
use crate::outside::{first_markup_of, first_text_of};
use crate::page::{facts_of, PageFacts, SubLink};
use crate::task::{
    accepted_links, after_page, page_outcome, stack_after, started, step_fits, target, Step,
    TaskView,
};

verus! {

/// A next-page link that the allow pattern accepts and the deny pattern does
/// not reject overwrites the list entry under the cursor: the cursor stays and
/// the list keeps its length.
pub proof fn next_link_rewrites_entry(v: TaskView, f: PageFacts)
    requires
        v.current < v.list.len(),
        stack_after(v, f.sub_links@).len() == 0,
        f.next_link matches Some(l) && l.allowed && !l.denied,
    ensures
        after_page(v, f).list == v.list.update(v.current as int, f.next_link->0.href),
        after_page(v, f).current == v.current,
        after_page(v, f).list.len() == v.list.len(),
{
}

/// A next-page link that the deny pattern matches is not followed, whatever
/// the allow pattern says: the cursor advances and the list is unchanged.
pub proof fn denied_link_advances(v: TaskView, f: PageFacts)
    requires
        stack_after(v, f.sub_links@).len() == 0,
        f.next_link matches Some(l) && l.denied,
    ensures
        after_page(v, f).current == v.current + 1,
        after_page(v, f).list == v.list,
{
}

/// Sub-pages discovered on a page are stacked so that popping the stack visits
/// them in document order: the k-th pop yields the k-th accepted link.
pub proof fn subpages_pop_in_document_order(v: TaskView, links: Seq<SubLink>)
    requires
        v.stack.len() == 0,
    ensures
        stack_after(v, links).len() == accepted_links(links).len(),
        forall|k: int|
            0 <= k < accepted_links(links).len() ==> stack_after(v, links)[stack_after(v, links).len()
                - 1 - k] == #[trigger] accepted_links(links)[k],
{
}

/// While the sub-page stack is not empty, the cursor does not move and the
/// list entry is not rewritten.
pub proof fn stacked_subpages_hold_cursor(v: TaskView, f: PageFacts)
    requires
        stack_after(v, f.sub_links@).len() > 0,
    ensures
        after_page(v, f).current == v.current,
        after_page(v, f).list == v.list,
{
}

/// When the cursor reaches the end of the list, the run is no longer running
/// and the next step ends it without an error.
pub proof fn end_of_list_stops(v: TaskView, f: PageFacts, c: BaseConf, draw: u64, r: Result<Step, String>)
    requires
        v.current < v.list.len(),
        after_page(v, f).current >= after_page(v, f).list.len(),
        step_fits(after_page(v, f), c, draw, r),
    ensures
        !after_page(v, f).running,
        r matches Ok(Step::Stop),
{
}

/// A stop that comes while a page is being fetched lets that page be handled,
/// and the step after it ends the run without an error.
pub proof fn stop_ends_next_step(v: TaskView, f: PageFacts, c: BaseConf, draw: u64, r: Result<Step, String>)
    requires
        !v.running,
        step_fits(after_page(v, f), c, draw, r),
    ensures
        r matches Ok(Step::Stop),
{
}

/// The content that a page yields: its first content match, as markup when
/// `inner_html` is set and as text otherwise.
pub open spec fn content_of(m: Matchers, page: Seq<char>, inner_html: bool) -> Option<Seq<char>> {
    if inner_html {
        first_markup_of(page, m.content.source())
    } else {
        first_text_of(page, m.content.source())
    }
}

/// Without a title selector, the record written for a page is its first
/// content match (markup or text as configured), followed by a newline.
pub proof fn content_record_is_first_match(
    v: TaskView,
    m: Matchers,
    page: Seq<char>,
    inner_html: bool,
    f: PageFacts,
)
    requires
        facts_of(m, page, inner_html, f),
        m.title is None,
        !v.skip_render,
        target(v) is Some,
        content_of(m, page, inner_html) is Some,
    ensures
        page_outcome(v, f) == Ok::<Seq<Seq<char>>, Seq<char>>(
            seq![content_of(m, page, inner_html)->0 + "\n"@],
        ),
{
}

/// A run resumed at the end of the list ends at once, without an error and
/// without a fetch.
pub proof fn resume_at_end_stops(v: TaskView, c: BaseConf, draw: u64, r: Result<Step, String>)
    requires
        c.url_list_index == v.list.len(),
        step_fits(started(v, c), c, draw, r),
    ensures
        !started(v, c).running,
        r matches Ok(Step::Stop),
{
}

/// The first fetch of a run, wherever it starts, comes without a pause.
pub proof fn first_fetch_has_no_pause(v: TaskView, c: BaseConf, draw: u64, r: Result<Step, String>)
    requires
        step_fits(started(v, c), c, draw, r),
    ensures
        r matches Ok(Step::Fetch { pause_millis: p, .. }) ==> p is None,
{
}

} // verus!
