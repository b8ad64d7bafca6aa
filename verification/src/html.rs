use vstd::prelude::*;
use crate::pattern::group_view;
use crate::text::views;

verus! {

/// What the library reads of one selected element: its enclosing nodes,
/// innermost first, each with its tag name where it is an element, and its
/// text nodes in document order.
pub struct SelectedElement {
    pub ancestors: Vec<Option<String>>,
    pub texts: Vec<String>,
}

pub open spec fn tags_view(ts: Seq<Option<String>>) -> Seq<Option<Seq<char>>> {
    ts.map_values(|t: Option<String>| group_view(t))
}

impl View for SelectedElement {
    type V = (Seq<Option<Seq<char>>>, Seq<Seq<char>>);

    open spec fn view(&self) -> (Seq<Option<Seq<char>>>, Seq<Seq<char>>) {
        (tags_view(self.ancestors@), views(self.texts@))
    }
}

/// The elements that `scraper::Html::parse_document(html).select(selector)`
/// yields, in the order it yields them, or `None` where `scraper::Selector::parse`
/// refuses the selector.
pub uninterp spec fn html_selected(html: Seq<char>, selector: Seq<char>) -> Option<
    Seq<(Seq<Option<Seq<char>>>, Seq<Seq<char>>)>,
>;

/// For each element that `outer` selects, in the order `Html::select`
/// yields them, the text nodes
/// of the first element under it that `inner` selects; `None` where a
/// selector does not parse.
pub uninterp spec fn html_first_within(html: Seq<char>, outer: Seq<char>, inner: Seq<char>) -> Option<
    Seq<Option<Seq<Seq<char>>>>,
>;

pub open spec fn selected_view(r: Option<Vec<SelectedElement>>) -> Option<
    Seq<(Seq<Option<Seq<char>>>, Seq<Seq<char>>)>,
> {
    match r {
        Some(v) => Some(v@.map_values(|e: SelectedElement| e@)),
        None => None,
    }
}

pub open spec fn opt_texts_view(t: Option<Vec<String>>) -> Option<Seq<Seq<char>>> {
    match t {
        Some(v) => Some(views(v@)),
        None => None,
    }
}

pub open spec fn firsts_view(r: Option<Vec<Option<Vec<String>>>>) -> Option<Seq<Option<Seq<Seq<char>>>>> {
    match r {
        Some(v) => Some(v@.map_values(|t: Option<Vec<String>>| opt_texts_view(t))),
        None => None,
    }
}

/// Calls `scraper::Selector::parse`, `scraper::Html::parse_document` and
/// `Html::select`, and reads each selected element's ancestors (the tag name
/// of each that is an element) and its text nodes. The contract claims only that the result is the one
/// these give (`html_selected`); how HTML is parsed and matched is not stated.
#[verifier::external_body]
pub(crate) fn select_elements(html: &str, selector: &str) -> (res: Option<Vec<SelectedElement>>)
    ensures
        selected_view(res) == html_selected(html@, selector@),
{
    let sel = scraper::Selector::parse(selector).ok()?;
    let doc = scraper::Html::parse_document(html);
    Some(doc.select(&sel).map(|e| SelectedElement {
        ancestors: e.ancestors().map(|a| a.value().as_element().map(|el| el.name().to_string())).collect(),
        texts: e.text().map(|t| t.to_string()).collect(),
    }).collect())
}

/// Calls `scraper::Selector::parse` on both selectors,
/// `scraper::Html::parse_document`, `Html::select` with `outer`, and
/// `ElementRef::select` with `inner` under each element found, keeping the
/// text nodes of the first match. The contract claims only that the result
/// is the one these give (`html_first_within`).
#[verifier::external_body]
pub(crate) fn select_first_within(html: &str, outer: &str, inner: &str) -> (res: Option<Vec<Option<Vec<String>>>>)
    ensures
        firsts_view(res) == html_first_within(html@, outer@, inner@),
{
    let o = scraper::Selector::parse(outer).ok()?;
    let i = scraper::Selector::parse(inner).ok()?;
    let doc = scraper::Html::parse_document(html);
    Some(doc.select(&o).map(|r| r.select(&i).next().map(|el| el.text().map(|t| t.to_string()).collect())).collect())
}

} // verus!
