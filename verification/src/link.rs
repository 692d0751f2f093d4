//! The link by which an HTML page points at the recording behind it.

use vstd::prelude::*;

verus! {

/// The elements that point at a recording: a `link` with `rel="alternate"`
/// and one of the two media types of a recording.
pub const LINK_REL_SELECTOR: &'static str =
    "link[rel=\"alternate\"][type=\"application/x-asciicast\"], link[rel=\"alternate\"][type=\"application/asciicast+json\"]";

/// The attribute that holds the address of the recording.
pub const LINK_ATTRIBUTE: &'static str = "href";

/// What the selector engine finds in a page: `None` where it rejects
/// `selector`; otherwise, for each element of `html` that `selector`
/// matches, in the order in which the engine yields them, the value of the
/// element's attribute `name`, or `None` where the element has none.
pub uninterp spec fn selected_attr(html: Seq<char>, selector: Seq<char>, name: Seq<char>) -> Option<
    Seq<Option<Seq<char>>>,
>;

/// Runs the selector engine of `scraper` on a page: `Selector::parse` on
/// `selector`, `Html::parse_document` on `html`, `Html::select` to walk the
/// matching elements, and `Element::attr` on each of them. Nothing is
/// claimed of the outcome but that it is determined by the three texts.
#[verifier::external_body]
fn select_attr(html: &str, selector: &str, name: &str) -> (selection: Option<Vec<Option<String>>>)
    ensures
        selection.deep_view() == selected_attr(html@, selector@, name@),
{
    let selector = scraper::Selector::parse(selector).ok()?;
    let document = scraper::Html::parse_document(html);
    let matches = document.select(&selector);
    Some(matches.map(|element| element.value().attr(name).map(String::from)).collect())
}

/// The first value that is present, if any.
pub open spec fn first_present(values: Seq<Option<Seq<char>>>) -> Option<Seq<char>>
    decreases values.len(),
{
    if values.len() == 0 {
        None
    } else if values[0] is Some {
        values[0]
    } else {
        first_present(values.drop_first())
    }
}

/// The link that a selection yields: the first address among the matching
/// elements. A rejected selector matches nothing.
pub open spec fn link_among(selection: Option<Seq<Option<Seq<char>>>>) -> Option<Seq<char>> {
    match selection {
        None => None,
        Some(values) => first_present(values),
    }
}

/// The address of the recording that the page `html` points at, if it
/// points at one.
pub open spec fn linked_url(html: Seq<char>) -> Option<Seq<char>> {
    link_among(selected_attr(html, LINK_REL_SELECTOR@, LINK_ATTRIBUTE@))
}

/// `first_present` yields the value at the least index that holds one, and
/// nothing exactly where no index holds one.
pub proof fn first_present_is_first(values: Seq<Option<Seq<char>>>)
    ensures
        match first_present(values) {
            Some(value) => exists|i: int|
                0 <= i < values.len() && values[i] == Some(value) && forall|j: int|
                    0 <= j < i ==> values[j] is None,
            None => forall|i: int| 0 <= i < values.len() ==> values[i] is None,
        },
    decreases values.len(),
{
    if values.len() > 0 && values[0] is None {
        let rest = values.drop_first();
        first_present_is_first(rest);
        match first_present(rest) {
            Some(value) => {
                let i = choose|i: int|
                    0 <= i < rest.len() && rest[i] == Some(value) && forall|j: int|
                        0 <= j < i ==> rest[j] is None;
                assert forall|j: int| 0 <= j < i + 1 implies values[j] is None by {
                    if j > 0 {
                        assert(values[j] == rest[j - 1]);
                    }
                }
            },
            None => {
                assert forall|i: int| 0 <= i < values.len() implies values[i] is None by {
                    if i > 0 {
                        assert(values[i] == rest[i - 1]);
                    }
                }
            },
        }
    }
}

/// Picks the link out of a selection.
pub fn pick_link(selection: Option<Vec<Option<String>>>) -> (link: Option<String>)
    ensures
        link.deep_view() == link_among(selection.deep_view()),
{
    match selection {
        None => None,
        Some(values) => {
            let ghost all = values.deep_view();
            assert(all.skip(0) == all);
            let mut i: usize = 0;
            while i < values.len()
                invariant
                    i <= values.len(),
                    all == values.deep_view(),
                    selection.deep_view() == Some(all),
                    first_present(all) == first_present(all.skip(i as int)),
                decreases values.len() - i,
            {
                match &values[i] {
                    Some(address) => {
                        return Some(address.clone());
                    },
                    None => {
                        assert(all.skip(i as int).drop_first() == all.skip(i as int + 1));
                    },
                }
                i += 1;
            }
            None
        },
    }
}

/// Looks through the page `html` for the link to a recording.
pub fn find_link(html: &str) -> (link: Option<String>)
    ensures
        link.deep_view() == linked_url(html@),
{
    pick_link(select_attr(html, LINK_REL_SELECTOR, LINK_ATTRIBUTE))
}

} // verus!
