use vstd::prelude::*;

use select::document::Document;
use select::predicate::{Attr, Name};

use crate::record::option_view;

verus! {

#[verifier::external_type_specification]
#[verifier::external_body]
pub struct ExDocument(Document);

/// The text of the first node, in document order, whose attribute `attr`
/// equals `value`, in the document parsed from `html`.
pub uninterp spec fn first_text_with_attr(html: Seq<char>, attr: Seq<char>, value: Seq<char>) -> Option<Seq<char>>;

/// The attribute `wanted` of the first node, in document order, whose
/// attribute `attr` equals `value`: `None` when there is no such node.
pub uninterp spec fn first_attr_with_attr(
    html: Seq<char>,
    attr: Seq<char>,
    value: Seq<char>,
    wanted: Seq<char>,
) -> Option<Option<Seq<char>>>;

/// The texts of all elements named `name`, in document order.
pub uninterp spec fn texts_with_name(html: Seq<char>, name: Seq<char>) -> Seq<Seq<char>>;

/// `s` without leading and trailing whitespace.
pub uninterp spec fn trimmed(s: Seq<char>) -> Seq<char>;

pub open spec fn strings_view(v: Seq<String>) -> Seq<Seq<char>> {
    v.map_values(|s: String| s@)
}

/// An HTML page together with the document parsed from it.
pub(crate) struct Page {
    html: String,
    doc: Document,
}

impl Page {
    /// The HTML text that the document was parsed from.
    pub(crate) closed spec fn source(&self) -> Seq<char> {
        self.html@
    }

    /// Relies on select's `Document::from(&str)`: parses the HTML text.
    #[verifier::external_body]
    pub(crate) fn parse(html: &str) -> (r: Page)
        ensures
            r.source() == html@,
    {
        Page { html: html.to_owned(), doc: Document::from(html) }
    }

    /// Relies on select's `Document::find` with an `Attr` predicate and on
    /// `Node::text`: the text of the first matching node.
    #[verifier::external_body]
    pub(crate) fn first_text_with_attr(&self, attr: &str, value: &str) -> (r: Option<String>)
        ensures
            option_view(r) == first_text_with_attr(self.source(), attr@, value@),
    {
        self.doc.find(Attr(attr, value)).next().map(|n| n.text())
    }

    /// Relies on select's `Document::find` with an `Attr` predicate and on
    /// `Node::attr`: an attribute of the first matching node.
    #[verifier::external_body]
    pub(crate) fn first_attr_with_attr(&self, attr: &str, value: &str, wanted: &str) -> (r: Option<Option<String>>)
        ensures
            nested_option_view(r) == first_attr_with_attr(self.source(), attr@, value@, wanted@),
    {
        self.doc.find(Attr(attr, value)).next().map(|n| n.attr(wanted).map(|a| a.to_owned()))
    }

    /// Relies on select's `Document::find` with a `Name` predicate and on
    /// `Node::text`: the texts of all elements of one name.
    #[verifier::external_body]
    pub(crate) fn texts_with_name(&self, name: &str) -> (r: Vec<String>)
        ensures
            strings_view(r@) == texts_with_name(self.source(), name@),
    {
        self.doc.find(Name(name)).map(|n| n.text()).collect()
    }
}

pub open spec fn nested_option_view(o: Option<Option<String>>) -> Option<Option<Seq<char>>> {
    match o {
        Some(i) => Some(option_view(i)),
        None => None,
    }
}

/// Relies on str::trim: removes leading and trailing whitespace.
#[verifier::external_body]
pub(crate) fn trim(s: &str) -> (r: String)
    ensures
        r@ == trimmed(s@),
{
    s.trim().to_owned()
}

} // verus!
