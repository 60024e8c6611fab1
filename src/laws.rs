use vstd::prelude::*;

use crate::error::{ExtractionError, ExtractionFailure};
use crate::extract::{extraction, floorplan_of, model_fields, page_extraction, reports};
use crate::json::JsonValue;
use crate::page::trimmed;
use crate::record::{ScrapeRecord, ScrapeResult};
use crate::text::after_first;

verus! {

/// What a call of `scrape` reports: the record's value, or the failing URL
/// and the error.
pub open spec fn outcome(r: Result<ScrapeResult, ExtractionFailure>) -> Result<ScrapeRecord, (Seq<char>, ExtractionError)> {
    match r {
        Ok(res) => Ok(res@),
        Err(f) => Err((f.url@, f.error)),
    }
}

/// The outcome with the floorplan link taken out of a record.
pub open spec fn without_floorplan(o: Result<ScrapeRecord, ExtractionError>) -> Result<ScrapeRecord, ExtractionError> {
    match o {
        Ok(r) => Ok(ScrapeRecord { floorplan_url: None, ..r }),
        Err(e) => Err(e),
    }
}

/// A page with a non-empty street address, a floorplan tab that is absent or
/// well formed, and a page model holding the three fields as non-empty
/// strings gives a record whose mandatory fields are all non-empty.
pub proof fn lemma_well_formed_page_extracts(
    url: Seq<char>,
    summary: Seq<char>,
    href: Option<Option<Seq<char>>>,
    model: JsonValue,
)
    requires
        summary.len() > 0,
        floorplan_of(url, href) is Ok,
        model_fields(model) is Ok,
    ensures
        extraction(url, Some(summary), href, Some(Some(model))) is Ok,
        extraction(url, Some(summary), href, Some(Some(model)))->Ok_0.complete(),
        extraction(url, Some(summary), href, Some(Some(model)))->Ok_0.url == url,
{
}

/// Extracting twice from the same line and page gives the same outcome.
pub proof fn lemma_extraction_idempotent(
    line: Seq<char>,
    html: Seq<char>,
    first: Result<ScrapeResult, ExtractionFailure>,
    second: Result<ScrapeResult, ExtractionFailure>,
)
    requires
        reports(first, trimmed(line), page_extraction(line, html)),
        reports(second, trimmed(line), page_extraction(line, html)),
    ensures
        outcome(first) == outcome(second),
{
}

/// Without a floorplan tab, or with a tab that has no `href`, the record has
/// no floorplan link and is otherwise what it would be with a well-formed
/// tab: the same fields, or the same error.
pub proof fn lemma_absent_floorplan(
    url: Seq<char>,
    summary: Option<Seq<char>>,
    href: Option<Option<Seq<char>>>,
    other: Option<Option<Seq<char>>>,
    model: Option<Option<JsonValue>>,
)
    requires
        href is None || href == Some(None::<Seq<char>>),
        floorplan_of(url, other) is Ok,
    ensures
        extraction(url, summary, href, model) matches Ok(r) ==> r.floorplan_url is None,
        extraction(url, summary, href, model) == without_floorplan(extraction(url, summary, other, model)),
{
    let a = extraction(url, summary, href, model);
    let b = extraction(url, summary, other, model);
    if a is Ok && b is Ok {
        assert(a->Ok_0 == ScrapeRecord { floorplan_url: None, ..b->Ok_0 });
    }
}

proof fn lemma_no_slash(h: Seq<char>)
    requires
        !h.contains('/'),
    ensures
        after_first(h, seq!['/']) is None,
    decreases h.len(),
{
    if h.len() >= 1 {
        assert(h.subrange(0, 1)[0] == h[0]);
        assert(h.subrange(0, 1) != seq!['/']) by {
            assert(h[0] != '/');
        }
        let t = h.subrange(1, h.len() as int);
        assert forall|i: int| 0 <= i < t.len() implies t[i] != '/' by {
            assert(t[i] == h[i + 1]);
        }
        lemma_no_slash(t);
    }
}

/// A floorplan `href` without a `/` makes the extraction fail as a malformed
/// anchor, once the street address has been found.
pub proof fn lemma_malformed_anchor(
    url: Seq<char>,
    summary: Seq<char>,
    href: Seq<char>,
    model: Option<Option<JsonValue>>,
)
    requires
        summary.len() > 0,
        !href.contains('/'),
    ensures
        extraction(url, Some(summary), Some(Some(href)), model) == Err::<ScrapeRecord, ExtractionError>(
            ExtractionError::MalformedAnchor,
        ),
{
    lemma_no_slash(href);
}

} // verus!
