use vstd::prelude::*;

verus! {

/// One listing, as extracted from its page.
#[derive(Debug, Clone, PartialEq, Eq)]
pub struct ScrapeResult {
    pub url: String,
    pub summary: String,
    pub human_identifier: String,
    pub price: String,
    pub floorplan_url: Option<String>,
    pub location_image_url: String,
}

/// The mathematical value of a [`ScrapeResult`].
pub struct ScrapeRecord {
    pub url: Seq<char>,
    pub summary: Seq<char>,
    pub human_identifier: Seq<char>,
    pub price: Seq<char>,
    pub floorplan_url: Option<Seq<char>>,
    pub location_image_url: Seq<char>,
}

pub open spec fn option_view(o: Option<String>) -> Option<Seq<char>> {
    match o {
        Some(s) => Some(s@),
        None => None,
    }
}

impl View for ScrapeResult {
    type V = ScrapeRecord;

    open spec fn view(&self) -> ScrapeRecord {
        ScrapeRecord {
            url: self.url@,
            summary: self.summary@,
            human_identifier: self.human_identifier@,
            price: self.price@,
            floorplan_url: option_view(self.floorplan_url),
            location_image_url: self.location_image_url@,
        }
    }
}

impl ScrapeRecord {
    /// Every field but the floorplan link is non-empty.
    pub open spec fn complete(self) -> bool {
        &&& self.summary.len() > 0
        &&& self.human_identifier.len() > 0
        &&& self.price.len() > 0
        &&& self.location_image_url.len() > 0
    }
}

/// Options that decide which records are passed on.
#[derive(Debug, Clone, Copy)]
pub struct FilterOptions {
    /// Drop every record that has no floorplan link.
    pub floorplan: bool,
}

/// Whether `filter` keeps a record under the given options.
pub open spec fn kept(floorplan: bool, res: ScrapeResult) -> bool {
    !(floorplan && res.floorplan_url is None)
}

/// Passes the record on unchanged, unless the options ask for a floorplan
/// and the record has none.
pub fn filter<'a, 'b>(cfg: &'a FilterOptions, res: &'b ScrapeResult) -> (r: Option<&'b ScrapeResult>)
    ensures
        kept(cfg.floorplan, *res) ==> r == Some(res),
        !kept(cfg.floorplan, *res) ==> r is None,
{
    if cfg.floorplan && res.floorplan_url.is_none() {
        None
    } else {
        Some(res)
    }
}

/// Filtering drops exactly the records without a floorplan, and only when
/// asked to; whatever it keeps is the record itself.
pub proof fn lemma_filter_cases(floorplan: bool, res: ScrapeResult)
    ensures
        floorplan && res.floorplan_url is None ==> !kept(floorplan, res),
        floorplan && res.floorplan_url is Some ==> kept(floorplan, res),
        !floorplan ==> kept(floorplan, res),
{
}

} // verus!
