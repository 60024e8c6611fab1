use vstd::prelude::*;

use crate::error::{ExtractionError, ExtractionFailure, Field};
use crate::json::{get_text_at, json_of, parse_json, text_at, JsonValue};
use crate::page::{
    first_attr_with_attr, first_text_with_attr, nested_option_view, strings_view,
    texts_with_name, trim, trimmed, Page,
};
use crate::record::{option_view, ScrapeRecord, ScrapeResult};
use crate::text::{
    after_first, after_first_chars, chars_of, contains_chars, contains_seq, string_of, strip_statement_end, strip_statement_end_chars,
    tail_pieces, tail_pieces_chars,
};

verus! {

/// Attribute and value that mark the street-address node.
pub const ADDRESS_ATTR: &'static str = "itemprop";
pub const ADDRESS_VALUE: &'static str = "streetAddress";
/// The `href` of the floorplan tab.
pub const FLOORPLAN_ATTR: &'static str = "href";
pub const FLOORPLAN_HREF: &'static str = "#/floorplan?activePlan=1";
/// Tag of the element that holds the page model, the token that marks it, and
/// the text between the variable and its value.
pub const SCRIPT_TAG: &'static str = "script";
pub const MODEL_MARKER: &'static str = "PAGE_MODEL";
pub const MODEL_SEPARATOR: &'static str = " = ";
/// Keys of the page model.
pub const KEY_PROPERTY_DATA: &'static str = "propertyData";
pub const KEY_PRICES: &'static str = "prices";
pub const KEY_PRIMARY_PRICE: &'static str = "primaryPrice";
pub const KEY_TEXT: &'static str = "text";
pub const KEY_PAGE_TITLE: &'static str = "pageTitle";
pub const KEY_MAP_URLS: &'static str = "staticMapImgUrls";
pub const KEY_MAP_URL_MOBILE: &'static str = "staticMapImgUrlMobile";

/// The absolute floorplan link built from the tab's `href`: `None` when the
/// tab or its `href` is absent; the part after the first `/` appended to the
/// page's URL otherwise; an error when the `href` has no `/`.
pub open spec fn floorplan_of(url: Seq<char>, href: Option<Option<Seq<char>>>) -> Result<Option<Seq<char>>, ExtractionError> {
    match href {
        Some(Some(h)) => match after_first(h, seq!['/']) {
            Some(t) => Ok(Some(url + t)),
            None => Err(ExtractionError::MalformedAnchor),
        },
        _ => Ok(None),
    }
}

/// Index of the first script whose text holds the model marker.
pub open spec fn model_script(scripts: Seq<Seq<char>>, marker: Seq<char>) -> Option<int>
    decreases scripts.len(),
{
    if scripts.len() == 0 {
        None
    } else if contains_seq(scripts.last(), marker) && model_script(scripts.drop_last(), marker) is None {
        Some(scripts.len() - 1)
    } else {
        model_script(scripts.drop_last(), marker)
    }
}

/// The JSON text of the page model: the first script that holds the marker,
/// with everything up to the first separator dropped, the later separators
/// taken out, and the statement's closing `;` and whitespace cut off.
pub open spec fn model_text_of(scripts: Seq<Seq<char>>) -> Option<Seq<char>> {
    match model_script(scripts, MODEL_MARKER@) {
        Some(i) => Some(strip_statement_end(tail_pieces(scripts[i], MODEL_SEPARATOR@))),
        None => None,
    }
}

/// The price, title and map image read from the page model.
pub open spec fn model_fields(model: JsonValue) -> Result<(Seq<char>, Seq<char>, Seq<char>), ExtractionError> {
    match text_at(model, KEY_PROPERTY_DATA@, Field::PropertyData, KEY_PRICES@, Field::Prices, KEY_PRIMARY_PRICE@, Field::PrimaryPrice) {
        Err(e) => Err(e),
        Ok(price) => match text_at(model, KEY_PROPERTY_DATA@, Field::PropertyData, KEY_TEXT@, Field::Text, KEY_PAGE_TITLE@, Field::PageTitle) {
            Err(e) => Err(e),
            Ok(title) => match text_at(model, KEY_PROPERTY_DATA@, Field::PropertyData, KEY_MAP_URLS@, Field::StaticMapImgUrls, KEY_MAP_URL_MOBILE@, Field::StaticMapImgUrlMobile) {
                Err(e) => Err(e),
                Ok(map) => Ok((price, title, map)),
            },
        },
    }
}

/// The record for page `url`, given the trimmed street-address text, the
/// floorplan tab's `href`, and the page model: `None` when no script holds
/// it, `Some(None)` when its text does not decode. The first step that fails
/// decides the error.
pub open spec fn extraction(
    url: Seq<char>,
    summary: Option<Seq<char>>,
    href: Option<Option<Seq<char>>>,
    model: Option<Option<JsonValue>>,
) -> Result<ScrapeRecord, ExtractionError> {
    match summary {
        None => Err(ExtractionError::MissingField(Field::Summary)),
        Some(s) => if s.len() == 0 {
            Err(ExtractionError::MissingField(Field::Summary))
        } else {
            match floorplan_of(url, href) {
                Err(e) => Err(e),
                Ok(floorplan) => match model {
                    None => Err(ExtractionError::MissingField(Field::PageModel)),
                    Some(None) => Err(ExtractionError::Parse),
                    Some(Some(j)) => match model_fields(j) {
                        Err(e) => Err(e),
                        Ok((price, title, map)) => Ok(ScrapeRecord {
                            url,
                            summary: s,
                            human_identifier: title,
                            price,
                            floorplan_url: floorplan,
                            location_image_url: map,
                        }),
                    },
                },
            }
        },
    }
}

/// The page model found among the scripts, decoded.
pub open spec fn model_of(scripts: Seq<Seq<char>>) -> Option<Option<JsonValue>> {
    match model_text_of(scripts) {
        Some(t) => Some(json_of(t)),
        None => None,
    }
}

/// The record for page `url` from the parts read out of its document.
pub open spec fn extraction_from_parts(
    url: Seq<char>,
    summary: Option<Seq<char>>,
    href: Option<Option<Seq<char>>>,
    scripts: Seq<Seq<char>>,
) -> Result<ScrapeRecord, ExtractionError> {
    extraction(url, summary, href, model_of(scripts))
}

pub open spec fn trimmed_option(o: Option<Seq<char>>) -> Option<Seq<char>> {
    match o {
        Some(s) => Some(trimmed(s)),
        None => None,
    }
}

/// The record for the input line `line` and the page `html` fetched for it.
pub open spec fn page_extraction(line: Seq<char>, html: Seq<char>) -> Result<ScrapeRecord, ExtractionError> {
    extraction_from_parts(
        trimmed(line),
        trimmed_option(first_text_with_attr(html, ADDRESS_ATTR@, ADDRESS_VALUE@)),
        first_attr_with_attr(html, FLOORPLAN_ATTR@, FLOORPLAN_HREF@, FLOORPLAN_ATTR@),
        texts_with_name(html, SCRIPT_TAG@),
    )
}

/// `r` is the outcome `o` for page `url`: the record itself, or a failure
/// that carries `url` and the error.
pub open spec fn reports(r: Result<ScrapeResult, ExtractionFailure>, url: Seq<char>, o: Result<ScrapeRecord, ExtractionError>) -> bool {
    match r {
        Ok(res) => o == Ok::<ScrapeRecord, ExtractionError>(res@),
        Err(f) => o == Err::<ScrapeRecord, ExtractionError>(f.error) && f.url@ == url,
    }
}

/// Builds the floorplan link of page `url` from the tab's `href`.
pub fn floorplan_link(url: &str, href: Option<Option<String>>) -> (r: Result<Option<String>, ExtractionError>)
    ensures
        r matches Ok(f) ==> floorplan_of(url@, nested_option_view(href)) == Ok::<Option<Seq<char>>, ExtractionError>(option_view(f)),
        r matches Err(e) ==> floorplan_of(url@, nested_option_view(href)) == Err::<Option<Seq<char>>, ExtractionError>(e),
{
    match href {
        Some(Some(h)) => {
            let hc = chars_of(h.as_str());
            let slash: Vec<char> = vec!['/'];
            assert(slash@ =~= seq!['/']);
            match after_first_chars(&hc, &slash) {
                Some(t) => {
                    let mut link: Vec<char> = chars_of(url);
                    let mut k: usize = 0;
                    let ghost start = link@;
                    while k < t.len()
                        invariant
                            k <= t@.len(),
                            start == url@,
                            link@ == start + t@.subrange(0, k as int),
                        decreases t@.len() - k,
                    {
                        link.push(t[k]);
                        proof {
                            assert(link@ =~= start + t@.subrange(0, k + 1));
                        }
                        k = k + 1;
                    }
                    assert(t@.subrange(0, t@.len() as int) =~= t@);
                    Ok(Some(string_of(&link)))
                },
                None => Err(ExtractionError::MalformedAnchor),
            }
        },
        _ => Ok(None),
    }
}

/// Finds the first script that holds the model marker and returns its JSON
/// text.
pub fn page_model_text(scripts: &Vec<String>) -> (r: Option<String>)
    ensures
        option_view(r) == model_text_of(strings_view(scripts@)),
{
    let marker = chars_of(MODEL_MARKER);
    let sep = chars_of(MODEL_SEPARATOR);
    let mut i: usize = 0;
    while i < scripts.len()
        invariant
            i <= scripts@.len(),
            marker@ == MODEL_MARKER@,
            sep@ == MODEL_SEPARATOR@,
            model_script(strings_view(scripts@.subrange(0, i as int)), MODEL_MARKER@) is None,
        decreases scripts@.len() - i,
    {
        let s = chars_of(scripts[i].as_str());
        let ghost pre = strings_view(scripts@.subrange(0, i as int));
        let ghost next = strings_view(scripts@.subrange(0, i + 1));
        proof {
            assert(next.drop_last() =~= pre);
            assert(next.last() == scripts@[i as int]@);
        }
        if contains_chars(&s, &marker) {
            let t = strip_statement_end_chars(&tail_pieces_chars(&s, &sep));
            proof {
                assert(model_script(next, MODEL_MARKER@) == Some(i as int));
                lemma_model_script_prefix(strings_view(scripts@), i as int + 1);
                assert(strings_view(scripts@).subrange(0, i + 1) =~= next);
            }
            return Some(string_of(&t));
        }
        i = i + 1;
    }
    proof {
        assert(scripts@.subrange(0, i as int) =~= scripts@);
    }
    None
}

/// A script found in a prefix of the list is the script found in the list.
proof fn lemma_model_script_prefix(scripts: Seq<Seq<char>>, n: int)
    requires
        0 <= n <= scripts.len(),
        model_script(scripts.subrange(0, n), MODEL_MARKER@) is Some,
    ensures
        model_script(scripts, MODEL_MARKER@) == model_script(scripts.subrange(0, n), MODEL_MARKER@),
    decreases scripts.len() - n,
{
    if n < scripts.len() {
        assert(scripts.subrange(0, n + 1).drop_last() =~= scripts.subrange(0, n));
        lemma_model_script_prefix(scripts, n + 1);
    } else {
        assert(scripts.subrange(0, n) =~= scripts);
    }
}

/// Reads the three page-model fields.
pub fn read_model(model: &JsonValue) -> (r: Result<(String, String, String), ExtractionError>)
    ensures
        r matches Ok((p, t, m)) ==> model_fields(*model) == Ok::<(Seq<char>, Seq<char>, Seq<char>), ExtractionError>((p@, t@, m@)),
        r matches Err(e) ==> model_fields(*model) == Err::<(Seq<char>, Seq<char>, Seq<char>), ExtractionError>(e),
{
    let price = match get_text_at(model, KEY_PROPERTY_DATA, Field::PropertyData, KEY_PRICES, Field::Prices, KEY_PRIMARY_PRICE, Field::PrimaryPrice) {
        Ok(v) => v,
        Err(e) => return Err(e),
    };
    let title = match get_text_at(model, KEY_PROPERTY_DATA, Field::PropertyData, KEY_TEXT, Field::Text, KEY_PAGE_TITLE, Field::PageTitle) {
        Ok(v) => v,
        Err(e) => return Err(e),
    };
    let map = match get_text_at(model, KEY_PROPERTY_DATA, Field::PropertyData, KEY_MAP_URLS, Field::StaticMapImgUrls, KEY_MAP_URL_MOBILE, Field::StaticMapImgUrlMobile) {
        Ok(v) => v,
        Err(e) => return Err(e),
    };
    Ok((price, title, map))
}

/// Builds the record for page `url` from the trimmed street-address text, the
/// floorplan tab's `href` and the decoded page model (`None`: no script holds
/// it; `Some(None)`: its text does not decode).
pub fn extract_with_model(
    url: String,
    summary: Option<String>,
    href: Option<Option<String>>,
    model: Option<Option<JsonValue>>,
) -> (r: Result<ScrapeResult, ExtractionFailure>)
    ensures
        reports(r, url@, extraction(url@, option_view(summary), nested_option_view(href), model)),
        r matches Ok(res) ==> res@.complete(),
{
    let summary = match summary {
        Some(s) => if s.as_str().is_empty() {
            return Err(ExtractionFailure { url, error: ExtractionError::MissingField(Field::Summary) });
        } else {
            s
        },
        None => return Err(ExtractionFailure { url, error: ExtractionError::MissingField(Field::Summary) }),
    };
    let floorplan_url = match floorplan_link(url.as_str(), href) {
        Ok(f) => f,
        Err(error) => return Err(ExtractionFailure { url, error }),
    };
    let model = match model {
        Some(Some(j)) => j,
        Some(None) => return Err(ExtractionFailure { url, error: ExtractionError::Parse }),
        None => return Err(ExtractionFailure { url, error: ExtractionError::MissingField(Field::PageModel) }),
    };
    match read_model(&model) {
        Ok((price, human_identifier, location_image_url)) => Ok(ScrapeResult {
            url,
            summary,
            human_identifier,
            price,
            floorplan_url,
            location_image_url,
        }),
        Err(error) => Err(ExtractionFailure { url, error }),
    }
}

/// Builds the record for page `url` from the parts read out of its document:
/// the trimmed street-address text, the floorplan tab's `href` and the texts
/// of its scripts.
pub fn extract_parts(
    url: String,
    summary: Option<String>,
    href: Option<Option<String>>,
    scripts: &Vec<String>,
) -> (r: Result<ScrapeResult, ExtractionFailure>)
    ensures
        reports(r, url@, extraction_from_parts(url@, option_view(summary), nested_option_view(href), strings_view(scripts@))),
        r matches Ok(res) ==> res@.complete(),
{
    let model = match page_model_text(scripts) {
        Some(t) => Some(parse_json(t.as_str())),
        None => None,
    };
    extract_with_model(url, summary, href, model)
}

/// Extracts the record for the input line `line` from the page `html`
/// fetched for it.
pub fn scrape(line: &str, html: &str) -> (r: Result<ScrapeResult, ExtractionFailure>)
    ensures
        reports(r, trimmed(line@), page_extraction(line@, html@)),
        r matches Ok(res) ==> res@.complete(),
{
    let url = trim(line);
    let page = Page::parse(html);
    let summary = match page.first_text_with_attr(ADDRESS_ATTR, ADDRESS_VALUE) {
        Some(t) => Some(trim(t.as_str())),
        None => None,
    };
    let href = page.first_attr_with_attr(FLOORPLAN_ATTR, FLOORPLAN_HREF, FLOORPLAN_ATTR);
    let scripts = page.texts_with_name(SCRIPT_TAG);
    extract_parts(url, summary, href, &scripts)
}

} // verus!
