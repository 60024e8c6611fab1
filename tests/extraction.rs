use rightscrapex::{
    extract_parts, extract_with_model, filter, floorplan_link, page_model_text, read_model,
    scrape, ExtractionError, Field, FilterOptions, JsonValue, ScrapeResult,
};

const MODEL: &str = r#"{"propertyData":{"prices":{"primaryPrice":"£500,000"},"text":{"pageTitle":"2 bed flat"},"staticMapImgUrls":{"staticMapImgUrlMobile":"http://img/map.png"}}}"#;

fn page(address: &str, extra: &str, model: &str) -> String {
    format!(
        "<html><head><script>var x = 1;</script><script>var PAGE_MODEL = {};</script></head><body><h1 itemprop=\"streetAddress\">{}</h1>{}</body></html>",
        model, address, extra
    )
}

fn s(x: &str) -> String {
    x.to_string()
}

fn obj(entries: Vec<(&str, JsonValue)>) -> JsonValue {
    JsonValue::Object(entries.into_iter().map(|(k, v)| (k.to_string(), v)).collect())
}

fn model_with_price(price: JsonValue) -> JsonValue {
    obj(vec![(
        "propertyData",
        obj(vec![
            ("prices", obj(vec![("primaryPrice", price)])),
            ("text", obj(vec![("pageTitle", JsonValue::Str(s("2 bed flat")))])),
            (
                "staticMapImgUrls",
                obj(vec![("staticMapImgUrlMobile", JsonValue::Str(s("http://img/map.png")))]),
            ),
        ]),
    )])
}

fn record(floorplan: Option<&str>) -> ScrapeResult {
    ScrapeResult {
        url: s("http://example/123"),
        summary: s("12 Test St"),
        human_identifier: s("2 bed flat"),
        price: s("£500,000"),
        floorplan_url: floorplan.map(s),
        location_image_url: s("http://img/map.png"),
    }
}

#[test]
fn end_to_end_example_page() {
    let html = page("12 Test St", "", MODEL);
    let r = scrape("http://example/123", &html).unwrap();
    assert_eq!(r, record(None));
}

#[test]
fn input_line_and_address_are_trimmed() {
    let html = page("\n   12 Test St  \n", "", MODEL);
    let r = scrape("  http://example/123 \n", &html).unwrap();
    assert_eq!(r.url, "http://example/123");
    assert_eq!(r.summary, "12 Test St");
}

#[test]
fn floorplan_tab_gives_absolute_link() {
    let html = page("12 Test St", "<a href=\"#/floorplan?activePlan=1\">Floorplan</a>", MODEL);
    let r = scrape("http://example/123", &html).unwrap();
    assert_eq!(r.floorplan_url.as_deref(), Some("http://example/123floorplan?activePlan=1"));
    assert_eq!(r.price, "£500,000");
}

#[test]
fn absent_floorplan_leaves_other_fields() {
    let with = scrape(
        "http://example/123",
        &page("12 Test St", "<a href=\"#/floorplan?activePlan=1\">Floorplan</a>", MODEL),
    )
    .unwrap();
    let without = scrape("http://example/123", &page("12 Test St", "", MODEL)).unwrap();
    assert_eq!(without.floorplan_url, None);
    assert_eq!(ScrapeResult { floorplan_url: None, ..with }, without);
}

#[test]
fn extracting_twice_gives_the_same_result() {
    let html = page("12 Test St", "", MODEL);
    assert_eq!(scrape("http://example/123", &html), scrape("http://example/123", &html));
    let bad = page("12 Test St", "", "{");
    assert_eq!(scrape("http://example/123", &bad), scrape("http://example/123", &bad));
}

#[test]
fn well_formed_page_has_non_empty_fields() {
    let r = scrape("http://example/123", &page("12 Test St", "", MODEL)).unwrap();
    assert!(!r.summary.is_empty());
    assert!(!r.human_identifier.is_empty());
    assert!(!r.price.is_empty());
    assert!(!r.location_image_url.is_empty());
}

#[test]
fn floorplan_href_without_slash_is_malformed() {
    assert_eq!(
        floorplan_link("http://example/123", Some(Some(s("floorplan")))),
        Err(ExtractionError::MalformedAnchor)
    );
    let r = extract_with_model(
        s("http://example/123"),
        Some(s("12 Test St")),
        Some(Some(s("#floorplan"))),
        Some(Some(model_with_price(JsonValue::Str(s("£1"))))),
    )
    .unwrap_err();
    assert_eq!(r.url, "http://example/123");
    assert_eq!(r.error, ExtractionError::MalformedAnchor);
}

#[test]
fn floorplan_link_cuts_at_first_slash() {
    assert_eq!(
        floorplan_link("http://a/", Some(Some(s("x/y/z")))),
        Ok(Some(s("http://a/y/z")))
    );
    assert_eq!(floorplan_link("http://a/", Some(None)), Ok(None));
    assert_eq!(floorplan_link("http://a/", None), Ok(None));
}

#[test]
fn filter_drops_only_records_without_floorplan_when_asked() {
    let on = FilterOptions { floorplan: true };
    let off = FilterOptions { floorplan: false };
    let without = record(None);
    let with = record(Some("http://example/123floorplan?activePlan=1"));
    assert_eq!(filter(&on, &without), None);
    assert_eq!(filter(&on, &with), Some(&with));
    assert_eq!(filter(&off, &without), Some(&without));
    assert_eq!(filter(&off, &with), Some(&with));
}

#[test]
fn numeric_primary_price_is_type_mismatch() {
    let r = read_model(&model_with_price(JsonValue::Number(s("500000"))));
    assert_eq!(r, Err(ExtractionError::TypeMismatch(Field::PrimaryPrice)));
    assert_eq!(Field::PrimaryPrice.name(), "primaryPrice");
    let model = MODEL.replace("\"£500,000\"", "500000");
    let e = scrape("http://example/123", &page("12 Test St", "", &model)).unwrap_err();
    assert_eq!(e.error, ExtractionError::TypeMismatch(Field::PrimaryPrice));
    assert_eq!(e.url, "http://example/123");
}

#[test]
fn missing_address_is_reported() {
    let html = "<html><script>var PAGE_MODEL = {}</script></html>";
    let e = scrape("http://example/1", html).unwrap_err();
    assert_eq!(e.error, ExtractionError::MissingField(Field::Summary));
    let e = scrape("http://example/1", &page("   ", "", MODEL)).unwrap_err();
    assert_eq!(e.error, ExtractionError::MissingField(Field::Summary));
}

#[test]
fn missing_page_model_is_reported() {
    let html = "<html><script>var OTHER = {}</script><p itemprop=\"streetAddress\">1 A St</p></html>";
    let e = scrape("http://example/1", html).unwrap_err();
    assert_eq!(e.error, ExtractionError::MissingField(Field::PageModel));
}

#[test]
fn undecodable_page_model_is_parse_error() {
    let e = scrape("http://example/1", &page("1 A St", "", "{\"propertyData\":")).unwrap_err();
    assert_eq!(e.error, ExtractionError::Parse);
}

#[test]
fn missing_and_mistyped_keys_are_named() {
    let no_prices = obj(vec![("propertyData", obj(vec![]))]);
    assert_eq!(read_model(&no_prices), Err(ExtractionError::MissingField(Field::Prices)));
    let no_data = obj(vec![]);
    assert_eq!(read_model(&no_data), Err(ExtractionError::MissingField(Field::PropertyData)));
    let data_string = obj(vec![("propertyData", JsonValue::Str(s("x")))]);
    assert_eq!(read_model(&data_string), Err(ExtractionError::TypeMismatch(Field::PropertyData)));
    assert_eq!(read_model(&JsonValue::Null), Err(ExtractionError::TypeMismatch(Field::PageModel)));
    let empty_price = model_with_price(JsonValue::Str(s("")));
    assert_eq!(read_model(&empty_price), Err(ExtractionError::MissingField(Field::PrimaryPrice)));
    let ok = read_model(&model_with_price(JsonValue::Str(s("£9")))).unwrap();
    assert_eq!(ok, (s("£9"), s("2 bed flat"), s("http://img/map.png")));
}

#[test]
fn page_model_text_takes_pieces_after_first_separator() {
    let scripts = vec![s("var a = 1;"), s("x PAGE_MODEL = {\"a\" = 1}"), s("PAGE_MODEL = 2")];
    assert_eq!(page_model_text(&scripts), Some(s("{\"a\"1}")));
    assert_eq!(page_model_text(&vec![s("PAGE_MODEL")]), Some(s("")));
    assert_eq!(page_model_text(&vec![s("var PAGE_MODEL = {};\n ")]), Some(s("{}")));
    assert_eq!(page_model_text(&vec![s("var a = 1;")]), None);
    assert_eq!(page_model_text(&vec![]), None);
}

#[test]
fn parts_are_combined_in_order() {
    let scripts = vec![format!("var PAGE_MODEL = {}", MODEL)];
    let r = extract_parts(s("http://example/123"), Some(s("12 Test St")), None, &scripts).unwrap();
    assert_eq!(r, record(None));
    let e = extract_parts(s("u"), None, Some(Some(s("bad"))), &vec![]).unwrap_err();
    assert_eq!(e.error, ExtractionError::MissingField(Field::Summary));
    let e = extract_parts(s("u"), Some(s("a")), Some(Some(s("bad"))), &vec![]).unwrap_err();
    assert_eq!(e.error, ExtractionError::MalformedAnchor);
}
