use vstd::prelude::*;

verus! {

/// The piece of a page that an extraction step looks for.
#[derive(Debug, Clone, Copy, PartialEq, Eq, Structural)]
pub enum Field {
    /// The node marked as the street address.
    Summary,
    /// The script that holds the embedded page model.
    PageModel,
    PropertyData,
    Prices,
    PrimaryPrice,
    Text,
    PageTitle,
    StaticMapImgUrls,
    StaticMapImgUrlMobile,
}

impl Field {
    /// The name under which the field appears in the page.
    pub fn name(&self) -> &'static str {
        match self {
            Field::Summary => "streetAddress",
            Field::PageModel => "PAGE_MODEL",
            Field::PropertyData => "propertyData",
            Field::Prices => "prices",
            Field::PrimaryPrice => "primaryPrice",
            Field::Text => "text",
            Field::PageTitle => "pageTitle",
            Field::StaticMapImgUrls => "staticMapImgUrls",
            Field::StaticMapImgUrlMobile => "staticMapImgUrlMobile",
        }
    }
}

/// Why a page could not be turned into a record.
#[derive(Debug, Clone, Copy, PartialEq, Eq, Structural)]
pub enum ExtractionError {
    /// The embedded page model is not valid JSON.
    Parse,
    /// A required node, attribute or key is absent, or its text is empty.
    MissingField(Field),
    /// A JSON value exists but has the wrong type.
    TypeMismatch(Field),
    /// The floorplan link has no `/` to cut it at.
    MalformedAnchor,
}

/// A failed extraction: the page's URL and what went wrong.
#[derive(Debug, Clone, PartialEq, Eq)]
pub struct ExtractionFailure {
    pub url: String,
    pub error: ExtractionError,
}

} // verus!
