//! Extraction of listing records from property-detail pages.
pub mod error;
pub mod extract;
pub mod json;
pub mod laws;
pub mod page;
pub mod record;
pub mod text;

pub use error::{ExtractionError, ExtractionFailure, Field};
pub use extract::{extract_parts, extract_with_model, floorplan_link, page_model_text, read_model, scrape};
pub use json::JsonValue;
pub use record::{filter, FilterOptions, ScrapeResult};
