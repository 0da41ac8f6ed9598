//! A report aggregation and rendering engine for smart-contract security
//! audits: it tallies raw vulnerability findings, derives an overall risk
//! verdict and remediation recommendations, assembles one comprehensive
//! report document, and renders it as markdown, hypertext or a
//! machine-readable serialization.
pub mod analysis;
pub mod assemble;
pub mod counts;
pub mod finding;
pub mod generate;
mod provider;
pub mod recommend;
pub mod render_html;
pub mod render_json;
pub mod render_markdown;
pub mod summary;
pub mod text;

use vstd::prelude::*;

verus! {

/// Generator settings; report generation currently needs none, the type is
/// kept as the constructor's parameter for callers that manage one.
pub struct Config {}

impl Default for Config {
    fn default() -> (r: Config)
        ensures
            r == (Config {  }),
    {
        Config {  }
    }
}

/// The errors report generation can surface.
#[derive(Debug)]
pub enum ReportError {
    /// The requested rendering format is not one of the recognized ones;
    /// carries the requested format string.
    UnsupportedFormat(String),
}

impl ReportError {
    /// The human-readable message of this error.
    pub fn message(&self) -> (r: String)
        ensures
            self matches ReportError::UnsupportedFormat(f) ==> r@ == "Unsupported report format: "@
                + f@,
    {
        match self {
            ReportError::UnsupportedFormat(f) => {
                let mut m = "Unsupported report format: ".to_owned();
                crate::text::s_append_string(&mut m, f);
                m
            },
        }
    }
}

/// The report generation engine.
pub struct ReportGenerator {
    config: Config,
}

impl ReportGenerator {
    /// Create a new report generator.
    pub fn new(config: Config) -> (r: ReportGenerator) {
        ReportGenerator { config }
    }
}

impl Default for ReportGenerator {
    fn default() -> (r: ReportGenerator) {
        ReportGenerator::new(Config::default())
    }
}

} // verus!
