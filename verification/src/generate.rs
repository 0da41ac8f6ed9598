//! The top-level report generation entry points: assemble one report from an
//! analysis snapshot and render it in the requested format, or fail on an
//! unrecognized format selector.
use crate::assemble::{spec_assembled, ComprehensiveReport};
use crate::finding::AnalysisResults;
use crate::provider::{current_timestamp, fresh_report_id};
use crate::render_html::spec_html;
use crate::render_json::spec_json_report;
use crate::render_markdown::spec_markdown;
use crate::text::str_eq;
use crate::ReportError;
use crate::ReportGenerator;
use vstd::prelude::*;

verus! {

/// The recognized rendering format selectors.
pub open spec fn spec_supported_format(f: Seq<char>) -> bool {
    f == "markdown"@ || f == "html"@ || f == "json"@ || f == "pdf"@
}

/// The generation contract for one format: some freshly assembled document,
/// carrying its own 36-character report identifier, renders to `text` under
/// the format's rendering function.
pub open spec fn spec_generated(
    results: AnalysisResults,
    include_summary: bool,
    text: Seq<char>,
    f: Seq<char>,
) -> bool {
    exists|rep: ComprehensiveReport|
        #[trigger] spec_assembled(
            rep,
            results,
            include_summary,
            rep.metadata.report_id@,
            rep.metadata.generated_at@,
        ) && rep.metadata.report_id@.len() == 36 && text == (if f == "markdown"@ {
            spec_markdown(rep)
        } else if f == "json"@ {
            spec_json_report(rep)
        } else {
            spec_html(rep)
        })
}

/// An assembled report rendered as markdown witnesses the generation
/// contract for the markdown selector.
pub proof fn lemma_markdown_witness(
    rep: ComprehensiveReport,
    results: AnalysisResults,
    include_summary: bool,
    report_id: Seq<char>,
    generated_at: Seq<char>,
    text: Seq<char>,
)
    requires
        spec_assembled(rep, results, include_summary, report_id, generated_at),
        report_id.len() == 36,
        text == spec_markdown(rep),
    ensures
        spec_generated(results, include_summary, text, "markdown"@),
{
    reveal(spec_assembled);
    assert(spec_assembled(
        rep,
        results,
        include_summary,
        rep.metadata.report_id@,
        rep.metadata.generated_at@,
    ));
}

/// An assembled report rendered as JSON witnesses the generation contract
/// for the JSON selector.
pub proof fn lemma_json_witness(
    rep: ComprehensiveReport,
    results: AnalysisResults,
    include_summary: bool,
    report_id: Seq<char>,
    generated_at: Seq<char>,
    text: Seq<char>,
)
    requires
        spec_assembled(rep, results, include_summary, report_id, generated_at),
        report_id.len() == 36,
        text == spec_json_report(rep),
    ensures
        spec_generated(results, include_summary, text, "json"@),
{
    reveal(spec_assembled);
    reveal_strlit("json");
    reveal_strlit("markdown");
    assert("json"@.len() == 4);
    assert("markdown"@.len() == 8);
    assert(spec_assembled(
        rep,
        results,
        include_summary,
        rep.metadata.report_id@,
        rep.metadata.generated_at@,
    ));
}

/// An assembled report rendered as hypertext witnesses the generation
/// contract for the selector `f`, provided `f` is neither the markdown nor
/// the JSON selector; this covers the hypertext and portable-document
/// targets.
pub proof fn lemma_html_witness(
    rep: ComprehensiveReport,
    results: AnalysisResults,
    include_summary: bool,
    report_id: Seq<char>,
    generated_at: Seq<char>,
    text: Seq<char>,
    f: Seq<char>,
)
    requires
        spec_assembled(rep, results, include_summary, report_id, generated_at),
        report_id.len() == 36,
        text == spec_html(rep),
        f != "markdown"@,
        f != "json"@,
    ensures
        spec_generated(results, include_summary, text, f),
{
    reveal(spec_assembled);
    assert(spec_assembled(
        rep,
        results,
        include_summary,
        rep.metadata.report_id@,
        rep.metadata.generated_at@,
    ));
}

impl ReportGenerator {
    /// Assembles a fresh report and renders it as markdown.
    fn generate_fresh_markdown(&self, results: &AnalysisResults, include_summary: bool) -> (text:
        String)
        requires
            results.recommendations@.len() + 100 <= u64::MAX,
        ensures
            spec_generated(*results, include_summary, text@, "markdown"@),
    {
        let report_id = fresh_report_id();
        let generated_at = current_timestamp();
        let report = self.create_comprehensive_report(
            results,
            include_summary,
            report_id,
            generated_at,
        );
        let text = self.render_markdown(&report);
        proof {
            lemma_markdown_witness(
                report,
                *results,
                include_summary,
                report_id@,
                generated_at@,
                text@,
            );
        }
        text
    }

    /// Assembles a fresh report and renders it as hypertext.
    fn generate_fresh_html(&self, results: &AnalysisResults, include_summary: bool) -> (text:
        String)
        requires
            results.recommendations@.len() + 100 <= u64::MAX,
        ensures
            spec_generated(*results, include_summary, text@, "html"@),
    {
        let report_id = fresh_report_id();
        let generated_at = current_timestamp();
        let report = self.create_comprehensive_report(
            results,
            include_summary,
            report_id,
            generated_at,
        );
        let text = self.generate_html_report(&report);
        proof {
            reveal_strlit("html");
            reveal_strlit("json");
            reveal_strlit("markdown");
            assert("html"@.len() == 4 && "json"@.len() == 4 && "markdown"@.len() == 8);
            assert("html"@[0] == 'h' && "json"@[0] == 'j');
            assert("html"@ != "markdown"@ && "html"@ != "json"@);
            lemma_html_witness(
                report,
                *results,
                include_summary,
                report_id@,
                generated_at@,
                text@,
                "html"@,
            );
        }
        text
    }

    /// Assembles a fresh report and renders it as JSON.
    fn generate_fresh_json(&self, results: &AnalysisResults, include_summary: bool) -> (text:
        String)
        requires
            results.recommendations@.len() + 100 <= u64::MAX,
        ensures
            spec_generated(*results, include_summary, text@, "json"@),
    {
        let report_id = fresh_report_id();
        let generated_at = current_timestamp();
        let report = self.create_comprehensive_report(
            results,
            include_summary,
            report_id,
            generated_at,
        );
        let text = self.generate_json_report(&report);
        proof {
            lemma_json_witness(
                report,
                *results,
                include_summary,
                report_id@,
                generated_at@,
                text@,
            );
        }
        text
    }

    /// Assembles a fresh report and renders it for the portable-document
    /// target, which reuses the hypertext rendering.
    fn generate_fresh_pdf(&self, results: &AnalysisResults, include_summary: bool) -> (text:
        String)
        requires
            results.recommendations@.len() + 100 <= u64::MAX,
        ensures
            spec_generated(*results, include_summary, text@, "pdf"@),
    {
        let report_id = fresh_report_id();
        let generated_at = current_timestamp();
        let report = self.create_comprehensive_report(
            results,
            include_summary,
            report_id,
            generated_at,
        );
        let text = self.generate_pdf_report(&report);
        proof {
            reveal_strlit("pdf");
            reveal_strlit("json");
            reveal_strlit("markdown");
            assert("pdf"@.len() == 3 && "json"@.len() == 4 && "markdown"@.len() == 8);
            assert("pdf"@ != "markdown"@ && "pdf"@ != "json"@);
            lemma_html_witness(
                report,
                *results,
                include_summary,
                report_id@,
                generated_at@,
                text@,
                "pdf"@,
            );
        }
        text
    }

    /// Assembles a report from the analysis snapshot, with a fresh report
    /// identifier and the current timestamp, and renders it in the requested
    /// format. Exactly the four recognized selectors succeed; any other
    /// selector fails with the unsupported-format error carrying it.
    pub fn generate_comprehensive_report(
        &self,
        results: &AnalysisResults,
        format: &str,
        include_summary: bool,
    ) -> (r: Result<String, ReportError>)
        requires
            results.recommendations@.len() + 100 <= u64::MAX,
        ensures
            r is Ok <==> spec_supported_format(format@),
            r matches Err(e) ==> e matches ReportError::UnsupportedFormat(f) && f@ == format@,
            r matches Ok(text) ==> spec_generated(*results, include_summary, text@, format@),
    {
        if str_eq(format, "markdown") {
            Ok(self.generate_fresh_markdown(results, include_summary))
        } else if str_eq(format, "html") {
            Ok(self.generate_fresh_html(results, include_summary))
        } else if str_eq(format, "json") {
            Ok(self.generate_fresh_json(results, include_summary))
        } else if str_eq(format, "pdf") {
            Ok(self.generate_fresh_pdf(results, include_summary))
        } else {
            Err(ReportError::UnsupportedFormat(format.to_owned()))
        }
    }

    /// Assembles a report from the analysis snapshot, summary included, and
    /// renders it as markdown; this always succeeds.
    pub fn generate_markdown_report(&self, results: &AnalysisResults) -> (r: Result<
        String,
        ReportError,
    >)
        requires
            results.recommendations@.len() + 100 <= u64::MAX,
        ensures
            r is Ok,
            r matches Ok(text) ==> spec_generated(*results, true, text@, "markdown"@),
    {
        Ok(self.generate_fresh_markdown(results, true))
    }
}

} // verus!
