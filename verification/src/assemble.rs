//! The report assembler: metadata, technical details and appendices, and the
//! composition of all derived pieces into one comprehensive report document.
use crate::analysis::{spec_severity_keys, spec_tallies, spec_tool_keys, VulnerabilityAnalysis};
use crate::finding::{spec_vuln_views, AnalysisMetrics, AnalysisResults};
use crate::recommend::{spec_rec_views, spec_recommendations, Recommendation};
use crate::summary::{spec_placeholder_summary, spec_summary_matches, ExecutiveSummary};
use crate::text::{
    push_dec_usize, push_hundredths, push_joined, spec_dec, spec_hundredths, spec_join,
    spec_views,
};
use crate::ReportGenerator;
use vstd::prelude::*;

verus! {

/// The tool version stamped into report metadata.
pub open spec fn spec_tool_version() -> Seq<char> {
    "0.1.0"@
}

/// The tool version stamped into report metadata.
pub fn tool_version() -> (r: &'static str)
    ensures
        r@ == spec_tool_version(),
{
    "0.1.0"
}

/// Identifying information of one generated report.
pub struct ReportMetadata {
    pub report_id: String,
    pub generated_at: String,
    pub version: String,
    pub contract_name: String,
    pub analysis_tools: Vec<String>,
    pub report_type: String,
}

/// The coverage sub-record of the technical details. `coverage_percentage`
/// is scaled to hundredths and is a fixed placeholder, not computed from
/// coverage data.
pub struct CoverageReport {
    pub lines_analyzed: usize,
    pub functions_analyzed: usize,
    pub coverage_percentage: u64,
    pub uncovered_areas: Vec<String>,
}

/// The technical-details section: input metrics copied verbatim, the coverage
/// sub-record, fixed per-tool configuration notes, and the analysis duration
/// in hundredths of a second.
pub struct TechnicalDetails {
    pub analysis_metrics: AnalysisMetrics,
    pub coverage_report: CoverageReport,
    pub tool_configurations: Vec<(String, String)>,
    pub analysis_duration: u64,
}

/// One free-form titled text block at the end of a report.
pub struct Appendix {
    pub title: String,
    pub content: String,
    pub appendix_type: String,
}

/// The fully assembled report document, composed once and never mutated.
pub struct ComprehensiveReport {
    pub metadata: ReportMetadata,
    pub executive_summary: ExecutiveSummary,
    pub vulnerability_analysis: VulnerabilityAnalysis,
    pub recommendations: Vec<Recommendation>,
    pub technical_details: TechnicalDetails,
    pub appendices: Vec<Appendix>,
}

/// The metadata contract: identifier and timestamp as supplied, the fixed
/// version and report-type labels, and the contract name and tool list copied
/// from the input.
pub open spec fn spec_metadata_matches(
    m: ReportMetadata,
    results: AnalysisResults,
    report_id: Seq<char>,
    generated_at: Seq<char>,
) -> bool {
    &&& m.report_id@ == report_id
    &&& m.generated_at@ == generated_at
    &&& m.version@ == spec_tool_version()
    &&& m.contract_name@ == results.contract_name@
    &&& spec_views(m.analysis_tools@) == spec_views(results.analysis_summary.tools_used@)
    &&& m.report_type@ == "Security Audit Report"@
}

/// The technical-details contract: metrics copied verbatim, the placeholder
/// coverage record, and the two fixed tool-configuration notes.
pub open spec fn spec_technical_details_matches(
    t: TechnicalDetails,
    metrics: AnalysisMetrics,
    duration: u64,
) -> bool {
    &&& t.analysis_metrics == metrics
    &&& t.coverage_report.lines_analyzed == metrics.lines_of_code
    &&& t.coverage_report.functions_analyzed == metrics.functions_analyzed
    &&& t.coverage_report.coverage_percentage == 8500
    &&& spec_views(t.coverage_report.uncovered_areas@) == seq![
        "External library interactions"@,
    ]
    &&& t.tool_configurations@.len() == 2
    &&& t.tool_configurations@[0].0@ == "slither"@
    &&& t.tool_configurations@[0].1@ == "Default configuration"@
    &&& t.tool_configurations@[1].0@ == "mythril"@
    &&& t.tool_configurations@[1].1@ == "Deep analysis mode"@
    &&& t.analysis_duration == duration
}

/// The content of the tool-configuration appendix.
pub open spec fn spec_tools_appendix_content(results: AnalysisResults) -> Seq<char> {
    "Analysis performed using: "@ + spec_join(
        spec_views(results.analysis_summary.tools_used@),
        ", "@,
    )
}

/// The content of the metrics appendix.
pub open spec fn spec_metrics_appendix_content(results: AnalysisResults) -> Seq<char> {
    "Security Score: "@ + spec_hundredths(results.metrics.security_score as nat)
        + "\nComplexity Score: "@ + spec_hundredths(results.metrics.complexity_score as nat)
        + "\nLines of Code: "@ + spec_dec(results.metrics.lines_of_code as nat)
}

/// The appendices contract: the tool-configuration appendix followed by the
/// metrics appendix.
pub open spec fn spec_appendices_match(apps: Seq<Appendix>, results: AnalysisResults) -> bool {
    &&& apps.len() == 2
    &&& apps[0].title@ == "Tool Configurations"@
    &&& apps[0].content@ == spec_tools_appendix_content(results)
    &&& apps[0].appendix_type@ == "configuration"@
    &&& apps[1].title@ == "Analysis Metrics"@
    &&& apps[1].content@ == spec_metrics_appendix_content(results)
    &&& apps[1].appendix_type@ == "metrics"@
}

/// The whole assembly contract: every part of the report document related to
/// the input snapshot and the supplied identity.
#[verifier::opaque]
pub open spec fn spec_assembled(
    r: ComprehensiveReport,
    results: AnalysisResults,
    include_summary: bool,
    report_id: Seq<char>,
    generated_at: Seq<char>,
) -> bool {
    let views = spec_vuln_views(results.vulnerabilities@);
    &&& spec_metadata_matches(r.metadata, results, report_id, generated_at)
    &&& (if include_summary {
        spec_summary_matches(r.executive_summary, results)
    } else {
        spec_placeholder_summary(r.executive_summary, results)
    })
    &&& spec_vuln_views(r.vulnerability_analysis.vulnerabilities@) == views
    &&& spec_tallies(
        r.vulnerability_analysis.category_breakdown@,
        crate::analysis::spec_category_keys(views),
    )
    &&& spec_tallies(r.vulnerability_analysis.severity_distribution@, spec_severity_keys(views))
    &&& spec_tallies(r.vulnerability_analysis.tool_findings@, spec_tool_keys(views))
    &&& spec_rec_views(r.recommendations@) == spec_recommendations(
        views,
        spec_views(results.recommendations@),
    )
    &&& spec_technical_details_matches(
        r.technical_details,
        results.metrics,
        results.analysis_summary.analysis_duration,
    )
    &&& spec_appendices_match(r.appendices@, results)
}

impl ReportGenerator {
    /// Report metadata with the supplied identity and the fixed version and
    /// report-type labels.
    pub fn create_report_metadata(
        &self,
        results: &AnalysisResults,
        report_id: String,
        generated_at: String,
    ) -> (r: ReportMetadata)
        ensures
            spec_metadata_matches(r, *results, report_id@, generated_at@),
    {
        ReportMetadata {
            report_id,
            generated_at,
            version: tool_version().to_owned(),
            contract_name: results.contract_name.clone(),
            analysis_tools: crate::finding::clone_strings(&results.analysis_summary.tools_used),
            report_type: "Security Audit Report".to_owned(),
        }
    }

    /// The technical-details section: metrics copied verbatim, the
    /// placeholder coverage record, and the fixed tool-configuration notes.
    pub fn create_technical_details(&self, metrics: &AnalysisMetrics, duration: u64) -> (r:
        TechnicalDetails)
        ensures
            spec_technical_details_matches(r, *metrics, duration),
    {
        let mut uncovered_areas: Vec<String> = Vec::new();
        uncovered_areas.push("External library interactions".to_owned());
        let coverage_report = CoverageReport {
            lines_analyzed: metrics.lines_of_code,
            functions_analyzed: metrics.functions_analyzed,
            coverage_percentage: 8500,  // fixed placeholder, not computed from coverage data
            uncovered_areas,
        };

        let mut tool_configurations: Vec<(String, String)> = Vec::new();
        tool_configurations.push(("slither".to_owned(), "Default configuration".to_owned()));
        tool_configurations.push(("mythril".to_owned(), "Deep analysis mode".to_owned()));

        let r = TechnicalDetails {
            analysis_metrics: *metrics,
            coverage_report,
            tool_configurations,
            analysis_duration: duration,
        };
        proof {
            assert(spec_views(r.coverage_report.uncovered_areas@) =~= seq![
                "External library interactions"@,
            ]);
        }
        r
    }

    /// The two fixed appendices: the tool-configuration text and the metrics
    /// text.
    pub fn create_appendices(&self, results: &AnalysisResults) -> (r: Vec<Appendix>)
        ensures
            spec_appendices_match(r@, *results),
    {
        let mut appendices: Vec<Appendix> = Vec::new();

        let mut tools_content = "Analysis performed using: ".to_owned();
        push_joined(&mut tools_content, &results.analysis_summary.tools_used, ", ");
        appendices.push(
            Appendix {
                title: "Tool Configurations".to_owned(),
                content: tools_content,
                appendix_type: "configuration".to_owned(),
            },
        );

        let mut metrics_content = "Security Score: ".to_owned();
        push_hundredths(&mut metrics_content, results.metrics.security_score);
        crate::text::s_append(&mut metrics_content, "\nComplexity Score: ");
        push_hundredths(&mut metrics_content, results.metrics.complexity_score);
        crate::text::s_append(&mut metrics_content, "\nLines of Code: ");
        push_dec_usize(&mut metrics_content, results.metrics.lines_of_code);
        appendices.push(
            Appendix {
                title: "Analysis Metrics".to_owned(),
                content: metrics_content,
                appendix_type: "metrics".to_owned(),
            },
        );

        appendices
    }

    /// Assembles the full report document from one analysis snapshot and the
    /// supplied report identity. With `include_summary` false the executive
    /// summary is the explicit Not Calculated placeholder.
    pub fn create_comprehensive_report(
        &self,
        results: &AnalysisResults,
        include_summary: bool,
        report_id: String,
        generated_at: String,
    ) -> (r: ComprehensiveReport)
        requires
            results.recommendations@.len() + 100 <= u64::MAX,
        ensures
            spec_assembled(r, *results, include_summary, report_id@, generated_at@),
    {
        let metadata = self.create_report_metadata(results, report_id, generated_at);
        let vulnerability_analysis = self.create_vulnerability_analysis(&results.vulnerabilities);
        let recommendations = self.create_recommendations(
            &results.vulnerabilities,
            &results.recommendations,
        );
        let technical_details = self.create_technical_details(
            &results.metrics,
            results.analysis_summary.analysis_duration,
        );
        let appendices = self.create_appendices(results);

        let executive_summary = if include_summary {
            self.create_executive_summary(results, &vulnerability_analysis)
        } else {
            ExecutiveSummary {
                overall_risk_level: "Not Calculated".to_owned(),
                total_vulnerabilities: results.vulnerabilities.len(),
                critical_findings: 0,
                high_risk_findings: 0,
                medium_risk_findings: 0,
                low_risk_findings: 0,
                security_score: results.metrics.security_score,
                key_findings: Vec::new(),
                recommendations_summary: Vec::new(),
            }
        };

        let r = ComprehensiveReport {
            metadata,
            executive_summary,
            vulnerability_analysis,
            recommendations,
            technical_details,
            appendices,
        };
        proof {
            reveal(spec_assembled);
        }
        r
    }
}

} // verus!
