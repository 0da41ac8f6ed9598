use securechain::finding::{
    AnalysisMetrics, AnalysisResults, AnalysisSummary, Vulnerability, VulnerabilityCategory,
};
use securechain::Config;
use securechain::ReportGenerator;

fn sample_results() -> AnalysisResults {
    AnalysisResults {
        contract_name: "Vault <v2> & friends".to_string(),
        vulnerabilities: vec![
            Vulnerability {
                id: "V-1".to_string(),
                title: "Reentrancy in withdraw".to_string(),
                description: "External call before state update.".to_string(),
                category: VulnerabilityCategory::Reentrancy,
                severity: "Critical".to_string(),
                confidence: 95,
                tool: "slither".to_string(),
                file_path: "contracts/Vault.sol".to_string(),
                line_number: Some(42),
                code_snippet: Some("msg.sender.call{value: amount}(\"\");".to_string()),
                recommendation: Some("Apply checks-effects-interactions.".to_string()),
                references: vec!["https://example.org/reentrancy".to_string()],
            },
            Vulnerability {
                id: "V-2".to_string(),
                title: "Odd \"quoted\" note\nwith newline".to_string(),
                description: "Tab\there.".to_string(),
                category: VulnerabilityCategory::Other,
                severity: "Note".to_string(),
                confidence: 40,
                tool: "echidna".to_string(),
                file_path: "contracts/Vault.sol".to_string(),
                line_number: None,
                code_snippet: None,
                recommendation: None,
                references: Vec::new(),
            },
        ],
        recommendations: vec!["Add invariant tests".to_string()],
        metrics: AnalysisMetrics {
            lines_of_code: 1234,
            functions_analyzed: 17,
            complexity_score: 320,
            security_score: 8500,
        },
        analysis_summary: AnalysisSummary {
            tools_used: vec!["slither".to_string(), "echidna".to_string()],
            analysis_duration: 1250,
        },
    }
}

fn fixed_report(
    include_summary: bool,
) -> securechain::assemble::ComprehensiveReport {
    ReportGenerator::new(Config {}).create_comprehensive_report(
        &sample_results(),
        include_summary,
        "00000000-0000-4000-8000-000000000000".to_string(),
        "2024-06-01 12:00:00 UTC".to_string(),
    )
}

#[test]
fn markdown_has_fixed_section_order_and_values() {
    let report = fixed_report(true);
    let md = ReportGenerator::new(Config {}).render_markdown(&report);
    assert!(md.starts_with("# Security Audit Report: Vault <v2> & friends\n\n"));
    assert!(md.contains("**Report ID:** 00000000-0000-4000-8000-000000000000\n"));
    assert!(md.contains("**Generated:** 2024-06-01 12:00:00 UTC\n"));
    assert!(md.contains("**Version:** 0.1.0\n"));
    assert!(md.contains("**Tools Used:** slither, echidna\n\n"));
    assert!(md.contains("**Overall Risk Level:** Critical\n"));
    assert!(md.contains("**Security Score:** 85.00/100\n"));
    assert!(md.contains("**Total Vulnerabilities:** 2\n\n"));
    assert!(md.contains("- \u{1f534} Critical: 1\n"));
    let exec_pos = md.find("## Executive Summary").unwrap();
    let vuln_pos = md.find("## Vulnerability Analysis").unwrap();
    let rec_pos = md.find("## Recommendations").unwrap();
    let tech_pos = md.find("## Technical Details").unwrap();
    let app_pos = md.find("## Appendices").unwrap();
    assert!(exec_pos < vuln_pos && vuln_pos < rec_pos && rec_pos < tech_pos && tech_pos < app_pos);
}

#[test]
fn markdown_groups_by_severity_and_numbers_findings() {
    let report = fixed_report(true);
    let md = ReportGenerator::new(Config {}).render_markdown(&report);
    assert!(md.contains("### \u{1f534} Critical Vulnerabilities\n\n"));
    assert!(md.contains("#### C.1 Reentrancy in withdraw\n\n"));
    assert!(md.contains("**Line:** 42\n"));
    assert!(md.contains("**Confidence:** 0.95\n\n"));
    assert!(md.contains("```solidity\nmsg.sender.call{value: amount}(\"\");\n```\n\n"));
    assert!(md.contains("**Recommendation:** Apply checks-effects-interactions.\n\n"));
    assert!(md.contains("- https://example.org/reentrancy\n"));
    // the unrecognized severity displays under Informational
    assert!(md.contains("### \u{1f535} Informational Vulnerabilities\n\n"));
    assert!(md.contains("#### I.1 Odd \"quoted\" note\nwith newline\n\n"));
    // empty groups render no header
    assert!(!md.contains("### \u{1f7e0} High Vulnerabilities"));
    assert!(!md.contains("### \u{1f7e1} Medium Vulnerabilities"));
    assert!(!md.contains("### \u{1f7e2} Low Vulnerabilities"));
}

#[test]
fn markdown_appendices_hold_exact_metric_text() {
    let report = fixed_report(true);
    let md = ReportGenerator::new(Config {}).render_markdown(&report);
    assert!(md.contains("### Tool Configurations\n\nAnalysis performed using: slither, echidna\n\n"));
    assert!(md.contains(
        "### Analysis Metrics\n\nSecurity Score: 85.00\nComplexity Score: 3.20\nLines of Code: 1234\n\n"
    ));
    assert!(md.contains("**Analysis Duration:** 12.50 seconds\n"));
    assert!(md.contains("**Complexity Score:** 3.20\n\n"));
}

#[test]
fn html_embeds_escaped_markdown() {
    let gen = ReportGenerator::new(Config {});
    let report = fixed_report(true);
    let md = gen.render_markdown(&report);
    let html = gen.generate_html_report(&report);
    assert!(html.starts_with("<!DOCTYPE html>"));
    assert!(html.contains("<title>Security Audit Report - Vault &lt;v2&gt; &amp; friends</title>"));
    let escaped_md = md
        .replace('&', "&amp;")
        .replace('<', "&lt;")
        .replace('>', "&gt;");
    assert!(html.contains(&escaped_md));
    assert!(html.ends_with("</pre>\n</body>\n</html>"));
}

#[test]
fn pdf_reuses_html_rendering_unchanged() {
    let gen = ReportGenerator::new(Config {});
    let report = fixed_report(true);
    assert_eq!(gen.generate_pdf_report(&report), gen.generate_html_report(&report));
}

#[test]
fn json_round_trips_every_field() {
    let gen = ReportGenerator::new(Config {});
    let report = fixed_report(true);
    let text = gen.generate_json_report(&report);
    let v: serde_json::Value = serde_json::from_str(&text).expect("valid JSON");

    let meta = &v["metadata"];
    assert_eq!(meta["report_id"], "00000000-0000-4000-8000-000000000000");
    assert_eq!(meta["generated_at"], "2024-06-01 12:00:00 UTC");
    assert_eq!(meta["version"], "0.1.0");
    assert_eq!(meta["contract_name"], "Vault <v2> & friends");
    assert_eq!(meta["analysis_tools"][0], "slither");
    assert_eq!(meta["analysis_tools"][1], "echidna");
    assert_eq!(meta["report_type"], "Security Audit Report");

    let es = &v["executive_summary"];
    assert_eq!(es["overall_risk_level"], "Critical");
    assert_eq!(es["total_vulnerabilities"], 2);
    assert_eq!(es["critical_findings"], 1);
    assert_eq!(es["high_risk_findings"], 0);
    assert_eq!(es["security_score"], 8500);
    assert_eq!(es["key_findings"][0], "\u{1f534} Critical: Reentrancy in withdraw");
    assert_eq!(es["recommendations_summary"][0], "Add invariant tests");

    let va = &v["vulnerability_analysis"];
    let v0 = &va["vulnerabilities"][0];
    assert_eq!(v0["id"], "V-1");
    assert_eq!(v0["title"], "Reentrancy in withdraw");
    assert_eq!(v0["category"], "Reentrancy");
    assert_eq!(v0["severity"], "Critical");
    assert_eq!(v0["confidence"], 95);
    assert_eq!(v0["line_number"], 42);
    assert_eq!(v0["code_snippet"], "msg.sender.call{value: amount}(\"\");");
    assert_eq!(v0["references"][0], "https://example.org/reentrancy");
    let v1 = &va["vulnerabilities"][1];
    assert_eq!(v1["title"], "Odd \"quoted\" note\nwith newline");
    assert_eq!(v1["description"], "Tab\there.");
    assert!(v1["line_number"].is_null());
    assert!(v1["code_snippet"].is_null());
    assert_eq!(va["severity_distribution"]["Critical"], 1);
    assert_eq!(va["severity_distribution"]["Note"], 1);
    assert_eq!(va["category_breakdown"]["Reentrancy"], 1);
    assert_eq!(va["category_breakdown"]["Other"], 1);
    assert_eq!(va["tool_findings"]["slither"], 1);
    assert_eq!(va["tool_findings"]["echidna"], 1);

    let recs = v["recommendations"].as_array().unwrap();
    assert_eq!(recs.len(), 3);
    assert_eq!(recs[0]["id"], "REC-001");
    assert_eq!(recs[0]["related_vulnerabilities"][0], "V-1");
    assert_eq!(recs[1]["id"], "REC-999");
    assert_eq!(recs[2]["id"], "REC-100");
    assert_eq!(recs[2]["description"], "Add invariant tests");

    let td = &v["technical_details"];
    assert_eq!(td["analysis_metrics"]["lines_of_code"], 1234);
    assert_eq!(td["analysis_metrics"]["functions_analyzed"], 17);
    assert_eq!(td["analysis_metrics"]["complexity_score"], 320);
    assert_eq!(td["analysis_metrics"]["security_score"], 8500);
    assert_eq!(td["coverage_report"]["lines_analyzed"], 1234);
    assert_eq!(td["coverage_report"]["coverage_percentage"], 8500);
    assert_eq!(td["coverage_report"]["uncovered_areas"][0], "External library interactions");
    assert_eq!(td["tool_configurations"]["slither"], "Default configuration");
    assert_eq!(td["tool_configurations"]["mythril"], "Deep analysis mode");
    assert_eq!(td["analysis_duration"], 1250);

    let apps = v["appendices"].as_array().unwrap();
    assert_eq!(apps.len(), 2);
    assert_eq!(apps[0]["title"], "Tool Configurations");
    assert_eq!(apps[0]["appendix_type"], "configuration");
    assert_eq!(apps[1]["content"], "Security Score: 85.00\nComplexity Score: 3.20\nLines of Code: 1234");
}

#[test]
fn summary_disabled_renders_not_calculated() {
    let gen = ReportGenerator::new(Config {});
    let report = fixed_report(false);
    let md = gen.render_markdown(&report);
    assert!(md.contains("**Overall Risk Level:** Not Calculated\n"));
    assert!(md.contains("- \u{1f534} Critical: 0\n"));
    assert!(md.contains("**Security Score:** 85.00/100\n"));
    assert!(!md.contains("### Key Findings"));
}

#[test]
fn count_maps_render_in_first_occurrence_order() {
    let gen = ReportGenerator::new(Config {});
    let report = fixed_report(true);
    let text = gen.generate_json_report(&report);
    assert!(text.contains("\"severity_distribution\": {\"Critical\": 1, \"Note\": 1}"));
    assert!(text.contains("\"category_breakdown\": {\"Reentrancy\": 1, \"Other\": 1}"));
    assert!(text.contains("\"tool_findings\": {\"slither\": 1, \"echidna\": 1}"));
}

#[test]
fn duplicate_copies_every_field() {
    let results = sample_results();
    let v = &results.vulnerabilities[0];
    let d = v.duplicate();
    assert_eq!(d.id, v.id);
    assert_eq!(d.title, v.title);
    assert_eq!(d.description, v.description);
    assert_eq!(d.severity, v.severity);
    assert_eq!(d.confidence, v.confidence);
    assert_eq!(d.tool, v.tool);
    assert_eq!(d.file_path, v.file_path);
    assert_eq!(d.line_number, v.line_number);
    assert_eq!(d.code_snippet, v.code_snippet);
    assert_eq!(d.recommendation, v.recommendation);
    assert_eq!(d.references, v.references);
}
