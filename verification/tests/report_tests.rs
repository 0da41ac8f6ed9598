use securechain::analysis::VulnerabilityAnalysis;
use securechain::finding::{
    AnalysisMetrics, AnalysisResults, AnalysisSummary, Vulnerability, VulnerabilityCategory,
};
use securechain::Config;
use securechain::ReportError;
use securechain::ReportGenerator;

fn vuln(
    id: &str,
    title: &str,
    category: VulnerabilityCategory,
    severity: &str,
    tool: &str,
) -> Vulnerability {
    Vulnerability {
        id: id.to_string(),
        title: title.to_string(),
        description: format!("{} description", title),
        category,
        severity: severity.to_string(),
        confidence: 95,
        tool: tool.to_string(),
        file_path: "contracts/Token.sol".to_string(),
        line_number: Some(42),
        code_snippet: None,
        recommendation: None,
        references: Vec::new(),
    }
}

fn results_with(vulns: Vec<Vulnerability>, recs: Vec<String>) -> AnalysisResults {
    AnalysisResults {
        contract_name: "Token".to_string(),
        vulnerabilities: vulns,
        recommendations: recs,
        metrics: AnalysisMetrics {
            lines_of_code: 1234,
            functions_analyzed: 17,
            complexity_score: 320,
            security_score: 8500,
        },
        analysis_summary: AnalysisSummary {
            tools_used: vec!["slither".to_string(), "mythril".to_string()],
            analysis_duration: 1250,
        },
    }
}

fn generator() -> ReportGenerator {
    ReportGenerator::new(Config {})
}

fn sample_vulns() -> Vec<Vulnerability> {
    vec![
        vuln("V-1", "Reentrancy in withdraw", VulnerabilityCategory::Reentrancy, "Critical", "slither"),
        vuln("V-2", "Missing owner check", VulnerabilityCategory::AccessControl, "High", "mythril"),
        vuln("V-3", "Unchecked call", VulnerabilityCategory::UnhandledExceptions, "Medium", "slither"),
        vuln("V-4", "Counter overflow", VulnerabilityCategory::IntegerOverflow, "Low", "slither"),
        vuln("V-5", "Odd style", VulnerabilityCategory::Other, "Note", "echidna"),
    ]
}

fn analysis_of(vulns: &Vec<Vulnerability>) -> VulnerabilityAnalysis {
    generator().create_vulnerability_analysis(vulns)
}

#[test]
fn severity_counts_sum_to_total() {
    let vulns = sample_vulns();
    let analysis = analysis_of(&vulns);
    let m = &analysis.severity_distribution;
    let mut sum = 0;
    for i in 0..m.len() {
        sum += m.count_at(i);
    }
    assert_eq!(sum, vulns.len());
}

#[test]
fn category_counts_sum_to_total() {
    let vulns = sample_vulns();
    let analysis = analysis_of(&vulns);
    let m = &analysis.category_breakdown;
    let mut sum = 0;
    for i in 0..m.len() {
        sum += m.count_at(i);
    }
    assert_eq!(sum, vulns.len());
}

#[test]
fn tool_counts_follow_input() {
    let vulns = sample_vulns();
    let analysis = analysis_of(&vulns);
    assert_eq!(analysis.tool_findings.get("slither"), 3);
    assert_eq!(analysis.tool_findings.get("mythril"), 1);
    assert_eq!(analysis.tool_findings.get("echidna"), 1);
    assert_eq!(analysis.tool_findings.get("manticore"), 0);
}

#[test]
fn severity_counts_by_key() {
    let vulns = sample_vulns();
    let analysis = analysis_of(&vulns);
    assert_eq!(analysis.severity_distribution.get("Critical"), 1);
    assert_eq!(analysis.severity_distribution.get("High"), 1);
    assert_eq!(analysis.severity_distribution.get("Note"), 1);
    assert_eq!(analysis.severity_distribution.get("Informational"), 0);
}

#[test]
fn risk_level_critical_when_critical_present() {
    let vulns = sample_vulns();
    let results = results_with(vulns, Vec::new());
    let analysis = analysis_of(&results.vulnerabilities);
    let summary = generator().create_executive_summary(&results, &analysis);
    assert_eq!(summary.overall_risk_level, "Critical");
}

#[test]
fn risk_level_precedence_without_critical() {
    let vulns = vec![
        vuln("V-1", "Missing owner check", VulnerabilityCategory::AccessControl, "High", "mythril"),
        vuln("V-2", "Unchecked call", VulnerabilityCategory::UnhandledExceptions, "Medium", "slither"),
    ];
    let results = results_with(vulns, Vec::new());
    let analysis = analysis_of(&results.vulnerabilities);
    let summary = generator().create_executive_summary(&results, &analysis);
    assert_eq!(summary.overall_risk_level, "High");
}

#[test]
fn risk_level_minimal_when_empty() {
    let results = results_with(Vec::new(), Vec::new());
    let analysis = analysis_of(&results.vulnerabilities);
    let summary = generator().create_executive_summary(&results, &analysis);
    assert_eq!(summary.overall_risk_level, "Minimal");
    assert_eq!(summary.total_vulnerabilities, 0);
}

#[test]
fn risk_level_minimal_with_only_unrecognized_severities() {
    let vulns = vec![vuln("V-1", "Odd style", VulnerabilityCategory::Other, "Note", "echidna")];
    let results = results_with(vulns, Vec::new());
    let analysis = analysis_of(&results.vulnerabilities);
    let summary = generator().create_executive_summary(&results, &analysis);
    assert_eq!(summary.overall_risk_level, "Minimal");
}

#[test]
fn key_findings_capped_at_five() {
    let mut vulns = Vec::new();
    for i in 0..6 {
        vulns.push(vuln(
            &format!("C-{}", i),
            &format!("Critical issue {}", i),
            VulnerabilityCategory::Reentrancy,
            "Critical",
            "slither",
        ));
    }
    for i in 0..4 {
        vulns.push(vuln(
            &format!("H-{}", i),
            &format!("High issue {}", i),
            VulnerabilityCategory::AccessControl,
            "High",
            "mythril",
        ));
    }
    let key = generator().extract_key_findings(&vulns);
    assert_eq!(key.len(), 5);
    assert_eq!(key[0], "\u{1f534} Critical: Critical issue 0");
    assert_eq!(key[2], "\u{1f534} Critical: Critical issue 2");
    assert_eq!(key[3], "\u{1f7e0} High: High issue 0");
    assert_eq!(key[4], "\u{1f7e0} High: High issue 1");
}

#[test]
fn key_findings_sentinel_when_none() {
    let vulns = vec![
        vuln("V-1", "Unchecked call", VulnerabilityCategory::UnhandledExceptions, "Medium", "slither"),
    ];
    let key = generator().extract_key_findings(&vulns);
    assert_eq!(key, vec!["No critical or high-severity vulnerabilities found.".to_string()]);
}

#[test]
fn recommendation_synthesis_idempotent() {
    let vulns = sample_vulns();
    let recs = vec!["Run a fuzzing campaign".to_string(), "Pin compiler version".to_string()];
    let first = generator().create_recommendations(&vulns, &recs);
    let second = generator().create_recommendations(&vulns, &recs);
    assert_eq!(first.len(), second.len());
    for (a, b) in first.iter().zip(second.iter()) {
        assert_eq!(a.id, b.id);
        assert_eq!(a.title, b.title);
        assert_eq!(a.description, b.description);
        assert_eq!(a.priority, b.priority);
        assert_eq!(a.effort, b.effort);
        assert_eq!(a.impact, b.impact);
        assert_eq!(a.related_vulnerabilities, b.related_vulnerabilities);
    }
}

#[test]
fn category_recommendation_table() {
    let vulns = sample_vulns();
    let recs = generator().create_recommendations(&vulns, &Vec::new());
    assert_eq!(recs.len(), 5);
    assert_eq!(recs[0].id, "REC-001");
    assert_eq!(recs[0].title, "Implement Reentrancy Protection");
    assert_eq!(recs[0].priority, "High");
    assert_eq!(recs[0].effort, "Medium");
    assert_eq!(recs[0].impact, "High");
    assert_eq!(recs[1].id, "REC-002");
    assert_eq!(recs[1].priority, "High");
    assert_eq!(recs[1].effort, "High");
    assert_eq!(recs[2].id, "REC-004");
    assert_eq!(recs[3].id, "REC-003");
    assert_eq!(recs[4].id, "REC-999");
    assert_eq!(recs[4].title, "Address Other Issues");
}

#[test]
fn general_recommendations_numbered() {
    let recs_in = vec!["First advice".to_string(), "Second advice".to_string()];
    let recs = generator().create_recommendations(&Vec::new(), &recs_in);
    assert_eq!(recs.len(), 2);
    assert_eq!(recs[0].id, "REC-100");
    assert_eq!(recs[0].title, "General Recommendation 1");
    assert_eq!(recs[0].description, "First advice");
    assert_eq!(recs[0].priority, "Medium");
    assert!(recs[0].related_vulnerabilities.is_empty());
    assert_eq!(recs[1].id, "REC-101");
    assert_eq!(recs[1].title, "General Recommendation 2");
}

#[test]
fn scenario_one_critical_two_high_two_categories() {
    let vulns = vec![
        vuln("V-1", "Reentrancy in withdraw", VulnerabilityCategory::Reentrancy, "Critical", "slither"),
        vuln("V-2", "Missing owner check", VulnerabilityCategory::AccessControl, "High", "mythril"),
        vuln("V-3", "Role misuse", VulnerabilityCategory::AccessControl, "High", "mythril"),
    ];
    let results = results_with(vulns, Vec::new());
    let analysis = analysis_of(&results.vulnerabilities);
    let summary = generator().create_executive_summary(&results, &analysis);
    assert_eq!(summary.overall_risk_level, "Critical");
    assert_eq!(summary.key_findings.len(), 3);
    assert!(summary.key_findings[0].starts_with("\u{1f534} Critical: "));
    assert!(summary.key_findings[1].starts_with("\u{1f7e0} High: "));
    assert!(summary.key_findings[2].starts_with("\u{1f7e0} High: "));

    let recs = generator().create_recommendations(&results.vulnerabilities, &results.recommendations);
    assert_eq!(recs.len(), 2);
    assert_eq!(recs[0].related_vulnerabilities, vec!["V-1".to_string()]);
    assert_eq!(recs[1].related_vulnerabilities, vec!["V-2".to_string(), "V-3".to_string()]);
}

#[test]
fn scenario_empty_findings_with_summary() {
    let results = results_with(Vec::new(), vec!["Keep dependencies updated".to_string()]);
    let analysis = analysis_of(&results.vulnerabilities);
    let summary = generator().create_executive_summary(&results, &analysis);
    assert_eq!(summary.overall_risk_level, "Minimal");
    assert_eq!(summary.total_vulnerabilities, 0);
    assert_eq!(
        summary.key_findings,
        vec!["No critical or high-severity vulnerabilities found.".to_string()]
    );
    let recs = generator().create_recommendations(&results.vulnerabilities, &results.recommendations);
    assert_eq!(recs.len(), 1);
    assert_eq!(recs[0].id, "REC-100");
}

#[test]
fn scenario_summary_disabled() {
    let vulns = sample_vulns();
    let results = results_with(vulns, Vec::new());
    let report = generator().create_comprehensive_report(
        &results,
        false,
        "fixed-id".to_string(),
        "2024-01-01 00:00:00 UTC".to_string(),
    );
    assert_eq!(report.executive_summary.overall_risk_level, "Not Calculated");
    assert_eq!(report.executive_summary.critical_findings, 0);
    assert_eq!(report.executive_summary.high_risk_findings, 0);
    assert_eq!(report.executive_summary.medium_risk_findings, 0);
    assert_eq!(report.executive_summary.low_risk_findings, 0);
    assert_eq!(report.executive_summary.total_vulnerabilities, 5);
    assert_eq!(report.executive_summary.security_score, 8500);
    assert!(report.executive_summary.key_findings.is_empty());
}

#[test]
fn unsupported_format_always_fails() {
    let results = results_with(Vec::new(), Vec::new());
    let r = generator().generate_comprehensive_report(&results, "xml", true);
    match r {
        Err(ReportError::UnsupportedFormat(f)) => {
            assert_eq!(f, "xml");
        },
        Ok(_) => panic!("unsupported format must not default to a renderer"),
    }
    let empty = generator().generate_comprehensive_report(&results, "", true);
    assert!(empty.is_err());
}

#[test]
fn unsupported_format_message_names_format() {
    let results = results_with(Vec::new(), Vec::new());
    let r = generator().generate_comprehensive_report(&results, "docx", true);
    match r {
        Err(e) => assert_eq!(e.message(), "Unsupported report format: docx"),
        Ok(_) => panic!("expected an error"),
    }
}

#[test]
fn supported_formats_succeed() {
    let results = results_with(sample_vulns(), vec!["Advice".to_string()]);
    for format in ["markdown", "html", "json", "pdf"] {
        let r = generator().generate_comprehensive_report(&results, format, true);
        assert!(r.is_ok(), "format {} must succeed", format);
    }
}

#[test]
fn report_id_is_36_characters() {
    let results = results_with(Vec::new(), Vec::new());
    let md = generator().generate_markdown_report(&results).unwrap();
    let line = md
        .lines()
        .find(|l| l.starts_with("**Report ID:** "))
        .expect("metadata line present");
    let id = line.trim_start_matches("**Report ID:** ");
    assert_eq!(id.chars().count(), 36);
}
