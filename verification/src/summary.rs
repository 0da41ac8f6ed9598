//! The risk summarizer: the overall risk verdict, the ranked key-findings
//! list, and the short recommendations summary.
use crate::analysis::{
    lemma_count_in_pos, spec_count_in, spec_severity_keys, spec_tallies, VulnerabilityAnalysis,
};
use crate::finding::{spec_vuln_views, AnalysisResults, VulnView, Vulnerability};
use crate::text::{s_append_string, spec_views, string_eq_str};
use crate::ReportGenerator;
use vstd::prelude::*;

verus! {

/// The decision-ready digest at the head of a report. `security_score` is
/// scaled to hundredths, copied verbatim from the input metrics.
pub struct ExecutiveSummary {
    pub overall_risk_level: String,
    pub total_vulnerabilities: usize,
    pub critical_findings: usize,
    pub high_risk_findings: usize,
    pub medium_risk_findings: usize,
    pub low_risk_findings: usize,
    pub security_score: u64,
    pub key_findings: Vec<String>,
    pub recommendations_summary: Vec<String>,
}

/// The overall risk level of a finding sequence: the highest recognized
/// severity present wins, in the order Critical, High, Medium, Low; with none
/// of the four present the level is Minimal.
pub open spec fn spec_risk_level(vs: Seq<VulnView>) -> Seq<char> {
    let keys = spec_severity_keys(vs);
    if spec_count_in(keys, "Critical"@) > 0 {
        "Critical"@
    } else if spec_count_in(keys, "High"@) > 0 {
        "High"@
    } else if spec_count_in(keys, "Medium"@) > 0 {
        "Medium"@
    } else if spec_count_in(keys, "Low"@) > 0 {
        "Low"@
    } else {
        "Minimal"@
    }
}

/// The titles of the findings from index `i` on whose severity is `sev`, at
/// most `cap` of them, each prefixed with `prefix`.
pub open spec fn spec_marked_titles(
    vs: Seq<VulnView>,
    sev: Seq<char>,
    prefix: Seq<char>,
    cap: nat,
    i: int,
) -> Seq<Seq<char>>
    decreases vs.len() - i,
{
    if i < 0 || i >= vs.len() || cap == 0 {
        Seq::empty()
    } else if vs[i].severity == sev {
        seq![prefix + vs[i].title] + spec_marked_titles(vs, sev, prefix, (cap - 1) as nat, i + 1)
    } else {
        spec_marked_titles(vs, sev, prefix, cap, i + 1)
    }
}

/// The sentinel key-findings entry used when no Critical or High finding
/// exists.
pub open spec fn spec_no_key_findings() -> Seq<char> {
    "No critical or high-severity vulnerabilities found."@
}

/// The key-findings list: up to three Critical titles in input order, then up
/// to two High titles in input order, each with its marker; the sentinel
/// entry alone when there are none.
pub open spec fn spec_key_findings(vs: Seq<VulnView>) -> Seq<Seq<char>> {
    let c = spec_marked_titles(vs, "Critical"@, "\u{1f534} Critical: "@, 3, 0);
    let h = spec_marked_titles(vs, "High"@, "\u{1f7e0} High: "@, 2, 0);
    if c.len() + h.len() == 0 {
        seq![spec_no_key_findings()]
    } else {
        c + h
    }
}

/// At most `cap` titles are picked from any suffix.
pub proof fn lemma_marked_titles_len(
    vs: Seq<VulnView>,
    sev: Seq<char>,
    prefix: Seq<char>,
    cap: nat,
    i: int,
)
    ensures
        spec_marked_titles(vs, sev, prefix, cap, i).len() <= cap,
    decreases vs.len() - i,
{
    if 0 <= i < vs.len() && cap > 0 {
        if vs[i].severity == sev {
            lemma_marked_titles_len(vs, sev, prefix, (cap - 1) as nat, i + 1);
        } else {
            lemma_marked_titles_len(vs, sev, prefix, cap, i + 1);
        }
    }
}

/// No finding of severity `sev` in the suffix means no picked title.
pub proof fn lemma_marked_titles_absent(
    vs: Seq<VulnView>,
    sev: Seq<char>,
    prefix: Seq<char>,
    cap: nat,
    i: int,
)
    requires
        forall|j: int| i <= j < vs.len() ==> vs[j].severity != sev,
    ensures
        spec_marked_titles(vs, sev, prefix, cap, i).len() == 0,
    decreases vs.len() - i,
{
    if 0 <= i < vs.len() && cap > 0 {
        lemma_marked_titles_absent(vs, sev, prefix, cap, i + 1);
    }
}

/// The key-findings list never exceeds five entries, and it is exactly the
/// sentinel entry when no Critical or High finding exists.
pub proof fn lemma_key_findings_bounds(vs: Seq<VulnView>)
    ensures
        1 <= spec_key_findings(vs).len() <= 5,
        (forall|j: int|
            0 <= j < vs.len() ==> vs[j].severity != "Critical"@ && vs[j].severity != "High"@)
            ==> spec_key_findings(vs) == seq![spec_no_key_findings()],
{
    lemma_marked_titles_len(vs, "Critical"@, "\u{1f534} Critical: "@, 3, 0);
    lemma_marked_titles_len(vs, "High"@, "\u{1f7e0} High: "@, 2, 0);
    if forall|j: int|
        0 <= j < vs.len() ==> vs[j].severity != "Critical"@ && vs[j].severity != "High"@ {
        lemma_marked_titles_absent(vs, "Critical"@, "\u{1f534} Critical: "@, 3, 0);
        lemma_marked_titles_absent(vs, "High"@, "\u{1f7e0} High: "@, 2, 0);
    }
}

/// A severity's tally is positive exactly when a finding of that severity
/// exists.
pub proof fn lemma_sev_count_pos(vs: Seq<VulnView>, k: Seq<char>)
    ensures
        spec_count_in(spec_severity_keys(vs), k) > 0 <==> exists|j: int|
            0 <= j < vs.len() && vs[j].severity == k,
{
    let keys = spec_severity_keys(vs);
    lemma_count_in_pos(keys, k);
    if exists|j: int| 0 <= j < keys.len() && keys[j] == k {
        let j = choose|j: int| 0 <= j < keys.len() && keys[j] == k;
        assert(vs[j].severity == k);
    }
    if exists|j: int| 0 <= j < vs.len() && vs[j].severity == k {
        let j = choose|j: int| 0 <= j < vs.len() && vs[j].severity == k;
        assert(keys[j] == k);
    }
}

/// The overall risk verdict is Critical exactly when a Critical finding
/// exists, and Minimal exactly when no finding carries one of the four
/// recognized triggering severities.
pub proof fn lemma_risk_level(vs: Seq<VulnView>)
    ensures
        (spec_risk_level(vs) == "Critical"@) <==> (exists|j: int|
            0 <= j < vs.len() && vs[j].severity == "Critical"@),
        (spec_risk_level(vs) == "Minimal"@) <==> (forall|j: int|
            0 <= j < vs.len() ==> vs[j].severity != "Critical"@ && vs[j].severity != "High"@ && vs[
                j
            ].severity != "Medium"@ && vs[j].severity != "Low"@),
{
    reveal_strlit("Critical");
    reveal_strlit("High");
    reveal_strlit("Medium");
    reveal_strlit("Low");
    reveal_strlit("Minimal");
    lemma_sev_count_pos(vs, "Critical"@);
    lemma_sev_count_pos(vs, "High"@);
    lemma_sev_count_pos(vs, "Medium"@);
    lemma_sev_count_pos(vs, "Low"@);
    assert("Critical"@.len() == 8);
    assert("High"@.len() == 4);
    assert("Medium"@.len() == 6);
    assert("Low"@.len() == 3);
    assert("Minimal"@.len() == 7);
}

/// The executive-summary contract: the verdict, the counts, the key-findings
/// list and the recommendations digest all computed from `results`.
pub open spec fn spec_summary_matches(r: ExecutiveSummary, results: AnalysisResults) -> bool {
    let views = spec_vuln_views(results.vulnerabilities@);
    let keys = spec_severity_keys(views);
    &&& r.overall_risk_level@ == spec_risk_level(views)
    &&& r.total_vulnerabilities == results.vulnerabilities@.len()
    &&& r.critical_findings as nat == spec_count_in(keys, "Critical"@)
    &&& r.high_risk_findings as nat == spec_count_in(keys, "High"@)
    &&& r.medium_risk_findings as nat == spec_count_in(keys, "Medium"@)
    &&& r.low_risk_findings as nat == spec_count_in(keys, "Low"@)
    &&& r.security_score == results.metrics.security_score
    &&& spec_views(r.key_findings@) == spec_key_findings(views)
    &&& spec_views(r.recommendations_summary@) == spec_views(results.recommendations@).take(
        if results.recommendations@.len() < 3 {
            results.recommendations@.len() as int
        } else {
            3
        },
    )
}

/// The placeholder summary used when the caller opts out of summary
/// computation: an explicit Not Calculated verdict, zeroed per-severity
/// counts, and the security score copied from the input metrics.
pub open spec fn spec_placeholder_summary(r: ExecutiveSummary, results: AnalysisResults) -> bool {
    &&& r.overall_risk_level@ == "Not Calculated"@
    &&& r.total_vulnerabilities == results.vulnerabilities@.len()
    &&& r.critical_findings == 0
    &&& r.high_risk_findings == 0
    &&& r.medium_risk_findings == 0
    &&& r.low_risk_findings == 0
    &&& r.security_score == results.metrics.security_score
    &&& r.key_findings@.len() == 0
    &&& r.recommendations_summary@.len() == 0
}

impl ReportGenerator {
    /// The key-findings list of the report: up to three Critical titles and
    /// two High titles with their markers, or the sentinel entry.
    pub fn extract_key_findings(&self, vulnerabilities: &Vec<Vulnerability>) -> (r: Vec<String>)
        ensures
            spec_views(r@) == spec_key_findings(spec_vuln_views(vulnerabilities@)),
    {
        let ghost views = spec_vuln_views(vulnerabilities@);
        let mut out: Vec<String> = Vec::new();
        let n = vulnerabilities.len();
        let ghost crit_full = spec_marked_titles(views, "Critical"@, "\u{1f534} Critical: "@, 3, 0);
        let ghost high_full = spec_marked_titles(views, "High"@, "\u{1f7e0} High: "@, 2, 0);
        let mut i: usize = 0;
        let mut cap: usize = 3;
        while i < n
            invariant
                n == vulnerabilities.len(),
                views == spec_vuln_views(vulnerabilities@),
                i <= n,
                cap <= 3,
                spec_views(out@) + spec_marked_titles(
                    views,
                    "Critical"@,
                    "\u{1f534} Critical: "@,
                    cap as nat,
                    i as int,
                ) == crit_full,
            decreases n - i,
        {
            let v = &vulnerabilities[i];
            if cap > 0 && string_eq_str(&v.severity, "Critical") {
                let mut entry = "\u{1f534} Critical: ".to_owned();
                s_append_string(&mut entry, &v.title);
                out.push(entry);
                cap = cap - 1;
                proof {
                    let entry_view = "\u{1f534} Critical: "@ + v@.title;
                    assert(spec_views(out@) =~= spec_views(out@.drop_last()).push(entry_view));
                }
            }
            i = i + 1;
        }
        proof {
            assert(spec_views(out@) =~= crit_full);
        }
        let ghost crit_len = out@.len();
        let mut j: usize = 0;
        let mut hcap: usize = 2;
        while j < n
            invariant
                n == vulnerabilities.len(),
                views == spec_vuln_views(vulnerabilities@),
                j <= n,
                hcap <= 2,
                spec_views(out@) + spec_marked_titles(
                    views,
                    "High"@,
                    "\u{1f7e0} High: "@,
                    hcap as nat,
                    j as int,
                ) == crit_full + high_full,
            decreases n - j,
        {
            let v = &vulnerabilities[j];
            if hcap > 0 && string_eq_str(&v.severity, "High") {
                let mut entry = "\u{1f7e0} High: ".to_owned();
                s_append_string(&mut entry, &v.title);
                out.push(entry);
                hcap = hcap - 1;
                proof {
                    let entry_view = "\u{1f7e0} High: "@ + v@.title;
                    assert(spec_views(out@) =~= spec_views(out@.drop_last()).push(entry_view));
                }
            }
            j = j + 1;
        }
        proof {
            assert(spec_views(out@) =~= crit_full + high_full);
        }
        if out.len() == 0 {
            out.push("No critical or high-severity vulnerabilities found.".to_owned());
            proof {
                assert(spec_views(out@) =~= seq![spec_no_key_findings()]);
            }
        }
        out
    }

    /// The executive summary computed from the findings and their severity
    /// distribution.
    pub fn create_executive_summary(
        &self,
        results: &AnalysisResults,
        vulnerability_analysis: &VulnerabilityAnalysis,
    ) -> (r: ExecutiveSummary)
        requires
            spec_tallies(
                vulnerability_analysis.severity_distribution@,
                spec_severity_keys(spec_vuln_views(results.vulnerabilities@)),
            ),
        ensures
            spec_summary_matches(r, *results),
    {
        let critical_findings = vulnerability_analysis.severity_distribution.get("Critical");
        let high_risk_findings = vulnerability_analysis.severity_distribution.get("High");
        let medium_risk_findings = vulnerability_analysis.severity_distribution.get("Medium");
        let low_risk_findings = vulnerability_analysis.severity_distribution.get("Low");

        let overall_risk_level = if critical_findings > 0 {
            "Critical".to_owned()
        } else if high_risk_findings > 0 {
            "High".to_owned()
        } else if medium_risk_findings > 0 {
            "Medium".to_owned()
        } else if low_risk_findings > 0 {
            "Low".to_owned()
        } else {
            "Minimal".to_owned()
        };

        let key_findings = self.extract_key_findings(&results.vulnerabilities);

        let mut recommendations_summary: Vec<String> = Vec::new();
        let total = results.recommendations.len();
        let limit = if total < 3 {
            total
        } else {
            3
        };
        let mut i: usize = 0;
        while i < limit
            invariant
                limit <= results.recommendations@.len(),
                i <= limit,
                recommendations_summary@.len() == i,
                forall|m: int|
                    0 <= m < i ==> recommendations_summary@[m]@ == results.recommendations@[m]@,
            decreases limit - i,
        {
            recommendations_summary.push(results.recommendations[i].clone());
            i = i + 1;
        }
        proof {
            assert(spec_views(recommendations_summary@) =~= spec_views(
                results.recommendations@,
            ).take(limit as int));
        }

        ExecutiveSummary {
            overall_risk_level,
            total_vulnerabilities: results.vulnerabilities.len(),
            critical_findings,
            high_risk_findings,
            medium_risk_findings,
            low_risk_findings,
            security_score: results.metrics.security_score,
            key_findings,
            recommendations_summary,
        }
    }
}

} // verus!
