//! The canonical structured-text (markdown) rendering of an assembled report:
//! a fixed section order, findings grouped by severity, and unrecognized
//! severities displayed under Informational.
use crate::assemble::{Appendix, ComprehensiveReport, ReportMetadata, TechnicalDetails};
use crate::finding::{spec_vuln_views, VulnView, Vulnerability};
use crate::recommend::{spec_rec_views, RecView, Recommendation};
use crate::summary::ExecutiveSummary;
use crate::text::{
    push_dec_u64, push_dec_usize, push_hundredths, push_joined, s_append, s_append_string,
    spec_dec, spec_hundredths, spec_join, spec_views, string_eq_str,
};
use crate::ReportGenerator;
use vstd::prelude::*;

verus! {

/// One reference line of a finding's reference list.
pub open spec fn spec_md_refs(refs: Seq<Seq<char>>, i: int) -> Seq<char>
    decreases refs.len() - i,
{
    if i < 0 || i >= refs.len() {
        Seq::empty()
    } else {
        "- "@ + refs[i] + "\n"@ + spec_md_refs(refs, i + 1)
    }
}

/// The heading and description lines of one finding's markdown block.
pub open spec fn spec_md_vuln_head(v: VulnView, sev_label: Seq<char>, num: nat) -> Seq<char> {
    "#### "@ + sev_label.subrange(0, 1) + "."@ + spec_dec(num) + " "@ + v.title + "\n\n"@
        + "**Description:** "@ + v.description + "\n\n"@ + "**File:** "@ + v.file_path + "\n"@
}

/// The location, tool and confidence lines of one finding's markdown block.
pub open spec fn spec_md_vuln_mid(v: VulnView) -> Seq<char> {
    (match v.line_number {
        Some(n) => "**Line:** "@ + spec_dec(n as nat) + "\n"@,
        None => Seq::empty(),
    }) + "**Tool:** "@ + v.tool + "\n"@ + "**Confidence:** "@ + spec_hundredths(v.confidence as nat)
        + "\n\n"@
}

/// The optional snippet, remediation and reference blocks and the separator
/// of one finding's markdown block.
pub open spec fn spec_md_vuln_tail(v: VulnView) -> Seq<char> {
    (match v.code_snippet {
        Some(c) => "**Code Snippet:**\n"@ + "```solidity\n"@ + c + "\n```\n\n"@,
        None => Seq::empty(),
    }) + (match v.recommendation {
        Some(t) => "**Recommendation:** "@ + t + "\n\n"@,
        None => Seq::empty(),
    }) + (if v.references.len() > 0 {
        "**References:**\n"@ + spec_md_refs(v.references, 0) + "\n"@
    } else {
        Seq::empty()
    }) + "---\n\n"@
}

/// The markdown block of one finding, numbered `num` within its severity
/// group whose label is `sev_label`.
pub open spec fn spec_md_vuln(v: VulnView, sev_label: Seq<char>, num: nat) -> Seq<char> {
    spec_md_vuln_head(v, sev_label, num) + spec_md_vuln_mid(v) + spec_md_vuln_tail(v)
}

/// The markdown blocks of the findings from index `i` on, numbered from
/// `i + 1`.
pub open spec fn spec_md_vuln_list(vs: Seq<VulnView>, sev_label: Seq<char>, i: int) -> Seq<char>
    decreases vs.len() - i,
{
    if i < 0 || i >= vs.len() {
        Seq::empty()
    } else {
        spec_md_vuln(vs[i], sev_label, (i + 1) as nat) + spec_md_vuln_list(vs, sev_label, i + 1)
    }
}

/// One severity group's markdown section: nothing for an empty group, else a
/// header with the group's icon and label followed by the finding blocks.
pub open spec fn spec_md_section(sev_label: Seq<char>, icon: Seq<char>, vs: Seq<VulnView>) -> Seq<
    char,
> {
    if vs.len() == 0 {
        Seq::empty()
    } else {
        "### "@ + icon + " "@ + sev_label + " Vulnerabilities\n\n"@ + spec_md_vuln_list(
            vs,
            sev_label,
            0,
        )
    }
}

/// The findings from index `i` on whose severity is exactly `sev`.
pub open spec fn spec_filter_sev(vs: Seq<VulnView>, sev: Seq<char>, i: int) -> Seq<VulnView>
    decreases vs.len() - i,
{
    if i < 0 || i >= vs.len() {
        Seq::empty()
    } else if vs[i].severity == sev {
        seq![vs[i]] + spec_filter_sev(vs, sev, i + 1)
    } else {
        spec_filter_sev(vs, sev, i + 1)
    }
}

/// Whether a severity string is one of the four recognized display groups
/// above Informational.
pub open spec fn spec_recognized_severity(sev: Seq<char>) -> bool {
    sev == "Critical"@ || sev == "High"@ || sev == "Medium"@ || sev == "Low"@
}

/// The findings from index `i` on whose severity is not one of the four
/// recognized groups; they display under Informational.
pub open spec fn spec_filter_info(vs: Seq<VulnView>, i: int) -> Seq<VulnView>
    decreases vs.len() - i,
{
    if i < 0 || i >= vs.len() {
        Seq::empty()
    } else if !spec_recognized_severity(vs[i].severity) {
        seq![vs[i]] + spec_filter_info(vs, i + 1)
    } else {
        spec_filter_info(vs, i + 1)
    }
}

/// The title/metadata header of the markdown document.
pub open spec fn spec_md_header(m: ReportMetadata) -> Seq<char> {
    "# Security Audit Report: "@ + m.contract_name@ + "\n\n"@ + "**Report ID:** "@ + m.report_id@
        + "\n"@ + "**Generated:** "@ + m.generated_at@ + "\n"@ + "**Version:** "@ + m.version@
        + "\n"@ + "**Tools Used:** "@ + spec_join(spec_views(m.analysis_tools@), ", "@) + "\n\n"@
}

/// One bullet line per entry.
pub open spec fn spec_md_bullets(items: Seq<Seq<char>>, i: int) -> Seq<char>
    decreases items.len() - i,
{
    if i < 0 || i >= items.len() {
        Seq::empty()
    } else {
        "- "@ + items[i] + "\n"@ + spec_md_bullets(items, i + 1)
    }
}

/// The executive-summary section of the markdown document.
pub open spec fn spec_md_summary(es: ExecutiveSummary) -> Seq<char> {
    "## Executive Summary\n\n"@ + "**Overall Risk Level:** "@ + es.overall_risk_level@ + "\n"@
        + "**Security Score:** "@ + spec_hundredths(es.security_score as nat) + "/100\n"@
        + "**Total Vulnerabilities:** "@ + spec_dec(es.total_vulnerabilities as nat) + "\n\n"@
        + "### Severity Distribution\n\n"@ + "- \u{1f534} Critical: "@ + spec_dec(
        es.critical_findings as nat,
    ) + "\n"@ + "- \u{1f7e0} High: "@ + spec_dec(es.high_risk_findings as nat) + "\n"@
        + "- \u{1f7e1} Medium: "@ + spec_dec(es.medium_risk_findings as nat) + "\n"@
        + "- \u{1f7e2} Low: "@ + spec_dec(es.low_risk_findings as nat) + "\n\n"@ + (
    if es.key_findings@.len() > 0 {
        "### Key Findings\n\n"@ + spec_md_bullets(spec_views(es.key_findings@), 0) + "\n"@
    } else {
        Seq::empty()
    })
}

/// The markdown block of one recommendation, numbered `num`.
pub open spec fn spec_md_rec(r: RecView, num: nat) -> Seq<char> {
    "### "@ + spec_dec(num) + ". "@ + r.title + "\n\n"@ + "**Priority:** "@ + r.priority + "\n"@
        + "**Effort:** "@ + r.effort + "\n"@ + "**Impact:** "@ + r.impact + "\n\n"@ + r.description
        + "\n\n"@
}

/// The markdown blocks of the recommendations from index `i` on, numbered
/// from `i + 1`.
pub open spec fn spec_md_rec_list(rs: Seq<RecView>, i: int) -> Seq<char>
    decreases rs.len() - i,
{
    if i < 0 || i >= rs.len() {
        Seq::empty()
    } else {
        spec_md_rec(rs[i], (i + 1) as nat) + spec_md_rec_list(rs, i + 1)
    }
}

/// The technical-details section of the markdown document.
pub open spec fn spec_md_tech(t: TechnicalDetails) -> Seq<char> {
    "## Technical Details\n\n"@ + "**Analysis Duration:** "@ + spec_hundredths(
        t.analysis_duration as nat,
    ) + " seconds\n"@ + "**Lines of Code:** "@ + spec_dec(t.analysis_metrics.lines_of_code as nat)
        + "\n"@ + "**Functions Analyzed:** "@ + spec_dec(
        t.analysis_metrics.functions_analyzed as nat,
    ) + "\n"@ + "**Complexity Score:** "@ + spec_hundredths(
        t.analysis_metrics.complexity_score as nat,
    ) + "\n\n"@
}

/// The markdown blocks of the appendices from index `i` on.
pub open spec fn spec_md_appendices(apps: Seq<Appendix>, i: int) -> Seq<char>
    decreases apps.len() - i,
{
    if i < 0 || i >= apps.len() {
        Seq::empty()
    } else {
        "### "@ + apps[i].title@ + "\n\n"@ + apps[i].content@ + "\n\n"@ + spec_md_appendices(
            apps,
            i + 1,
        )
    }
}

/// The full markdown document of an assembled report.
#[verifier::opaque]
pub open spec fn spec_markdown(report: ComprehensiveReport) -> Seq<char> {
    let views = spec_vuln_views(report.vulnerability_analysis.vulnerabilities@);
    spec_md_header(report.metadata) + spec_md_summary(report.executive_summary)
        + "## Vulnerability Analysis\n\n"@ + spec_md_section(
        "Critical"@,
        "\u{1f534}"@,
        spec_filter_sev(views, "Critical"@, 0),
    ) + spec_md_section("High"@, "\u{1f7e0}"@, spec_filter_sev(views, "High"@, 0))
        + spec_md_section("Medium"@, "\u{1f7e1}"@, spec_filter_sev(views, "Medium"@, 0))
        + spec_md_section("Low"@, "\u{1f7e2}"@, spec_filter_sev(views, "Low"@, 0)) + spec_md_section(
        "Informational"@,
        "\u{1f535}"@,
        spec_filter_info(views, 0),
    ) + "## Recommendations\n\n"@ + spec_md_rec_list(spec_rec_views(report.recommendations@), 0)
        + spec_md_tech(report.technical_details) + (if report.appendices@.len() > 0 {
        "## Appendices\n\n"@ + spec_md_appendices(report.appendices@, 0)
    } else {
        Seq::empty()
    })
}

/// The findings whose severity is exactly `sev`, in input order.
fn filter_by_severity(vs: &Vec<Vulnerability>, sev: &str) -> (r: Vec<Vulnerability>)
    ensures
        spec_vuln_views(r@) == spec_filter_sev(spec_vuln_views(vs@), sev@, 0),
{
    let ghost views = spec_vuln_views(vs@);
    let mut r: Vec<Vulnerability> = Vec::new();
    let n = vs.len();
    let mut i: usize = 0;
    while i < n
        invariant
            n == vs.len(),
            views == spec_vuln_views(vs@),
            i <= n,
            spec_vuln_views(r@) + spec_filter_sev(views, sev@, i as int) == spec_filter_sev(
                views,
                sev@,
                0,
            ),
        decreases n - i,
    {
        let v = &vs[i];
        if string_eq_str(&v.severity, sev) {
            r.push(v.duplicate());
            proof {
                assert(spec_vuln_views(r@) =~= spec_vuln_views(r@.drop_last()).push(v@));
            }
        }
        i = i + 1;
    }
    proof {
        assert(spec_vuln_views(r@) =~= spec_filter_sev(views, sev@, 0));
    }
    r
}

/// The findings whose severity is none of the four recognized groups, in
/// input order.
fn filter_informational(vs: &Vec<Vulnerability>) -> (r: Vec<Vulnerability>)
    ensures
        spec_vuln_views(r@) == spec_filter_info(spec_vuln_views(vs@), 0),
{
    let ghost views = spec_vuln_views(vs@);
    let mut r: Vec<Vulnerability> = Vec::new();
    let n = vs.len();
    let mut i: usize = 0;
    while i < n
        invariant
            n == vs.len(),
            views == spec_vuln_views(vs@),
            i <= n,
            spec_vuln_views(r@) + spec_filter_info(views, i as int) == spec_filter_info(views, 0),
        decreases n - i,
    {
        let v = &vs[i];
        let recognized = string_eq_str(&v.severity, "Critical") || string_eq_str(
            &v.severity,
            "High",
        ) || string_eq_str(&v.severity, "Medium") || string_eq_str(&v.severity, "Low");
        if !recognized {
            r.push(v.duplicate());
            proof {
                assert(spec_vuln_views(r@) =~= spec_vuln_views(r@.drop_last()).push(v@));
            }
        }
        i = i + 1;
    }
    proof {
        assert(spec_vuln_views(r@) =~= spec_filter_info(views, 0));
    }
    r
}

/// Appends the reference lines of a finding.
fn push_md_refs(md: &mut String, refs: &Vec<String>)
    ensures
        final(md)@ == old(md)@ + spec_md_refs(spec_views(refs@), 0),
{
    let n = refs.len();
    let mut i: usize = 0;
    while i < n
        invariant
            n == refs.len(),
            i <= n,
            md@ + spec_md_refs(spec_views(refs@), i as int) == old(md)@ + spec_md_refs(
                spec_views(refs@),
                0,
            ),
        decreases n - i,
    {
        s_append(md, "- ");
        s_append_string(md, &refs[i]);
        s_append(md, "\n");
        i = i + 1;
        proof {
            assert(md@ + spec_md_refs(spec_views(refs@), i as int) =~= old(md)@ + spec_md_refs(
                spec_views(refs@),
                0,
            ));
        }
    }
    proof {
        assert(final(md)@ =~= old(md)@ + spec_md_refs(spec_views(refs@), 0));
    }
}

/// Appends the heading and description lines of one finding's block.
fn push_md_vuln_head(md: &mut String, v: &Vulnerability, sev_label: &str, num: u64)
    requires
        sev_label@.len() >= 1,
    ensures
        final(md)@ == old(md)@ + spec_md_vuln_head(v@, sev_label@, num as nat),
{
    s_append(md, "#### ");
    let letter = sev_label.substring_char(0, 1);
    s_append(md, letter);
    s_append(md, ".");
    push_dec_u64(md, num);
    s_append(md, " ");
    s_append_string(md, &v.title);
    s_append(md, "\n\n");
    s_append(md, "**Description:** ");
    s_append_string(md, &v.description);
    s_append(md, "\n\n");
    s_append(md, "**File:** ");
    s_append_string(md, &v.file_path);
    s_append(md, "\n");
    proof {
        assert(final(md)@ =~= old(md)@ + spec_md_vuln_head(v@, sev_label@, num as nat));
    }
}

/// Appends the location, tool and confidence lines of one finding's block.
fn push_md_vuln_mid(md: &mut String, v: &Vulnerability)
    ensures
        final(md)@ == old(md)@ + spec_md_vuln_mid(v@),
{
    match &v.line_number {
        Some(line) => {
            s_append(md, "**Line:** ");
            push_dec_u64(md, *line);
            s_append(md, "\n");
        },
        None => {},
    }
    s_append(md, "**Tool:** ");
    s_append_string(md, &v.tool);
    s_append(md, "\n");
    s_append(md, "**Confidence:** ");
    push_hundredths(md, v.confidence);
    s_append(md, "\n\n");
    proof {
        assert(final(md)@ =~= old(md)@ + spec_md_vuln_mid(v@));
    }
}

/// Appends the optional snippet, remediation and reference blocks and the
/// separator of one finding's block.
fn push_md_vuln_tail(md: &mut String, v: &Vulnerability)
    ensures
        final(md)@ == old(md)@ + spec_md_vuln_tail(v@),
{
    match &v.code_snippet {
        Some(code) => {
            s_append(md, "**Code Snippet:**\n");
            s_append(md, "```solidity\n");
            s_append_string(md, code);
            s_append(md, "\n```\n\n");
        },
        None => {},
    }
    match &v.recommendation {
        Some(recommendation) => {
            s_append(md, "**Recommendation:** ");
            s_append_string(md, recommendation);
            s_append(md, "\n\n");
        },
        None => {},
    }
    if v.references.len() > 0 {
        s_append(md, "**References:**\n");
        push_md_refs(md, &v.references);
        s_append(md, "\n");
    }
    s_append(md, "---\n\n");
    proof {
        assert(final(md)@ =~= old(md)@ + spec_md_vuln_tail(v@));
    }
}

/// Appends the markdown block of one finding.
fn push_md_vuln(md: &mut String, v: &Vulnerability, sev_label: &str, num: u64)
    requires
        sev_label@.len() >= 1,
    ensures
        final(md)@ == old(md)@ + spec_md_vuln(v@, sev_label@, num as nat),
{
    push_md_vuln_head(md, v, sev_label, num);
    push_md_vuln_mid(md, v);
    push_md_vuln_tail(md, v);
    proof {
        assert(final(md)@ =~= old(md)@ + spec_md_vuln(v@, sev_label@, num as nat));
    }
}

/// Appends the title/metadata header of the markdown document.
fn push_md_header(md: &mut String, m: &ReportMetadata)
    ensures
        final(md)@ == old(md)@ + spec_md_header(*m),
{
    s_append(md, "# Security Audit Report: ");
    s_append_string(md, &m.contract_name);
    s_append(md, "\n\n");
    s_append(md, "**Report ID:** ");
    s_append_string(md, &m.report_id);
    s_append(md, "\n");
    s_append(md, "**Generated:** ");
    s_append_string(md, &m.generated_at);
    s_append(md, "\n");
    s_append(md, "**Version:** ");
    s_append_string(md, &m.version);
    s_append(md, "\n");
    s_append(md, "**Tools Used:** ");
    push_joined(md, &m.analysis_tools, ", ");
    s_append(md, "\n\n");
    proof {
        assert(final(md)@ =~= old(md)@ + spec_md_header(*m));
    }
}

/// Appends the executive-summary section of the markdown document.
#[verifier::rlimit(60)]
fn push_md_summary(md: &mut String, es: &ExecutiveSummary)
    ensures
        final(md)@ == old(md)@ + spec_md_summary(*es),
{
    s_append(md, "## Executive Summary\n\n");
    s_append(md, "**Overall Risk Level:** ");
    s_append_string(md, &es.overall_risk_level);
    s_append(md, "\n");
    s_append(md, "**Security Score:** ");
    push_hundredths(md, es.security_score);
    s_append(md, "/100\n");
    s_append(md, "**Total Vulnerabilities:** ");
    push_dec_usize(md, es.total_vulnerabilities);
    s_append(md, "\n\n");
    s_append(md, "### Severity Distribution\n\n");
    s_append(md, "- \u{1f534} Critical: ");
    push_dec_usize(md, es.critical_findings);
    s_append(md, "\n");
    s_append(md, "- \u{1f7e0} High: ");
    push_dec_usize(md, es.high_risk_findings);
    s_append(md, "\n");
    s_append(md, "- \u{1f7e1} Medium: ");
    push_dec_usize(md, es.medium_risk_findings);
    s_append(md, "\n");
    s_append(md, "- \u{1f7e2} Low: ");
    push_dec_usize(md, es.low_risk_findings);
    s_append(md, "\n\n");
    let ghost before_bullets = md@;
    if es.key_findings.len() > 0 {
        s_append(md, "### Key Findings\n\n");
        push_md_bullets(md, &es.key_findings);
        s_append(md, "\n");
        proof {
            assert(md@ == before_bullets + "### Key Findings\n\n"@ + spec_md_bullets(
                spec_views(es.key_findings@),
                0,
            ) + "\n"@);
        }
    }
    proof {
        assert(final(md)@ =~= old(md)@ + spec_md_summary(*es));
    }
}

/// Appends one bullet line per entry.
fn push_md_bullets(md: &mut String, items: &Vec<String>)
    ensures
        final(md)@ == old(md)@ + spec_md_bullets(spec_views(items@), 0),
{
    let n = items.len();
    let mut i: usize = 0;
    while i < n
        invariant
            n == items.len(),
            i <= n,
            md@ + spec_md_bullets(spec_views(items@), i as int) == old(md)@ + spec_md_bullets(
                spec_views(items@),
                0,
            ),
        decreases n - i,
    {
        s_append(md, "- ");
        s_append_string(md, &items[i]);
        s_append(md, "\n");
        i = i + 1;
        proof {
            assert(md@ + spec_md_bullets(spec_views(items@), i as int) =~= old(md)@
                + spec_md_bullets(spec_views(items@), 0));
        }
    }
    proof {
        assert(final(md)@ =~= old(md)@ + spec_md_bullets(spec_views(items@), 0));
    }
}

/// Appends the numbered recommendation blocks.
fn push_md_recs(md: &mut String, recs: &Vec<Recommendation>)
    ensures
        final(md)@ == old(md)@ + spec_md_rec_list(spec_rec_views(recs@), 0),
{
    let ghost rec_views = spec_rec_views(recs@);
    let n = recs.len();
    let mut i: usize = 0;
    while i < n
        invariant
            n == recs.len(),
            rec_views == spec_rec_views(recs@),
            i <= n,
            md@ + spec_md_rec_list(rec_views, i as int) == old(md)@ + spec_md_rec_list(
                rec_views,
                0,
            ),
        decreases n - i,
    {
        let ghost at_entry = md@;
        let rec = &recs[i];
        s_append(md, "### ");
        push_dec_u64(md, (i as u64) + 1);
        s_append(md, ". ");
        s_append_string(md, &rec.title);
        s_append(md, "\n\n");
        s_append(md, "**Priority:** ");
        s_append_string(md, &rec.priority);
        s_append(md, "\n");
        s_append(md, "**Effort:** ");
        s_append_string(md, &rec.effort);
        s_append(md, "\n");
        s_append(md, "**Impact:** ");
        s_append_string(md, &rec.impact);
        s_append(md, "\n\n");
        s_append_string(md, &rec.description);
        s_append(md, "\n\n");
        proof {
            assert(md@ =~= at_entry + spec_md_rec(rec_views[i as int], (i + 1) as nat));
        }
        i = i + 1;
        proof {
            assert(md@ + spec_md_rec_list(rec_views, i as int) =~= old(md)@ + spec_md_rec_list(
                rec_views,
                0,
            ));
        }
    }
    proof {
        assert(final(md)@ =~= old(md)@ + spec_md_rec_list(rec_views, 0));
    }
}

/// Appends the technical-details section.
fn push_md_tech(md: &mut String, t: &TechnicalDetails)
    ensures
        final(md)@ == old(md)@ + spec_md_tech(*t),
{
    s_append(md, "## Technical Details\n\n");
    s_append(md, "**Analysis Duration:** ");
    push_hundredths(md, t.analysis_duration);
    s_append(md, " seconds\n");
    s_append(md, "**Lines of Code:** ");
    push_dec_usize(md, t.analysis_metrics.lines_of_code);
    s_append(md, "\n");
    s_append(md, "**Functions Analyzed:** ");
    push_dec_usize(md, t.analysis_metrics.functions_analyzed);
    s_append(md, "\n");
    s_append(md, "**Complexity Score:** ");
    push_hundredths(md, t.analysis_metrics.complexity_score);
    s_append(md, "\n\n");
    proof {
        assert(final(md)@ =~= old(md)@ + spec_md_tech(*t));
    }
}

/// Appends the appendix blocks.
fn push_md_apps(md: &mut String, apps: &Vec<Appendix>)
    ensures
        final(md)@ == old(md)@ + spec_md_appendices(apps@, 0),
{
    let n = apps.len();
    let mut i: usize = 0;
    while i < n
        invariant
            n == apps.len(),
            i <= n,
            md@ + spec_md_appendices(apps@, i as int) == old(md)@ + spec_md_appendices(apps@, 0),
        decreases n - i,
    {
        let appendix = &apps[i];
        s_append(md, "### ");
        s_append_string(md, &appendix.title);
        s_append(md, "\n\n");
        s_append_string(md, &appendix.content);
        s_append(md, "\n\n");
        i = i + 1;
        proof {
            assert(md@ + spec_md_appendices(apps@, i as int) =~= old(md)@ + spec_md_appendices(
                apps@,
                0,
            ));
        }
    }
    proof {
        assert(final(md)@ =~= old(md)@ + spec_md_appendices(apps@, 0));
    }
}

impl ReportGenerator {
    /// Appends one severity group's markdown section: a header with icon and
    /// label, then each finding's block in input order; an empty group
    /// renders nothing.
    pub fn add_vulnerability_section(
        &self,
        markdown: &mut String,
        severity: &str,
        vulnerabilities: &Vec<Vulnerability>,
        icon: &str,
    )
        requires
            severity@.len() >= 1,
        ensures
            final(markdown)@ == old(markdown)@ + spec_md_section(
                severity@,
                icon@,
                spec_vuln_views(vulnerabilities@),
            ),
    {
        let ghost views = spec_vuln_views(vulnerabilities@);
        let n = vulnerabilities.len();
        if n == 0 {
            proof {
                assert(old(markdown)@ + spec_md_section(severity@, icon@, views) =~= old(
                    markdown,
                )@);
            }
            return ;
        }
        s_append(markdown, "### ");
        s_append(markdown, icon);
        s_append(markdown, " ");
        s_append(markdown, severity);
        s_append(markdown, " Vulnerabilities\n\n");
        let ghost after_header = markdown@;
        let mut i: usize = 0;
        while i < n
            invariant
                n == vulnerabilities.len(),
                views == spec_vuln_views(vulnerabilities@),
                i <= n,
                severity@.len() >= 1,
                markdown@ + spec_md_vuln_list(views, severity@, i as int) == after_header
                    + spec_md_vuln_list(views, severity@, 0),
            decreases n - i,
        {
            push_md_vuln(markdown, &vulnerabilities[i], severity, (i as u64) + 1);
            i = i + 1;
            proof {
                assert(markdown@ + spec_md_vuln_list(views, severity@, i as int) =~= after_header
                    + spec_md_vuln_list(views, severity@, 0));
            }
        }
        proof {
            assert(final(markdown)@ =~= old(markdown)@ + spec_md_section(severity@, icon@, views));
        }
    }

    /// The canonical markdown rendering of an assembled report.
    pub fn render_markdown(&self, report: &ComprehensiveReport) -> (r: String)
        ensures
            r@ == spec_markdown(*report),
    {
        let ghost views = spec_vuln_views(report.vulnerability_analysis.vulnerabilities@);
        let mut markdown = String::new();

        push_md_header(&mut markdown, &report.metadata);
        push_md_summary(&mut markdown, &report.executive_summary);
        let ghost after_summary = markdown@;

        s_append(&mut markdown, "## Vulnerability Analysis\n\n");
        let critical = filter_by_severity(
            &report.vulnerability_analysis.vulnerabilities,
            "Critical",
        );
        let high = filter_by_severity(&report.vulnerability_analysis.vulnerabilities, "High");
        let medium = filter_by_severity(&report.vulnerability_analysis.vulnerabilities, "Medium");
        let low = filter_by_severity(&report.vulnerability_analysis.vulnerabilities, "Low");
        let info = filter_informational(&report.vulnerability_analysis.vulnerabilities);
        proof {
            reveal_strlit("Critical");
            reveal_strlit("High");
            reveal_strlit("Medium");
            reveal_strlit("Low");
            reveal_strlit("Informational");
        }
        self.add_vulnerability_section(&mut markdown, "Critical", &critical, "\u{1f534}");
        self.add_vulnerability_section(&mut markdown, "High", &high, "\u{1f7e0}");
        self.add_vulnerability_section(&mut markdown, "Medium", &medium, "\u{1f7e1}");
        self.add_vulnerability_section(&mut markdown, "Low", &low, "\u{1f7e2}");
        self.add_vulnerability_section(&mut markdown, "Informational", &info, "\u{1f535}");
        proof {
            assert(markdown@ =~= after_summary + "## Vulnerability Analysis\n\n"@
                + spec_md_section(
                "Critical"@,
                "\u{1f534}"@,
                spec_filter_sev(views, "Critical"@, 0),
            ) + spec_md_section("High"@, "\u{1f7e0}"@, spec_filter_sev(views, "High"@, 0))
                + spec_md_section("Medium"@, "\u{1f7e1}"@, spec_filter_sev(views, "Medium"@, 0))
                + spec_md_section("Low"@, "\u{1f7e2}"@, spec_filter_sev(views, "Low"@, 0))
                + spec_md_section("Informational"@, "\u{1f535}"@, spec_filter_info(views, 0)));
        }
        let ghost after_sections = markdown@;

        s_append(&mut markdown, "## Recommendations\n\n");
        push_md_recs(&mut markdown, &report.recommendations);
        let ghost after_recs = markdown@;

        push_md_tech(&mut markdown, &report.technical_details);
        let ghost after_tech = markdown@;

        if report.appendices.len() > 0 {
            s_append(&mut markdown, "## Appendices\n\n");
            push_md_apps(&mut markdown, &report.appendices);
        }

        proof {
            reveal(spec_markdown);
            assert(after_recs =~= after_sections + "## Recommendations\n\n"@ + spec_md_rec_list(
                spec_rec_views(report.recommendations@),
                0,
            ));
            if report.appendices@.len() > 0 {
                assert(markdown@ =~= after_tech + "## Appendices\n\n"@ + spec_md_appendices(
                    report.appendices@,
                    0,
                ));
            }
            assert(markdown@ =~= spec_markdown(*report));
        }
        markdown
    }
}

} // verus!
