//! The machine-readable rendering of an assembled report: a lossless JSON
//! serialization of every field of the document, with the top-level sections
//! on their own lines.
use crate::assemble::{Appendix, ComprehensiveReport, ReportMetadata, TechnicalDetails};
use crate::counts::CountMap;
use crate::finding::{spec_category_label, spec_vuln_views, VulnView, Vulnerability};
use crate::recommend::{spec_rec_views, RecView, Recommendation};
use crate::summary::ExecutiveSummary;
use crate::text::{push_dec_u64, push_dec_usize, s_append, spec_dec, spec_views};
use vstd::prelude::*;

verus! {

/// The JSON escape of one character: backslash, quote, newline, carriage
/// return and tab are escaped, everything else passes through.
pub open spec fn spec_json_esc_char(c: char) -> Seq<char> {
    if c == '\\' {
        "\\\\"@
    } else if c == '"' {
        "\\\""@
    } else if c == '\n' {
        "\\n"@
    } else if c == '\r' {
        "\\r"@
    } else if c == '\t' {
        "\\t"@
    } else {
        seq![c]
    }
}

/// The JSON escape of the characters of `s` from index `i` on.
pub open spec fn spec_json_escape_from(s: Seq<char>, i: int) -> Seq<char>
    decreases s.len() - i,
{
    if i < 0 || i >= s.len() {
        Seq::empty()
    } else {
        spec_json_esc_char(s[i]) + spec_json_escape_from(s, i + 1)
    }
}

/// The JSON escape of a string's characters.
pub open spec fn spec_json_escape(s: Seq<char>) -> Seq<char> {
    spec_json_escape_from(s, 0)
}

/// The inverse reading of the JSON escape: a backslash and its follower
/// decode to one character, every other character passes through.
pub open spec fn spec_json_unescape(s: Seq<char>) -> Seq<char>
    decreases s.len(),
{
    if s.len() == 0 {
        Seq::empty()
    } else if s[0] == '\\' && s.len() >= 2 {
        let c = s[1];
        let decoded = if c == 'n' {
            '\n'
        } else if c == 'r' {
            '\r'
        } else if c == 't' {
            '\t'
        } else {
            c
        };
        seq![decoded] + spec_json_unescape(s.subrange(2, s.len() as int))
    } else {
        seq![s[0]] + spec_json_unescape(s.drop_first())
    }
}

/// Unescaping inverts escaping on any suffix: the machine-readable rendering
/// loses nothing of a string's characters.
pub proof fn lemma_json_unescape_from(s: Seq<char>, i: int)
    requires
        0 <= i <= s.len(),
    ensures
        spec_json_unescape(spec_json_escape_from(s, i)) == s.subrange(i, s.len() as int),
    decreases s.len() - i,
{
    if i == s.len() {
        assert(spec_json_unescape(spec_json_escape_from(s, i)) =~= s.subrange(
            i,
            s.len() as int,
        ));
    } else {
        lemma_json_unescape_from(s, i + 1);
        reveal_strlit("\\\\");
        reveal_strlit("\\\"");
        reveal_strlit("\\n");
        reveal_strlit("\\r");
        reveal_strlit("\\t");
        let e = spec_json_esc_char(s[i]);
        let rest = spec_json_escape_from(s, i + 1);
        let whole = spec_json_escape_from(s, i);
        assert(whole == e + rest);
        let c = s[i];
        if c == '\\' || c == '"' || c == '\n' || c == '\r' || c == '\t' {
            assert(e.len() == 2);
            assert(whole[0] == '\\');
            assert(whole[1] == e[1]);
            assert(whole.subrange(2, whole.len() as int) =~= rest);
            assert(spec_json_unescape(whole) =~= s.subrange(i, s.len() as int));
        } else {
            assert(e =~= seq![c]);
            assert(whole[0] == c);
            assert(c != '\\');
            assert(whole.drop_first() =~= rest);
            assert(spec_json_unescape(whole) =~= s.subrange(i, s.len() as int));
        }
    }
}

/// The JSON escape of any character sequence decodes back to that sequence.
pub proof fn lemma_json_escape_round_trip(s: Seq<char>)
    ensures
        spec_json_unescape(spec_json_escape(s)) == s,
{
    lemma_json_unescape_from(s, 0);
    assert(s.subrange(0, s.len() as int) =~= s);
}

/// A JSON string literal: the escaped characters between double quotes.
pub open spec fn spec_json_str(s: Seq<char>) -> Seq<char> {
    "\""@ + spec_json_escape(s) + "\""@
}

/// The continuation of a JSON string array after its first element.
pub open spec fn spec_json_strs_rest(items: Seq<Seq<char>>, i: int) -> Seq<char>
    decreases items.len() - i,
{
    if i < 0 || i >= items.len() {
        Seq::empty()
    } else {
        ", "@ + spec_json_str(items[i]) + spec_json_strs_rest(items, i + 1)
    }
}

/// A JSON array of string literals.
pub open spec fn spec_json_strs(items: Seq<Seq<char>>) -> Seq<char> {
    if items.len() == 0 {
        "[]"@
    } else {
        "["@ + spec_json_str(items[0]) + spec_json_strs_rest(items, 1) + "]"@
    }
}

/// An optional string: a JSON string literal or `null`.
pub open spec fn spec_json_opt_str(o: Option<Seq<char>>) -> Seq<char> {
    match o {
        Some(s) => spec_json_str(s),
        None => "null"@,
    }
}

/// An optional number: a decimal or `null`.
pub open spec fn spec_json_opt_num(o: Option<u64>) -> Seq<char> {
    match o {
        Some(n) => spec_dec(n as nat),
        None => "null"@,
    }
}

/// The continuation of a count-map object after its first entry.
pub open spec fn spec_json_cm_rest(m: Seq<(Seq<char>, nat)>, i: int) -> Seq<char>
    decreases m.len() - i,
{
    if i < 0 || i >= m.len() {
        Seq::empty()
    } else {
        ", "@ + spec_json_str(m[i].0) + ": "@ + spec_dec(m[i].1) + spec_json_cm_rest(m, i + 1)
    }
}

/// A count map as a JSON object of key/count members in entry order.
pub open spec fn spec_json_countmap(m: Seq<(Seq<char>, nat)>) -> Seq<char> {
    if m.len() == 0 {
        "{}"@
    } else {
        "{"@ + spec_json_str(m[0].0) + ": "@ + spec_dec(m[0].1) + spec_json_cm_rest(m, 1) + "}"@
    }
}

/// The identifying fields of one finding's JSON object.
pub open spec fn spec_json_vuln_head(v: VulnView) -> Seq<char> {
    "{\"id\": "@ + spec_json_str(v.id) + ", \"title\": "@ + spec_json_str(v.title)
        + ", \"description\": "@ + spec_json_str(v.description) + ", \"category\": "@
        + spec_json_str(spec_category_label(v.category)) + ", \"severity\": "@ + spec_json_str(
        v.severity,
    ) + ", \"confidence\": "@ + spec_dec(v.confidence as nat)
}

/// The provenance and optional fields of one finding's JSON object.
pub open spec fn spec_json_vuln_tail(v: VulnView) -> Seq<char> {
    ", \"tool\": "@ + spec_json_str(v.tool) + ", \"file_path\": "@ + spec_json_str(v.file_path)
        + ", \"line_number\": "@ + spec_json_opt_num(v.line_number) + ", \"code_snippet\": "@
        + spec_json_opt_str(v.code_snippet) + ", \"recommendation\": "@ + spec_json_opt_str(
        v.recommendation,
    ) + ", \"references\": "@ + spec_json_strs(v.references) + "}"@
}

/// One finding as a JSON object.
pub open spec fn spec_json_vuln(v: VulnView) -> Seq<char> {
    spec_json_vuln_head(v) + spec_json_vuln_tail(v)
}

/// The continuation of the findings array after its first element.
pub open spec fn spec_json_vulns_rest(vs: Seq<VulnView>, i: int) -> Seq<char>
    decreases vs.len() - i,
{
    if i < 0 || i >= vs.len() {
        Seq::empty()
    } else {
        ", "@ + spec_json_vuln(vs[i]) + spec_json_vulns_rest(vs, i + 1)
    }
}

/// The findings as a JSON array.
pub open spec fn spec_json_vulns(vs: Seq<VulnView>) -> Seq<char> {
    if vs.len() == 0 {
        "[]"@
    } else {
        "["@ + spec_json_vuln(vs[0]) + spec_json_vulns_rest(vs, 1) + "]"@
    }
}

/// One recommendation as a JSON object.
pub open spec fn spec_json_rec(r: RecView) -> Seq<char> {
    "{\"id\": "@ + spec_json_str(r.id) + ", \"title\": "@ + spec_json_str(r.title)
        + ", \"description\": "@ + spec_json_str(r.description) + ", \"priority\": "@
        + spec_json_str(r.priority) + ", \"effort\": "@ + spec_json_str(r.effort)
        + ", \"impact\": "@ + spec_json_str(r.impact) + ", \"related_vulnerabilities\": "@
        + spec_json_strs(r.related_vulnerabilities) + "}"@
}

/// The continuation of the recommendations array after its first element.
pub open spec fn spec_json_recs_rest(rs: Seq<RecView>, i: int) -> Seq<char>
    decreases rs.len() - i,
{
    if i < 0 || i >= rs.len() {
        Seq::empty()
    } else {
        ", "@ + spec_json_rec(rs[i]) + spec_json_recs_rest(rs, i + 1)
    }
}

/// The recommendations as a JSON array.
pub open spec fn spec_json_recs(rs: Seq<RecView>) -> Seq<char> {
    if rs.len() == 0 {
        "[]"@
    } else {
        "["@ + spec_json_rec(rs[0]) + spec_json_recs_rest(rs, 1) + "]"@
    }
}

/// The report metadata as a JSON object.
pub open spec fn spec_json_metadata(m: ReportMetadata) -> Seq<char> {
    "{\"report_id\": "@ + spec_json_str(m.report_id@) + ", \"generated_at\": "@ + spec_json_str(
        m.generated_at@,
    ) + ", \"version\": "@ + spec_json_str(m.version@) + ", \"contract_name\": "@ + spec_json_str(
        m.contract_name@,
    ) + ", \"analysis_tools\": "@ + spec_json_strs(spec_views(m.analysis_tools@))
        + ", \"report_type\": "@ + spec_json_str(m.report_type@) + "}"@
}

/// The counted fields of the executive summary's JSON object.
pub open spec fn spec_json_summary_head(es: ExecutiveSummary) -> Seq<char> {
    "{\"overall_risk_level\": "@ + spec_json_str(es.overall_risk_level@)
        + ", \"total_vulnerabilities\": "@ + spec_dec(es.total_vulnerabilities as nat)
        + ", \"critical_findings\": "@ + spec_dec(es.critical_findings as nat)
        + ", \"high_risk_findings\": "@ + spec_dec(es.high_risk_findings as nat)
        + ", \"medium_risk_findings\": "@ + spec_dec(es.medium_risk_findings as nat)
        + ", \"low_risk_findings\": "@ + spec_dec(es.low_risk_findings as nat)
}

/// The executive summary as a JSON object.
pub open spec fn spec_json_summary(es: ExecutiveSummary) -> Seq<char> {
    spec_json_summary_head(es) + ", \"security_score\": "@ + spec_dec(es.security_score as nat)
        + ", \"key_findings\": "@ + spec_json_strs(spec_views(es.key_findings@))
        + ", \"recommendations_summary\": "@ + spec_json_strs(
        spec_views(es.recommendations_summary@),
    ) + "}"@
}

/// The continuation of a string-to-string object after its first entry.
pub open spec fn spec_json_pairs_rest(ps: Seq<(String, String)>, i: int) -> Seq<char>
    decreases ps.len() - i,
{
    if i < 0 || i >= ps.len() {
        Seq::empty()
    } else {
        ", "@ + spec_json_str(ps[i].0@) + ": "@ + spec_json_str(ps[i].1@) + spec_json_pairs_rest(
            ps,
            i + 1,
        )
    }
}

/// A string-to-string mapping as a JSON object in entry order.
pub open spec fn spec_json_pairs(ps: Seq<(String, String)>) -> Seq<char> {
    if ps.len() == 0 {
        "{}"@
    } else {
        "{"@ + spec_json_str(ps[0].0@) + ": "@ + spec_json_str(ps[0].1@) + spec_json_pairs_rest(
            ps,
            1,
        ) + "}"@
    }
}

/// The technical details as a JSON object.
pub open spec fn spec_json_tech(t: TechnicalDetails) -> Seq<char> {
    "{\"analysis_metrics\": {\"lines_of_code\": "@ + spec_dec(
        t.analysis_metrics.lines_of_code as nat,
    ) + ", \"functions_analyzed\": "@ + spec_dec(t.analysis_metrics.functions_analyzed as nat)
        + ", \"complexity_score\": "@ + spec_dec(t.analysis_metrics.complexity_score as nat)
        + ", \"security_score\": "@ + spec_dec(t.analysis_metrics.security_score as nat)
        + "}, \"coverage_report\": {\"lines_analyzed\": "@ + spec_dec(
        t.coverage_report.lines_analyzed as nat,
    ) + ", \"functions_analyzed\": "@ + spec_dec(t.coverage_report.functions_analyzed as nat)
        + ", \"coverage_percentage\": "@ + spec_dec(t.coverage_report.coverage_percentage as nat)
        + ", \"uncovered_areas\": "@ + spec_json_strs(spec_views(t.coverage_report.uncovered_areas@))
        + "}, \"tool_configurations\": "@ + spec_json_pairs(t.tool_configurations@)
        + ", \"analysis_duration\": "@ + spec_dec(t.analysis_duration as nat) + "}"@
}

/// One appendix as a JSON object.
pub open spec fn spec_json_appendix(a: Appendix) -> Seq<char> {
    "{\"title\": "@ + spec_json_str(a.title@) + ", \"content\": "@ + spec_json_str(a.content@)
        + ", \"appendix_type\": "@ + spec_json_str(a.appendix_type@) + "}"@
}

/// The continuation of the appendices array after its first element.
pub open spec fn spec_json_apps_rest(apps: Seq<Appendix>, i: int) -> Seq<char>
    decreases apps.len() - i,
{
    if i < 0 || i >= apps.len() {
        Seq::empty()
    } else {
        ", "@ + spec_json_appendix(apps[i]) + spec_json_apps_rest(apps, i + 1)
    }
}

/// The appendices as a JSON array.
pub open spec fn spec_json_apps(apps: Seq<Appendix>) -> Seq<char> {
    if apps.len() == 0 {
        "[]"@
    } else {
        "["@ + spec_json_appendix(apps[0]) + spec_json_apps_rest(apps, 1) + "]"@
    }
}

/// The vulnerability analysis as a JSON object.
pub open spec fn spec_json_analysis(a: crate::analysis::VulnerabilityAnalysis) -> Seq<char> {
    "{\"vulnerabilities\": "@ + spec_json_vulns(spec_vuln_views(a.vulnerabilities@))
        + ", \"category_breakdown\": "@ + spec_json_countmap(a.category_breakdown@)
        + ", \"severity_distribution\": "@ + spec_json_countmap(a.severity_distribution@)
        + ", \"tool_findings\": "@ + spec_json_countmap(a.tool_findings@) + "}"@
}

/// The whole report document as one JSON object, one top-level section per
/// line.
#[verifier::opaque]
pub open spec fn spec_json_report(report: ComprehensiveReport) -> Seq<char> {
    "{\n  \"metadata\": "@ + spec_json_metadata(report.metadata)
        + ",\n  \"executive_summary\": "@ + spec_json_summary(report.executive_summary)
        + ",\n  \"vulnerability_analysis\": "@ + spec_json_analysis(report.vulnerability_analysis)
        + ",\n  \"recommendations\": "@ + spec_json_recs(spec_rec_views(report.recommendations@))
        + ",\n  \"technical_details\": "@ + spec_json_tech(report.technical_details)
        + ",\n  \"appendices\": "@ + spec_json_apps(report.appendices@) + "\n}"@
}

/// Appends the JSON escape of the characters of `s`.
fn push_json_escaped(out: &mut String, s: &str)
    ensures
        final(out)@ == old(out)@ + spec_json_escape(s@),
{
    let n = s.unicode_len();
    let mut i: usize = 0;
    while i < n
        invariant
            n == s@.len(),
            i <= n,
            out@ + spec_json_escape_from(s@, i as int) == old(out)@ + spec_json_escape_from(s@, 0),
        decreases n - i,
    {
        let c = s.get_char(i);
        if c == '\\' {
            s_append(out, "\\\\");
        } else if c == '"' {
            s_append(out, "\\\"");
        } else if c == '\n' {
            s_append(out, "\\n");
        } else if c == '\r' {
            s_append(out, "\\r");
        } else if c == '\t' {
            s_append(out, "\\t");
        } else {
            let piece = s.substring_char(i, i + 1);
            s_append(out, piece);
            proof {
                assert(piece@ =~= seq![s@[i as int]]);
            }
        }
        i = i + 1;
        proof {
            assert(out@ + spec_json_escape_from(s@, i as int) =~= old(out)@
                + spec_json_escape_from(s@, 0));
        }
    }
    proof {
        assert(final(out)@ =~= old(out)@ + spec_json_escape(s@));
    }
}

/// Appends a JSON string literal.
fn push_json_str(out: &mut String, s: &str)
    ensures
        final(out)@ == old(out)@ + spec_json_str(s@),
{
    s_append(out, "\"");
    push_json_escaped(out, s);
    s_append(out, "\"");
    proof {
        assert(final(out)@ =~= old(out)@ + spec_json_str(s@));
    }
}

/// Appends a JSON array of string literals.
fn push_json_strs(out: &mut String, items: &Vec<String>)
    ensures
        final(out)@ == old(out)@ + spec_json_strs(spec_views(items@)),
{
    let n = items.len();
    if n == 0 {
        s_append(out, "[]");
        proof {
            assert(final(out)@ =~= old(out)@ + spec_json_strs(spec_views(items@)));
        }
        return ;
    }
    s_append(out, "[");
    push_json_str(out, items[0].as_str());
    let mut i: usize = 1;
    while i < n
        invariant
            n == items.len(),
            n >= 1,
            1 <= i <= n,
            out@ + spec_json_strs_rest(spec_views(items@), i as int) == old(out)@ + "["@
                + spec_json_str(spec_views(items@)[0]) + spec_json_strs_rest(spec_views(items@), 1),
        decreases n - i,
    {
        s_append(out, ", ");
        push_json_str(out, items[i].as_str());
        i = i + 1;
        proof {
            assert(out@ + spec_json_strs_rest(spec_views(items@), i as int) =~= old(out)@ + "["@
                + spec_json_str(spec_views(items@)[0]) + spec_json_strs_rest(
                spec_views(items@),
                1,
            ));
        }
    }
    s_append(out, "]");
    proof {
        assert(final(out)@ =~= old(out)@ + spec_json_strs(spec_views(items@)));
    }
}

/// Appends an optional number as a decimal or `null`.
fn push_json_opt_num(out: &mut String, o: &Option<u64>)
    ensures
        final(out)@ == old(out)@ + spec_json_opt_num(*o),
{
    match o {
        Some(n) => {
            push_dec_u64(out, *n);
        },
        None => {
            s_append(out, "null");
        },
    }
}

/// Appends an optional string as a JSON literal or `null`.
fn push_json_opt_str(out: &mut String, o: &Option<String>)
    ensures
        final(out)@ == old(out)@ + spec_json_opt_str(
            match *o {
                Some(s) => Some(s@),
                None => None,
            },
        ),
{
    match o {
        Some(s) => {
            push_json_str(out, s.as_str());
        },
        None => {
            s_append(out, "null");
        },
    }
}

/// Appends a count map as a JSON object in entry order.
fn push_json_countmap(out: &mut String, m: &CountMap)
    ensures
        final(out)@ == old(out)@ + spec_json_countmap(m@),
{
    let n = m.len();
    if n == 0 {
        s_append(out, "{}");
        proof {
            assert(final(out)@ =~= old(out)@ + spec_json_countmap(m@));
        }
        return ;
    }
    s_append(out, "{");
    push_json_str(out, m.key_at(0).as_str());
    s_append(out, ": ");
    push_dec_usize(out, m.count_at(0));
    let mut i: usize = 1;
    while i < n
        invariant
            n == m@.len(),
            n >= 1,
            1 <= i <= n,
            out@ + spec_json_cm_rest(m@, i as int) == old(out)@ + "{"@ + spec_json_str(m@[0].0)
                + ": "@ + spec_dec(m@[0].1) + spec_json_cm_rest(m@, 1),
        decreases n - i,
    {
        s_append(out, ", ");
        push_json_str(out, m.key_at(i).as_str());
        s_append(out, ": ");
        push_dec_usize(out, m.count_at(i));
        i = i + 1;
        proof {
            assert(out@ + spec_json_cm_rest(m@, i as int) =~= old(out)@ + "{"@ + spec_json_str(
                m@[0].0,
            ) + ": "@ + spec_dec(m@[0].1) + spec_json_cm_rest(m@, 1));
        }
    }
    s_append(out, "}");
    proof {
        assert(final(out)@ =~= old(out)@ + spec_json_countmap(m@));
    }
}

/// Appends a string-to-string mapping as a JSON object in entry order.
fn push_json_pairs(out: &mut String, ps: &Vec<(String, String)>)
    ensures
        final(out)@ == old(out)@ + spec_json_pairs(ps@),
{
    let n = ps.len();
    if n == 0 {
        s_append(out, "{}");
        proof {
            assert(final(out)@ =~= old(out)@ + spec_json_pairs(ps@));
        }
        return ;
    }
    s_append(out, "{");
    push_json_str(out, ps[0].0.as_str());
    s_append(out, ": ");
    push_json_str(out, ps[0].1.as_str());
    let mut i: usize = 1;
    while i < n
        invariant
            n == ps@.len(),
            n >= 1,
            1 <= i <= n,
            out@ + spec_json_pairs_rest(ps@, i as int) == old(out)@ + "{"@ + spec_json_str(
                ps@[0].0@,
            ) + ": "@ + spec_json_str(ps@[0].1@) + spec_json_pairs_rest(ps@, 1),
        decreases n - i,
    {
        s_append(out, ", ");
        push_json_str(out, ps[i].0.as_str());
        s_append(out, ": ");
        push_json_str(out, ps[i].1.as_str());
        i = i + 1;
        proof {
            assert(out@ + spec_json_pairs_rest(ps@, i as int) =~= old(out)@ + "{"@ + spec_json_str(
                ps@[0].0@,
            ) + ": "@ + spec_json_str(ps@[0].1@) + spec_json_pairs_rest(ps@, 1));
        }
    }
    s_append(out, "}");
    proof {
        assert(final(out)@ =~= old(out)@ + spec_json_pairs(ps@));
    }
}

/// Appends the identifying fields of one finding's JSON object.
fn push_json_vuln_head(out: &mut String, v: &Vulnerability)
    ensures
        final(out)@ == old(out)@ + spec_json_vuln_head(v@),
{
    s_append(out, "{\"id\": ");
    push_json_str(out, v.id.as_str());
    s_append(out, ", \"title\": ");
    push_json_str(out, v.title.as_str());
    s_append(out, ", \"description\": ");
    push_json_str(out, v.description.as_str());
    s_append(out, ", \"category\": ");
    push_json_str(out, v.category.label());
    s_append(out, ", \"severity\": ");
    push_json_str(out, v.severity.as_str());
    s_append(out, ", \"confidence\": ");
    push_dec_u64(out, v.confidence);
    proof {
        assert(final(out)@ =~= old(out)@ + spec_json_vuln_head(v@));
    }
}

/// Appends the provenance and optional fields of one finding's JSON object.
fn push_json_vuln_tail(out: &mut String, v: &Vulnerability)
    ensures
        final(out)@ == old(out)@ + spec_json_vuln_tail(v@),
{
    s_append(out, ", \"tool\": ");
    push_json_str(out, v.tool.as_str());
    s_append(out, ", \"file_path\": ");
    push_json_str(out, v.file_path.as_str());
    s_append(out, ", \"line_number\": ");
    push_json_opt_num(out, &v.line_number);
    s_append(out, ", \"code_snippet\": ");
    push_json_opt_str(out, &v.code_snippet);
    s_append(out, ", \"recommendation\": ");
    push_json_opt_str(out, &v.recommendation);
    s_append(out, ", \"references\": ");
    push_json_strs(out, &v.references);
    s_append(out, "}");
    proof {
        assert(final(out)@ =~= old(out)@ + spec_json_vuln_tail(v@));
    }
}

/// Appends one finding as a JSON object.
fn push_json_vuln(out: &mut String, v: &Vulnerability)
    ensures
        final(out)@ == old(out)@ + spec_json_vuln(v@),
{
    push_json_vuln_head(out, v);
    push_json_vuln_tail(out, v);
    proof {
        assert(final(out)@ =~= old(out)@ + spec_json_vuln(v@));
    }
}

/// Appends the findings as a JSON array.
fn push_json_vulns(out: &mut String, vs: &Vec<Vulnerability>)
    ensures
        final(out)@ == old(out)@ + spec_json_vulns(spec_vuln_views(vs@)),
{
    let ghost views = spec_vuln_views(vs@);
    let n = vs.len();
    if n == 0 {
        s_append(out, "[]");
        proof {
            assert(final(out)@ =~= old(out)@ + spec_json_vulns(views));
        }
        return ;
    }
    s_append(out, "[");
    push_json_vuln(out, &vs[0]);
    let mut i: usize = 1;
    while i < n
        invariant
            n == vs.len(),
            views == spec_vuln_views(vs@),
            n >= 1,
            1 <= i <= n,
            out@ + spec_json_vulns_rest(views, i as int) == old(out)@ + "["@ + spec_json_vuln(
                views[0],
            ) + spec_json_vulns_rest(views, 1),
        decreases n - i,
    {
        let ghost at_entry = out@;
        s_append(out, ", ");
        push_json_vuln(out, &vs[i]);
        proof {
            assert(out@ =~= at_entry + ", "@ + spec_json_vuln(views[i as int]));
        }
        i = i + 1;
        proof {
            assert(out@ + spec_json_vulns_rest(views, i as int) =~= old(out)@ + "["@
                + spec_json_vuln(views[0]) + spec_json_vulns_rest(views, 1));
        }
    }
    s_append(out, "]");
    proof {
        assert(final(out)@ =~= old(out)@ + spec_json_vulns(views));
    }
}

/// Appends one recommendation as a JSON object.
fn push_json_rec(out: &mut String, r: &Recommendation)
    ensures
        final(out)@ == old(out)@ + spec_json_rec(r@),
{
    s_append(out, "{\"id\": ");
    push_json_str(out, r.id.as_str());
    s_append(out, ", \"title\": ");
    push_json_str(out, r.title.as_str());
    s_append(out, ", \"description\": ");
    push_json_str(out, r.description.as_str());
    s_append(out, ", \"priority\": ");
    push_json_str(out, r.priority.as_str());
    s_append(out, ", \"effort\": ");
    push_json_str(out, r.effort.as_str());
    s_append(out, ", \"impact\": ");
    push_json_str(out, r.impact.as_str());
    s_append(out, ", \"related_vulnerabilities\": ");
    push_json_strs(out, &r.related_vulnerabilities);
    s_append(out, "}");
    proof {
        assert(final(out)@ =~= old(out)@ + spec_json_rec(r@));
    }
}

/// Appends the recommendations as a JSON array.
fn push_json_recs(out: &mut String, rs: &Vec<Recommendation>)
    ensures
        final(out)@ == old(out)@ + spec_json_recs(spec_rec_views(rs@)),
{
    let ghost views = spec_rec_views(rs@);
    let n = rs.len();
    if n == 0 {
        s_append(out, "[]");
        proof {
            assert(final(out)@ =~= old(out)@ + spec_json_recs(views));
        }
        return ;
    }
    s_append(out, "[");
    push_json_rec(out, &rs[0]);
    let mut i: usize = 1;
    while i < n
        invariant
            n == rs.len(),
            views == spec_rec_views(rs@),
            n >= 1,
            1 <= i <= n,
            out@ + spec_json_recs_rest(views, i as int) == old(out)@ + "["@ + spec_json_rec(
                views[0],
            ) + spec_json_recs_rest(views, 1),
        decreases n - i,
    {
        s_append(out, ", ");
        push_json_rec(out, &rs[i]);
        i = i + 1;
        proof {
            assert(out@ + spec_json_recs_rest(views, i as int) =~= old(out)@ + "["@
                + spec_json_rec(views[0]) + spec_json_recs_rest(views, 1));
        }
    }
    s_append(out, "]");
    proof {
        assert(final(out)@ =~= old(out)@ + spec_json_recs(views));
    }
}

/// Appends the report metadata as a JSON object.
fn push_json_metadata(out: &mut String, m: &ReportMetadata)
    ensures
        final(out)@ == old(out)@ + spec_json_metadata(*m),
{
    s_append(out, "{\"report_id\": ");
    push_json_str(out, m.report_id.as_str());
    s_append(out, ", \"generated_at\": ");
    push_json_str(out, m.generated_at.as_str());
    s_append(out, ", \"version\": ");
    push_json_str(out, m.version.as_str());
    s_append(out, ", \"contract_name\": ");
    push_json_str(out, m.contract_name.as_str());
    s_append(out, ", \"analysis_tools\": ");
    push_json_strs(out, &m.analysis_tools);
    s_append(out, ", \"report_type\": ");
    push_json_str(out, m.report_type.as_str());
    s_append(out, "}");
    proof {
        assert(final(out)@ =~= old(out)@ + spec_json_metadata(*m));
    }
}

/// Appends the executive summary as a JSON object.
fn push_json_summary(out: &mut String, es: &ExecutiveSummary)
    ensures
        final(out)@ == old(out)@ + spec_json_summary(*es),
{
    s_append(out, "{\"overall_risk_level\": ");
    push_json_str(out, es.overall_risk_level.as_str());
    s_append(out, ", \"total_vulnerabilities\": ");
    push_dec_usize(out, es.total_vulnerabilities);
    s_append(out, ", \"critical_findings\": ");
    push_dec_usize(out, es.critical_findings);
    s_append(out, ", \"high_risk_findings\": ");
    push_dec_usize(out, es.high_risk_findings);
    s_append(out, ", \"medium_risk_findings\": ");
    push_dec_usize(out, es.medium_risk_findings);
    s_append(out, ", \"low_risk_findings\": ");
    push_dec_usize(out, es.low_risk_findings);
    proof {
        assert(out@ =~= old(out)@ + spec_json_summary_head(*es));
    }
    let ghost after_head = out@;
    s_append(out, ", \"security_score\": ");
    push_dec_u64(out, es.security_score);
    s_append(out, ", \"key_findings\": ");
    push_json_strs(out, &es.key_findings);
    s_append(out, ", \"recommendations_summary\": ");
    push_json_strs(out, &es.recommendations_summary);
    s_append(out, "}");
    proof {
        assert(final(out)@ =~= old(out)@ + spec_json_summary(*es));
    }
}

/// Appends the technical details as a JSON object.
fn push_json_tech(out: &mut String, t: &TechnicalDetails)
    ensures
        final(out)@ == old(out)@ + spec_json_tech(*t),
{
    s_append(out, "{\"analysis_metrics\": {\"lines_of_code\": ");
    push_dec_usize(out, t.analysis_metrics.lines_of_code);
    s_append(out, ", \"functions_analyzed\": ");
    push_dec_usize(out, t.analysis_metrics.functions_analyzed);
    s_append(out, ", \"complexity_score\": ");
    push_dec_u64(out, t.analysis_metrics.complexity_score);
    s_append(out, ", \"security_score\": ");
    push_dec_u64(out, t.analysis_metrics.security_score);
    s_append(out, "}, \"coverage_report\": {\"lines_analyzed\": ");
    push_dec_usize(out, t.coverage_report.lines_analyzed);
    s_append(out, ", \"functions_analyzed\": ");
    push_dec_usize(out, t.coverage_report.functions_analyzed);
    s_append(out, ", \"coverage_percentage\": ");
    push_dec_u64(out, t.coverage_report.coverage_percentage);
    s_append(out, ", \"uncovered_areas\": ");
    push_json_strs(out, &t.coverage_report.uncovered_areas);
    s_append(out, "}, \"tool_configurations\": ");
    push_json_pairs(out, &t.tool_configurations);
    s_append(out, ", \"analysis_duration\": ");
    push_dec_u64(out, t.analysis_duration);
    s_append(out, "}");
    proof {
        assert(final(out)@ =~= old(out)@ + spec_json_tech(*t));
    }
}

/// Appends the appendices as a JSON array.
fn push_json_apps(out: &mut String, apps: &Vec<Appendix>)
    ensures
        final(out)@ == old(out)@ + spec_json_apps(apps@),
{
    let n = apps.len();
    if n == 0 {
        s_append(out, "[]");
        proof {
            assert(final(out)@ =~= old(out)@ + spec_json_apps(apps@));
        }
        return ;
    }
    s_append(out, "[");
    push_json_app(out, &apps[0]);
    let mut i: usize = 1;
    while i < n
        invariant
            n == apps.len(),
            n >= 1,
            1 <= i <= n,
            out@ + spec_json_apps_rest(apps@, i as int) == old(out)@ + "["@ + spec_json_appendix(
                apps@[0],
            ) + spec_json_apps_rest(apps@, 1),
        decreases n - i,
    {
        s_append(out, ", ");
        push_json_app(out, &apps[i]);
        i = i + 1;
        proof {
            assert(out@ + spec_json_apps_rest(apps@, i as int) =~= old(out)@ + "["@
                + spec_json_appendix(apps@[0]) + spec_json_apps_rest(apps@, 1));
        }
    }
    s_append(out, "]");
    proof {
        assert(final(out)@ =~= old(out)@ + spec_json_apps(apps@));
    }
}

/// Appends one appendix as a JSON object.
fn push_json_app(out: &mut String, a: &Appendix)
    ensures
        final(out)@ == old(out)@ + spec_json_appendix(*a),
{
    s_append(out, "{\"title\": ");
    push_json_str(out, a.title.as_str());
    s_append(out, ", \"content\": ");
    push_json_str(out, a.content.as_str());
    s_append(out, ", \"appendix_type\": ");
    push_json_str(out, a.appendix_type.as_str());
    s_append(out, "}");
    proof {
        assert(final(out)@ =~= old(out)@ + spec_json_appendix(*a));
    }
}

/// Appends the vulnerability analysis as a JSON object.
#[verifier::rlimit(60)]
fn push_json_analysis(out: &mut String, a: &crate::analysis::VulnerabilityAnalysis)
    ensures
        final(out)@ == old(out)@ + spec_json_analysis(*a),
{
    s_append(out, "{\"vulnerabilities\": ");
    push_json_vulns(out, &a.vulnerabilities);
    s_append(out, ", \"category_breakdown\": ");
    push_json_countmap(out, &a.category_breakdown);
    s_append(out, ", \"severity_distribution\": ");
    push_json_countmap(out, &a.severity_distribution);
    s_append(out, ", \"tool_findings\": ");
    push_json_countmap(out, &a.tool_findings);
    s_append(out, "}");
    proof {
        assert(final(out)@ =~= old(out)@ + spec_json_analysis(*a));
    }
}

impl crate::ReportGenerator {
    /// The machine-readable JSON rendering of an assembled report.
    #[verifier::rlimit(100)]
    pub fn generate_json_report(&self, report: &ComprehensiveReport) -> (r: String)
        ensures
            r@ == spec_json_report(*report),
    {
        let mut out = String::new();
        s_append(&mut out, "{\n  \"metadata\": ");
        proof {
            assert(out@ =~= "{\n  \"metadata\": "@);
        }
        push_json_metadata(&mut out, &report.metadata);
        proof {
            assert(out@ == "{\n  \"metadata\": "@ + spec_json_metadata(report.metadata));
        }
        let ghost after_meta = out@;
        s_append(&mut out, ",\n  \"executive_summary\": ");
        push_json_summary(&mut out, &report.executive_summary);
        proof {
            assert(out@ == after_meta + ",\n  \"executive_summary\": "@ + spec_json_summary(
                report.executive_summary,
            ));
        }
        let ghost after_summary = out@;
        s_append(&mut out, ",\n  \"vulnerability_analysis\": ");
        push_json_analysis(&mut out, &report.vulnerability_analysis);
        proof {
            assert(out@ == after_summary + ",\n  \"vulnerability_analysis\": "@
                + spec_json_analysis(report.vulnerability_analysis));
        }
        let ghost after_analysis = out@;
        s_append(&mut out, ",\n  \"recommendations\": ");
        push_json_recs(&mut out, &report.recommendations);
        proof {
            assert(out@ == after_analysis + ",\n  \"recommendations\": "@ + spec_json_recs(
                spec_rec_views(report.recommendations@),
            ));
        }
        let ghost after_recs = out@;
        s_append(&mut out, ",\n  \"technical_details\": ");
        push_json_tech(&mut out, &report.technical_details);
        proof {
            assert(out@ == after_recs + ",\n  \"technical_details\": "@ + spec_json_tech(
                report.technical_details,
            ));
        }
        let ghost after_tech = out@;
        s_append(&mut out, ",\n  \"appendices\": ");
        push_json_apps(&mut out, &report.appendices);
        s_append(&mut out, "\n}");
        proof {
            reveal(spec_json_report);
            assert(out@ == after_tech + ",\n  \"appendices\": "@ + spec_json_apps(
                report.appendices@,
            ) + "\n}"@);
            assert(out@ == spec_json_report(*report));
        }
        out
    }
}

} // verus!
