//! The finding aggregator: tallies findings by category, severity and tool.
use crate::counts::{count_of, distinct_keys, lemma_count_absent, sum_counts, CountMap};
use crate::finding::{
    clone_vulnerabilities, spec_category_label, spec_vuln_views, VulnView, Vulnerability,
};
use crate::ReportGenerator;
use vstd::prelude::*;

verus! {

/// The findings together with their three derived count mappings.
pub struct VulnerabilityAnalysis {
    pub vulnerabilities: Vec<Vulnerability>,
    pub category_breakdown: CountMap,
    pub severity_distribution: CountMap,
    pub tool_findings: CountMap,
}

/// The severity label of each finding, in input order.
pub open spec fn spec_severity_keys(vs: Seq<VulnView>) -> Seq<Seq<char>> {
    vs.map_values(|v: VulnView| v.severity)
}

/// The category label of each finding, in input order.
pub open spec fn spec_category_keys(vs: Seq<VulnView>) -> Seq<Seq<char>> {
    vs.map_values(|v: VulnView| spec_category_label(v.category))
}

/// The tool name of each finding, in input order.
pub open spec fn spec_tool_keys(vs: Seq<VulnView>) -> Seq<Seq<char>> {
    vs.map_values(|v: VulnView| v.tool)
}

/// How many of the keys from index `i` on equal `k`.
pub open spec fn spec_count_from(keys: Seq<Seq<char>>, k: Seq<char>, i: int) -> nat
    decreases keys.len() - i,
{
    if i < 0 || i >= keys.len() {
        0
    } else {
        (if keys[i] == k {
            1 as nat
        } else {
            0 as nat
        }) + spec_count_from(keys, k, i + 1)
    }
}

/// How many of the keys equal `k`.
pub open spec fn spec_count_in(keys: Seq<Seq<char>>, k: Seq<char>) -> nat {
    spec_count_from(keys, k, 0)
}

/// A key's tally over a suffix is positive exactly when the key occurs in
/// that suffix.
pub proof fn lemma_count_from_pos(keys: Seq<Seq<char>>, k: Seq<char>, i: int)
    requires
        0 <= i <= keys.len(),
    ensures
        spec_count_from(keys, k, i) > 0 <==> exists|j: int| i <= j < keys.len() && keys[j] == k,
    decreases keys.len() - i,
{
    if i < keys.len() {
        lemma_count_from_pos(keys, k, i + 1);
        if keys[i] == k {
            assert(spec_count_from(keys, k, i) > 0);
        }
    }
}

/// A key's tally is positive exactly when the key occurs.
pub proof fn lemma_count_in_pos(keys: Seq<Seq<char>>, k: Seq<char>)
    ensures
        spec_count_in(keys, k) > 0 <==> exists|j: int| 0 <= j < keys.len() && keys[j] == k,
{
    lemma_count_from_pos(keys, k, 0);
}

/// The aggregation contract of one key family: the map has distinct keys,
/// its counts sum to the number of findings, and each key's count is the
/// number of findings carrying that key.
pub open spec fn spec_tallies(m: Seq<(Seq<char>, nat)>, keys: Seq<Seq<char>>) -> bool {
    &&& distinct_keys(m)
    &&& sum_counts(m) == keys.len()
    &&& forall|k: Seq<char>| count_of(m, k) == spec_count_in(keys, k)
}

impl ReportGenerator {
    /// Tallies the findings into the three count mappings. Each finding
    /// increments exactly one entry of each mapping, so each mapping's counts
    /// sum to the number of findings.
    pub fn create_vulnerability_analysis(&self, vulnerabilities: &Vec<Vulnerability>) -> (r:
        VulnerabilityAnalysis)
        ensures
            spec_vuln_views(r.vulnerabilities@) == spec_vuln_views(vulnerabilities@),
            spec_tallies(r.category_breakdown@, spec_category_keys(spec_vuln_views(vulnerabilities@))),
            spec_tallies(
                r.severity_distribution@,
                spec_severity_keys(spec_vuln_views(vulnerabilities@)),
            ),
            spec_tallies(r.tool_findings@, spec_tool_keys(spec_vuln_views(vulnerabilities@))),
    {
        let ghost views = spec_vuln_views(vulnerabilities@);
        let mut category_breakdown = CountMap::new();
        let mut severity_distribution = CountMap::new();
        let mut tool_findings = CountMap::new();
        let n = vulnerabilities.len();
        let mut i: usize = 0;
        proof {
            assert forall|k: Seq<char>| count_of(category_breakdown@, k) == 0 by {
                lemma_count_absent(category_breakdown@, k);
            }
            assert forall|k: Seq<char>| count_of(severity_distribution@, k) == 0 by {
                lemma_count_absent(severity_distribution@, k);
            }
            assert forall|k: Seq<char>| count_of(tool_findings@, k) == 0 by {
                lemma_count_absent(tool_findings@, k);
            }
        }
        while i < n
            invariant
                n == vulnerabilities.len(),
                i <= n,
                views == spec_vuln_views(vulnerabilities@),
                distinct_keys(category_breakdown@),
                distinct_keys(severity_distribution@),
                distinct_keys(tool_findings@),
                sum_counts(category_breakdown@) == i,
                sum_counts(severity_distribution@) == i,
                sum_counts(tool_findings@) == i,
                forall|k: Seq<char>|
                    count_of(category_breakdown@, k) + spec_count_from(
                        spec_category_keys(views),
                        k,
                        i as int,
                    ) == spec_count_in(spec_category_keys(views), k),
                forall|k: Seq<char>|
                    count_of(severity_distribution@, k) + spec_count_from(
                        spec_severity_keys(views),
                        k,
                        i as int,
                    ) == spec_count_in(spec_severity_keys(views), k),
                forall|k: Seq<char>|
                    count_of(tool_findings@, k) + spec_count_from(
                        spec_tool_keys(views),
                        k,
                        i as int,
                    ) == spec_count_in(spec_tool_keys(views), k),
            decreases n - i,
        {
            let v = &vulnerabilities[i];
            category_breakdown.bump(v.category.label());
            severity_distribution.bump(v.severity.as_str());
            tool_findings.bump(v.tool.as_str());
            proof {
                assert(spec_category_keys(views)[i as int] == spec_category_label(v@.category));
                assert(spec_severity_keys(views)[i as int] == v@.severity);
                assert(spec_tool_keys(views)[i as int] == v@.tool);
            }
            i = i + 1;
        }
        VulnerabilityAnalysis {
            vulnerabilities: clone_vulnerabilities(vulnerabilities),
            category_breakdown,
            severity_distribution,
            tool_findings,
        }
    }
}

} // verus!
