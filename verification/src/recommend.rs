//! The recommendation synthesizer: one canonical remediation record per
//! distinct category present in the findings, followed by one generic record
//! per free-text recommendation supplied with the input.
use crate::finding::{
    spec_category_label, spec_vuln_views, VulnView, Vulnerability, VulnerabilityCategory,
};
use crate::text::{push_dec_u64, s_append, spec_dec, spec_views};
use crate::ReportGenerator;
use vstd::prelude::*;

verus! {

/// One remediation guidance record of the report.
pub struct Recommendation {
    pub id: String,
    pub title: String,
    pub description: String,
    pub priority: String,
    pub effort: String,
    pub impact: String,
    pub related_vulnerabilities: Vec<String>,
}

/// The mathematical value of one recommendation record.
#[verifier::ext_equal]
pub ghost struct RecView {
    pub id: Seq<char>,
    pub title: Seq<char>,
    pub description: Seq<char>,
    pub priority: Seq<char>,
    pub effort: Seq<char>,
    pub impact: Seq<char>,
    pub related_vulnerabilities: Seq<Seq<char>>,
}

impl View for Recommendation {
    type V = RecView;

    open spec fn view(&self) -> RecView {
        RecView {
            id: self.id@,
            title: self.title@,
            description: self.description@,
            priority: self.priority@,
            effort: self.effort@,
            impact: self.impact@,
            related_vulnerabilities: self.related_vulnerabilities@.map_values(|s: String| s@),
        }
    }
}

/// The views of a sequence of recommendations.
pub open spec fn spec_rec_views(s: Seq<Recommendation>) -> Seq<RecView> {
    s.map_values(|r: Recommendation| r@)
}

/// The identifiers of the findings from index `i` on whose category is `cat`,
/// in input order.
pub open spec fn spec_related_ids(vs: Seq<VulnView>, cat: VulnerabilityCategory, i: int) -> Seq<
    Seq<char>,
>
    decreases vs.len() - i,
{
    if i < 0 || i >= vs.len() {
        Seq::empty()
    } else if vs[i].category == cat {
        seq![vs[i].id] + spec_related_ids(vs, cat, i + 1)
    } else {
        spec_related_ids(vs, cat, i + 1)
    }
}

/// The canonical remediation record for one category, listing the
/// identifiers of every finding of that category.
pub open spec fn spec_category_recommendation(
    cat: VulnerabilityCategory,
    vs: Seq<VulnView>,
) -> RecView {
    let related = spec_related_ids(vs, cat, 0);
    match cat {
        VulnerabilityCategory::Reentrancy => RecView {
            id: "REC-001"@,
            title: "Implement Reentrancy Protection"@,
            description:
                "Use reentrancy guards or checks-effects-interactions pattern to prevent reentrancy attacks."@,
            priority: "High"@,
            effort: "Medium"@,
            impact: "High"@,
            related_vulnerabilities: related,
        },
        VulnerabilityCategory::AccessControl => RecView {
            id: "REC-002"@,
            title: "Strengthen Access Control"@,
            description: "Implement proper access control mechanisms using role-based permissions."@,
            priority: "High"@,
            effort: "High"@,
            impact: "High"@,
            related_vulnerabilities: related,
        },
        VulnerabilityCategory::IntegerOverflow => RecView {
            id: "REC-003"@,
            title: "Use Safe Math Operations"@,
            description:
                "Implement SafeMath library or use Solidity 0.8+ built-in overflow protection."@,
            priority: "Medium"@,
            effort: "Low"@,
            impact: "Medium"@,
            related_vulnerabilities: related,
        },
        VulnerabilityCategory::UnhandledExceptions => RecView {
            id: "REC-004"@,
            title: "Improve Error Handling"@,
            description: "Implement proper error handling for all external calls and operations."@,
            priority: "Medium"@,
            effort: "Medium"@,
            impact: "Medium"@,
            related_vulnerabilities: related,
        },
        VulnerabilityCategory::Other => RecView {
            id: "REC-999"@,
            title: "Address "@ + spec_category_label(cat) + " Issues"@,
            description: "Review and address all "@ + spec_category_label(cat)
                + " related vulnerabilities."@,
            priority: "Medium"@,
            effort: "Medium"@,
            impact: "Medium"@,
            related_vulnerabilities: related,
        },
    }
}

/// The category records for the findings from index `i` on whose category is
/// not yet in `seen`, one per distinct category in first-occurrence order.
pub open spec fn spec_cat_recs(
    vs: Seq<VulnView>,
    i: int,
    seen: Seq<VulnerabilityCategory>,
) -> Seq<RecView>
    decreases vs.len() - i,
{
    if i < 0 || i >= vs.len() {
        Seq::empty()
    } else if seen.contains(vs[i].category) {
        spec_cat_recs(vs, i + 1, seen)
    } else {
        seq![spec_category_recommendation(vs[i].category, vs)] + spec_cat_recs(
            vs,
            i + 1,
            seen.push(vs[i].category),
        )
    }
}

/// The generic record for the free-text recommendation `text` at position
/// `idx` (zero-based) of the supplied list.
pub open spec fn spec_general_rec(text: Seq<char>, idx: nat) -> RecView {
    RecView {
        id: "REC-"@ + spec_dec((idx + 100) as nat),
        title: "General Recommendation "@ + spec_dec((idx + 1) as nat),
        description: text,
        priority: "Medium"@,
        effort: "Medium"@,
        impact: "Medium"@,
        related_vulnerabilities: Seq::empty(),
    }
}

/// The generic records for the free-text recommendations from index `i` on.
pub open spec fn spec_general_recs(rs: Seq<Seq<char>>, i: int) -> Seq<RecView>
    decreases rs.len() - i,
{
    if i < 0 || i >= rs.len() {
        Seq::empty()
    } else {
        seq![spec_general_rec(rs[i], i as nat)] + spec_general_recs(rs, i + 1)
    }
}

/// The full synthesized recommendation list: category records in
/// first-occurrence order, then the generic records in input order.
pub open spec fn spec_recommendations(vs: Seq<VulnView>, rs: Seq<Seq<char>>) -> Seq<RecView> {
    spec_cat_recs(vs, 0, Seq::empty()) + spec_general_recs(rs, 0)
}

/// Recommendation synthesis is idempotent: the synthesized list is a function
/// of the findings and the free-text strings alone, so two runs on identical
/// input yield identical ordered lists, identifiers included.
pub proof fn lemma_synthesis_idempotent(
    vs: Seq<VulnView>,
    rs: Seq<Seq<char>>,
    first: Seq<RecView>,
    second: Seq<RecView>,
)
    requires
        first == spec_recommendations(vs, rs),
        second == spec_recommendations(vs, rs),
    ensures
        first == second,
{
}

/// Whether `c` occurs in `seen`.
fn category_in(seen: &Vec<VulnerabilityCategory>, c: VulnerabilityCategory) -> (r: bool)
    ensures
        r == seen@.contains(c),
{
    let n = seen.len();
    let mut i: usize = 0;
    while i < n
        invariant
            n == seen.len(),
            i <= n,
            forall|j: int| 0 <= j < i ==> seen@[j] != c,
        decreases n - i,
    {
        if seen[i] == c {
            return true;
        }
        i = i + 1;
    }
    false
}

impl ReportGenerator {
    /// The canonical remediation record for `category`, listing the
    /// identifiers of every finding sharing that category, in input order.
    pub fn create_category_recommendation(
        &self,
        category: &VulnerabilityCategory,
        vulnerabilities: &Vec<Vulnerability>,
    ) -> (r: Recommendation)
        ensures
            r@ == spec_category_recommendation(*category, spec_vuln_views(vulnerabilities@)),
    {
        let ghost views = spec_vuln_views(vulnerabilities@);
        let cat = *category;
        let mut related_vulns: Vec<String> = Vec::new();
        let n = vulnerabilities.len();
        let mut i: usize = 0;
        while i < n
            invariant
                n == vulnerabilities.len(),
                views == spec_vuln_views(vulnerabilities@),
                i <= n,
                spec_views(related_vulns@) + spec_related_ids(views, cat, i as int)
                    == spec_related_ids(views, cat, 0),
            decreases n - i,
        {
            let v = &vulnerabilities[i];
            if v.category == cat {
                related_vulns.push(v.id.clone());
                proof {
                    assert(spec_views(related_vulns@) =~= spec_views(
                        related_vulns@.drop_last(),
                    ).push(v@.id));
                }
            }
            i = i + 1;
        }
        proof {
            assert(spec_views(related_vulns@) =~= spec_related_ids(views, cat, 0));
        }
        let r = match cat {
            VulnerabilityCategory::Reentrancy => Recommendation {
                id: "REC-001".to_owned(),
                title: "Implement Reentrancy Protection".to_owned(),
                description:
                    "Use reentrancy guards or checks-effects-interactions pattern to prevent reentrancy attacks.".to_owned(),
                priority: "High".to_owned(),
                effort: "Medium".to_owned(),
                impact: "High".to_owned(),
                related_vulnerabilities: related_vulns,
            },
            VulnerabilityCategory::AccessControl => Recommendation {
                id: "REC-002".to_owned(),
                title: "Strengthen Access Control".to_owned(),
                description:
                    "Implement proper access control mechanisms using role-based permissions.".to_owned(),
                priority: "High".to_owned(),
                effort: "High".to_owned(),
                impact: "High".to_owned(),
                related_vulnerabilities: related_vulns,
            },
            VulnerabilityCategory::IntegerOverflow => Recommendation {
                id: "REC-003".to_owned(),
                title: "Use Safe Math Operations".to_owned(),
                description:
                    "Implement SafeMath library or use Solidity 0.8+ built-in overflow protection.".to_owned(),
                priority: "Medium".to_owned(),
                effort: "Low".to_owned(),
                impact: "Medium".to_owned(),
                related_vulnerabilities: related_vulns,
            },
            VulnerabilityCategory::UnhandledExceptions => Recommendation {
                id: "REC-004".to_owned(),
                title: "Improve Error Handling".to_owned(),
                description:
                    "Implement proper error handling for all external calls and operations.".to_owned(),
                priority: "Medium".to_owned(),
                effort: "Medium".to_owned(),
                impact: "Medium".to_owned(),
                related_vulnerabilities: related_vulns,
            },
            VulnerabilityCategory::Other => {
                let label = cat.label();
                let mut title = "Address ".to_owned();
                s_append(&mut title, label);
                s_append(&mut title, " Issues");
                let mut description = "Review and address all ".to_owned();
                s_append(&mut description, label);
                s_append(&mut description, " related vulnerabilities.");
                Recommendation {
                    id: "REC-999".to_owned(),
                    title,
                    description,
                    priority: "Medium".to_owned(),
                    effort: "Medium".to_owned(),
                    impact: "Medium".to_owned(),
                    related_vulnerabilities: related_vulns,
                }
            },
        };
        proof {
            assert(r@ =~= spec_category_recommendation(cat, views));
        }
        r
    }

    /// The full synthesized recommendation list: one canonical record per
    /// distinct category in first-occurrence order, then one generic record
    /// per supplied free-text recommendation, numbered sequentially.
    pub fn create_recommendations(
        &self,
        vulnerabilities: &Vec<Vulnerability>,
        basic_recommendations: &Vec<String>,
    ) -> (r: Vec<Recommendation>)
        requires
            basic_recommendations@.len() + 100 <= u64::MAX,
        ensures
            spec_rec_views(r@) == spec_recommendations(
                spec_vuln_views(vulnerabilities@),
                spec_views(basic_recommendations@),
            ),
    {
        let ghost views = spec_vuln_views(vulnerabilities@);
        let ghost rviews = spec_views(basic_recommendations@);
        let mut recommendations: Vec<Recommendation> = Vec::new();
        let mut processed_categories: Vec<VulnerabilityCategory> = Vec::new();
        let n = vulnerabilities.len();
        let mut i: usize = 0;
        while i < n
            invariant
                n == vulnerabilities.len(),
                views == spec_vuln_views(vulnerabilities@),
                i <= n,
                spec_rec_views(recommendations@) + spec_cat_recs(
                    views,
                    i as int,
                    processed_categories@,
                ) == spec_cat_recs(views, 0, Seq::empty()),
            decreases n - i,
        {
            let v = &vulnerabilities[i];
            if !category_in(&processed_categories, v.category) {
                let recommendation = self.create_category_recommendation(
                    &v.category,
                    vulnerabilities,
                );
                recommendations.push(recommendation);
                processed_categories.push(v.category);
                proof {
                    assert(spec_rec_views(recommendations@) =~= spec_rec_views(
                        recommendations@.drop_last(),
                    ).push(recommendations@.last()@));
                }
            }
            i = i + 1;
        }
        proof {
            assert(spec_rec_views(recommendations@) =~= spec_cat_recs(views, 0, Seq::empty()));
        }
        let ghost cat_full = spec_cat_recs(views, 0, Seq::empty());
        let m = basic_recommendations.len();
        let mut j: usize = 0;
        while j < m
            invariant
                m == basic_recommendations.len(),
                rviews == spec_views(basic_recommendations@),
                m + 100 <= u64::MAX,
                j <= m,
                spec_rec_views(recommendations@) + spec_general_recs(rviews, j as int) == cat_full
                    + spec_general_recs(rviews, 0),
            decreases m - j,
        {
            let mut id = "REC-".to_owned();
            push_dec_u64(&mut id, (j as u64) + 100);
            let mut title = "General Recommendation ".to_owned();
            push_dec_u64(&mut title, (j as u64) + 1);
            let rec = Recommendation {
                id,
                title,
                description: basic_recommendations[j].clone(),
                priority: "Medium".to_owned(),
                effort: "Medium".to_owned(),
                impact: "Medium".to_owned(),
                related_vulnerabilities: Vec::new(),
            };
            recommendations.push(rec);
            proof {
                assert(recommendations@.last()@ =~= spec_general_rec(rviews[j as int], j as nat));
                assert(spec_rec_views(recommendations@) =~= spec_rec_views(
                    recommendations@.drop_last(),
                ).push(recommendations@.last()@));
            }
            j = j + 1;
        }
        proof {
            assert(spec_rec_views(recommendations@) =~= cat_full + spec_general_recs(rviews, 0));
        }
        recommendations
    }
}

} // verus!
