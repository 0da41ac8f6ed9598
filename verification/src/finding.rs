//! The input data model: a single vulnerability finding, the closed set of
//! vulnerability categories, and the analysis-results snapshot that one report
//! is generated from.
//!
//! Fractional quantities of the input (confidence, scores, duration) are held
//! as integers scaled to hundredths, so a confidence of `95` stands for 0.95
//! and a security score of `8500` stands for 85.00.
use vstd::prelude::*;

verus! {

/// The vulnerability classes the engine recognizes; everything else lands in
/// the open `Other` bucket.
#[derive(PartialEq, Eq, Structural, Clone, Copy, Debug)]
pub enum VulnerabilityCategory {
    Reentrancy,
    AccessControl,
    IntegerOverflow,
    UnhandledExceptions,
    Other,
}

/// The canonical label of a category, used as its key in count mappings and
/// in rendered text.
pub open spec fn spec_category_label(c: VulnerabilityCategory) -> Seq<char> {
    match c {
        VulnerabilityCategory::Reentrancy => "Reentrancy"@,
        VulnerabilityCategory::AccessControl => "AccessControl"@,
        VulnerabilityCategory::IntegerOverflow => "IntegerOverflow"@,
        VulnerabilityCategory::UnhandledExceptions => "UnhandledExceptions"@,
        VulnerabilityCategory::Other => "Other"@,
    }
}

impl VulnerabilityCategory {
    /// The canonical label of this category.
    pub fn label(&self) -> (r: &'static str)
        ensures
            r@ == spec_category_label(*self),
    {
        match self {
            VulnerabilityCategory::Reentrancy => "Reentrancy",
            VulnerabilityCategory::AccessControl => "AccessControl",
            VulnerabilityCategory::IntegerOverflow => "IntegerOverflow",
            VulnerabilityCategory::UnhandledExceptions => "UnhandledExceptions",
            VulnerabilityCategory::Other => "Other",
        }
    }
}

/// One reported vulnerability, produced by an external analyzer and never
/// mutated by this engine. `confidence` is scaled to hundredths of 1.0, so it
/// ranges over 0..=100.
pub struct Vulnerability {
    pub id: String,
    pub title: String,
    pub description: String,
    pub category: VulnerabilityCategory,
    pub severity: String,
    pub confidence: u64,
    pub tool: String,
    pub file_path: String,
    pub line_number: Option<u64>,
    pub code_snippet: Option<String>,
    pub recommendation: Option<String>,
    pub references: Vec<String>,
}

/// The mathematical value of one finding: every field of `Vulnerability`
/// with strings abstracted to character sequences.
#[verifier::ext_equal]
pub ghost struct VulnView {
    pub id: Seq<char>,
    pub title: Seq<char>,
    pub description: Seq<char>,
    pub category: VulnerabilityCategory,
    pub severity: Seq<char>,
    pub confidence: u64,
    pub tool: Seq<char>,
    pub file_path: Seq<char>,
    pub line_number: Option<u64>,
    pub code_snippet: Option<Seq<char>>,
    pub recommendation: Option<Seq<char>>,
    pub references: Seq<Seq<char>>,
}

impl View for Vulnerability {
    type V = VulnView;

    open spec fn view(&self) -> VulnView {
        VulnView {
            id: self.id@,
            title: self.title@,
            description: self.description@,
            category: self.category,
            severity: self.severity@,
            confidence: self.confidence,
            tool: self.tool@,
            file_path: self.file_path@,
            line_number: self.line_number,
            code_snippet: match self.code_snippet {
                Some(s) => Some(s@),
                None => None,
            },
            recommendation: match self.recommendation {
                Some(s) => Some(s@),
                None => None,
            },
            references: self.references@.map_values(|s: String| s@),
        }
    }
}

/// The views of a sequence of findings.
pub open spec fn spec_vuln_views(s: Seq<Vulnerability>) -> Seq<VulnView> {
    s.map_values(|v: Vulnerability| v@)
}

impl Vulnerability {
    /// An exact copy of this finding.
    pub fn duplicate(&self) -> (r: Vulnerability)
        ensures
            r@ == self@,
    {
        let line_number = match &self.line_number {
            Some(n) => Some(*n),
            None => None,
        };
        let code_snippet = match &self.code_snippet {
            Some(s) => Some(s.clone()),
            None => None,
        };
        let recommendation = match &self.recommendation {
            Some(s) => Some(s.clone()),
            None => None,
        };
        let r = Vulnerability {
            id: self.id.clone(),
            title: self.title.clone(),
            description: self.description.clone(),
            category: self.category,
            severity: self.severity.clone(),
            confidence: self.confidence,
            tool: self.tool.clone(),
            file_path: self.file_path.clone(),
            line_number,
            code_snippet,
            recommendation,
            references: clone_strings(&self.references),
        };
        proof {
            assert(r@ =~= self@);
        }
        r
    }
}

/// An exact copy of a vector of strings.
pub fn clone_strings(v: &Vec<String>) -> (r: Vec<String>)
    ensures
        r@ == v@,
{
    let mut r: Vec<String> = Vec::new();
    let n = v.len();
    let mut i: usize = 0;
    while i < n
        invariant
            n == v.len(),
            i <= n,
            r@ == v@.subrange(0, i as int),
        decreases n - i,
    {
        r.push(v[i].clone());
        proof {
            assert(r@ =~= v@.subrange(0, i as int + 1));
        }
        i = i + 1;
    }
    proof {
        assert(r@ =~= v@);
    }
    r
}

/// An exact copy of a vector of findings, up to the views of its elements.
pub fn clone_vulnerabilities(v: &Vec<Vulnerability>) -> (r: Vec<Vulnerability>)
    ensures
        spec_vuln_views(r@) == spec_vuln_views(v@),
{
    let mut r: Vec<Vulnerability> = Vec::new();
    let n = v.len();
    let mut i: usize = 0;
    while i < n
        invariant
            n == v.len(),
            i <= n,
            r@.len() == i,
            forall|j: int| 0 <= j < i ==> r@[j]@ == v@[j]@,
        decreases n - i,
    {
        r.push(v[i].duplicate());
        i = i + 1;
    }
    proof {
        assert(spec_vuln_views(r@) =~= spec_vuln_views(v@)) by {
            assert(forall|j: int|
                0 <= j < n ==> spec_vuln_views(r@)[j] == #[trigger] spec_vuln_views(v@)[j]);
        }
    }
    r
}

/// Aggregate metrics supplied with the analysis results. `complexity_score`
/// and `security_score` are scaled to hundredths; the security score ranges
/// over 0..=10000 (that is, 0.00 to 100.00).
#[derive(Clone, Copy, PartialEq, Eq, Structural, Debug)]
pub struct AnalysisMetrics {
    pub lines_of_code: usize,
    pub functions_analyzed: usize,
    pub complexity_score: u64,
    pub security_score: u64,
}

/// The run summary supplied with the analysis results. `analysis_duration`
/// is in hundredths of a second.
pub struct AnalysisSummary {
    pub tools_used: Vec<String>,
    pub analysis_duration: u64,
}

/// One analysis run's output: the read-only input of report generation.
pub struct AnalysisResults {
    pub contract_name: String,
    pub vulnerabilities: Vec<Vulnerability>,
    pub recommendations: Vec<String>,
    pub metrics: AnalysisMetrics,
    pub analysis_summary: AnalysisSummary,
}

} // verus!
