//! The hypertext rendering of an assembled report: the canonical markdown
//! rendering, escaped and embedded in a minimal styled document shell. It is
//! derived from the markdown renderer by composition, never computed
//! independently.
use crate::assemble::ComprehensiveReport;
use crate::render_markdown::spec_markdown;
use crate::text::s_append;
use crate::ReportGenerator;
use vstd::prelude::*;

verus! {

/// The hypertext escape of one character: ampersand and the angle brackets
/// are escaped, everything else passes through.
pub open spec fn spec_html_esc_char(c: char) -> Seq<char> {
    if c == '&' {
        "&amp;"@
    } else if c == '<' {
        "&lt;"@
    } else if c == '>' {
        "&gt;"@
    } else {
        seq![c]
    }
}

/// The hypertext escape of the characters of `s` from index `i` on.
pub open spec fn spec_html_escape_from(s: Seq<char>, i: int) -> Seq<char>
    decreases s.len() - i,
{
    if i < 0 || i >= s.len() {
        Seq::empty()
    } else {
        spec_html_esc_char(s[i]) + spec_html_escape_from(s, i + 1)
    }
}

/// The hypertext escape of a string's characters.
pub open spec fn spec_html_escape(s: Seq<char>) -> Seq<char> {
    spec_html_escape_from(s, 0)
}

/// The opening of the document shell, up to the escaped contract name in the
/// title.
pub open spec fn spec_html_shell_open() -> Seq<char> {
    "<!DOCTYPE html>\n<html>\n<head>\n    <title>Security Audit Report - "@
}

/// The middle of the document shell: the style block and the opening of the
/// body, up to the escaped markdown.
pub open spec fn spec_html_shell_mid() -> Seq<char> {
    "</title>\n    <style>\n        body { font-family: Arial, sans-serif; margin: 40px; }\n        h1 { color: #333; }\n        h2 { color: #666; border-bottom: 2px solid #eee; }\n        h3 { color: #888; }\n        .severity-critical { color: #dc3545; }\n        .severity-high { color: #fd7e14; }\n        .severity-medium { color: #ffc107; }\n        .severity-low { color: #28a745; }\n        .code { background-color: #f8f9fa; padding: 10px; border-radius: 4px; }\n        .vulnerability { border: 1px solid #ddd; padding: 15px; margin: 10px 0; border-radius: 5px; }\n    </style>\n</head>\n<body>\n    <pre>"@
}

/// The closing of the document shell after the escaped markdown.
pub open spec fn spec_html_shell_close() -> Seq<char> {
    "</pre>\n</body>\n</html>"@
}

/// The full hypertext document: the shell around the escaped contract name
/// and the escaped canonical markdown rendering.
#[verifier::opaque]
pub open spec fn spec_html(report: ComprehensiveReport) -> Seq<char> {
    spec_html_shell_open() + spec_html_escape(report.metadata.contract_name@)
        + spec_html_shell_mid() + spec_html_escape(spec_markdown(report))
        + spec_html_shell_close()
}

/// Appends the hypertext escape of the characters of `s`.
fn push_html_escaped(out: &mut String, s: &str)
    ensures
        final(out)@ == old(out)@ + spec_html_escape(s@),
{
    let n = s.unicode_len();
    let mut i: usize = 0;
    while i < n
        invariant
            n == s@.len(),
            i <= n,
            out@ + spec_html_escape_from(s@, i as int) == old(out)@ + spec_html_escape_from(s@, 0),
        decreases n - i,
    {
        let c = s.get_char(i);
        if c == '&' {
            s_append(out, "&amp;");
        } else if c == '<' {
            s_append(out, "&lt;");
        } else if c == '>' {
            s_append(out, "&gt;");
        } else {
            let piece = s.substring_char(i, i + 1);
            s_append(out, piece);
            proof {
                assert(piece@ =~= seq![s@[i as int]]);
            }
        }
        i = i + 1;
        proof {
            assert(out@ + spec_html_escape_from(s@, i as int) =~= old(out)@
                + spec_html_escape_from(s@, 0));
        }
    }
    proof {
        assert(final(out)@ =~= old(out)@ + spec_html_escape(s@));
    }
}

impl ReportGenerator {
    /// The hypertext rendering: the canonical markdown rendering, escaped,
    /// inside the styled document shell.
    pub fn generate_html_report(&self, report: &ComprehensiveReport) -> (r: String)
        ensures
            r@ == spec_html(*report),
    {
        let markdown = self.render_markdown(report);
        let mut out = String::new();
        s_append(&mut out, "<!DOCTYPE html>\n<html>\n<head>\n    <title>Security Audit Report - ");
        push_html_escaped(&mut out, report.metadata.contract_name.as_str());
        s_append(
            &mut out,
            "</title>\n    <style>\n        body { font-family: Arial, sans-serif; margin: 40px; }\n        h1 { color: #333; }\n        h2 { color: #666; border-bottom: 2px solid #eee; }\n        h3 { color: #888; }\n        .severity-critical { color: #dc3545; }\n        .severity-high { color: #fd7e14; }\n        .severity-medium { color: #ffc107; }\n        .severity-low { color: #28a745; }\n        .code { background-color: #f8f9fa; padding: 10px; border-radius: 4px; }\n        .vulnerability { border: 1px solid #ddd; padding: 15px; margin: 10px 0; border-radius: 5px; }\n    </style>\n</head>\n<body>\n    <pre>",
        );
        push_html_escaped(&mut out, markdown.as_str());
        s_append(&mut out, "</pre>\n</body>\n</html>");
        proof {
            reveal(spec_html);
            assert(out@ =~= spec_html(*report));
        }
        out
    }

    /// The portable-document rendering: an explicit placeholder policy that
    /// reuses the hypertext rendering unchanged.
    pub fn generate_pdf_report(&self, report: &ComprehensiveReport) -> (r: String)
        ensures
            r@ == spec_html(*report),
    {
        self.generate_html_report(report)
    }
}

} // verus!
