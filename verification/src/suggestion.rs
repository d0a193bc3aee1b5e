//! The suggestion builder: turns a positive finding into the diagnostic
//! record, with the suggested rewrite's replacement text reconstructed from
//! the chosen sub-span's verbatim source text.

use vstd::prelude::*;
use vstd::string::StringExecFns;

use crate::detector::Finding;
use crate::detector::TypedExpression;
use crate::render::type_text;
use crate::render::type_text_string;

verus! {

/// How confidently the suggested rewrite can be applied. Source-text
/// reconstruction is heuristic (the rewrite may need extra parenthesization
/// this analyzer does not attempt to verify), so a rewrite is never marked
/// as certainly correct.
#[derive(Clone, Copy, PartialEq, Eq, Structural, Debug)]
pub enum Applicability {
    /// The rewrite is known to be correct as produced.
    MachineApplicable,
    /// The rewrite is possibly, but not certainly, correct.
    MaybeIncorrect,
}

/// The output record of the analyzer: where to report, what to say, the
/// suggested replacement text, and how confidently it applies.
pub struct Diagnostic {
    pub span: crate::detector::Span,
    pub message: String,
    pub help: String,
    pub suggestion: String,
    pub applicability: Applicability,
}

/// `count` dereference operators in a row.
pub open spec fn star_prefix(count: nat) -> Seq<char> {
    Seq::new(count, |i: int| '*')
}

/// The placeholder that stands in for source text the host could not
/// retrieve.
pub open spec fn placeholder_text() -> Seq<char> {
    "x"@
}

/// The replacement text of the suggested rewrite: take a reference to the
/// `count`-fold dereference of the chosen source text.
pub open spec fn suggestion_text(count: nat, snippet: Seq<char>) -> Seq<char> {
    "&"@ + star_prefix(count) + snippet
}

/// The chosen source text: the retrieved snippet, or the placeholder when
/// none is available.
pub open spec fn chosen_snippet(snippet: Option<&str>) -> Seq<char> {
    match snippet {
        Some(text) => text@,
        None => placeholder_text(),
    }
}

/// The diagnostic's message, naming the expression's declared type and
/// stating that dereferencing was likely intended.
pub open spec fn message_text(declared: crate::types::Type) -> Seq<char> {
    "coercing `"@ + type_text(declared)
        + "` to an any-capability reference rather than dereferencing to the any-capability object inside"@
}

/// The short label attached to the suggested rewrite.
pub open spec fn help_text() -> Seq<char> {
    "consider dereferencing"@
}

/// Build the replacement text: `&`, then `count` dereference operators, then
/// the verbatim source text of the chosen span (a placeholder when the text
/// is unavailable).
pub fn build_suggestion(count: usize, snippet: Option<&str>) -> (s: String)
    ensures
        s@ == suggestion_text(count as nat, chosen_snippet(snippet)),
{
    let mut s = String::from_str("&");
    let mut j: usize = 0;
    while j < count
        invariant
            j <= count,
            s@ == "&"@ + star_prefix(j as nat),
        decreases count - j,
    {
        s.append("*");
        proof {
            reveal_strlit("*");
            assert(("*")@ =~= seq!['*']);
            assert(("&"@ + star_prefix(j as nat)) + ("*")@
                =~= "&"@ + star_prefix(j as nat + 1));
        }
        j += 1;
    }
    match snippet {
        Some(text) => {
            s.append(text);
        },
        None => {
            s.append("x");
        },
    }
    s
}

/// Build the diagnostic for a positive finding `f` on the expression `e`:
/// it points at the whole expression, names the declared type, carries the
/// suggested rewrite over `snippet` (the source text of `f.snippet_span`,
/// when the host could retrieve it), and is always marked possibly-but-not-
/// certainly correct.
pub fn build_diagnostic(e: &TypedExpression, f: &Finding, snippet: Option<&str>) -> (d: Diagnostic)
    ensures
        d.span == f.span,
        d.message@ == message_text(e.declared_type),
        d.help@ == help_text(),
        d.suggestion@ == suggestion_text(f.deref_count as nat, chosen_snippet(snippet)),
        d.applicability == Applicability::MaybeIncorrect,
{
    let mut message = String::from_str("coercing `");
    let declared_text = type_text_string(&e.declared_type);
    message.append(declared_text.as_str());
    message.append(
        "` to an any-capability reference rather than dereferencing to the any-capability object inside",
    );
    proof {
        assert(message@ =~= message_text(e.declared_type));
    }
    let help = String::from_str("consider dereferencing");
    let suggestion = build_suggestion(f.deref_count, snippet);
    Diagnostic {
        span: f.span,
        message,
        help,
        suggestion,
        applicability: Applicability::MaybeIncorrect,
    }
}

} // verus!
