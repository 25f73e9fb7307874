//! The printed form of a reply: text for a reader, or the reply itself as
//! JSON.

use crate::json::pretty_text;
use crate::normalize::normalize;
use crate::normalize::normalized;
use crate::normalize::CanonicalResult;
use crate::normalize::CanonicalResultView;
use crate::normalize::Source;
use crate::normalize::SourceView;
use crate::response::response_wire;
use crate::response::GrokResponse;
use crate::response::GrokResponseView;
use crate::text::decimal;
use crate::text::decimal_text;
use vstd::prelude::*;

verus! {

/// How a reply is printed.
#[derive(Debug, Clone, Copy, PartialEq, Eq, Structural)]
pub enum OutputFormat {
    /// The body, the sources and a hint on how to follow up.
    Text,
    /// The reply as it came, as indented JSON.
    Json,
}

/// What stands before the message of a reported error.
pub const ERROR_HEAD: &'static str = "Error: ";

/// What stands between the body and the list of sources.
pub const SOURCES_HEAD: &'static str = "\n\nSources:\n";

/// What closes the answer.
pub const TRAILER: &'static str = "\n---\n";

/// What stands before the id of a reply that can be followed up on.
pub const FOLLOW_UP_HEAD: &'static str = "To follow up, use response_id: ";

/// The line of the `n`-th source.
pub open spec fn source_line(n: nat, s: SourceView) -> Seq<char> {
    decimal(n) + ". ["@ + s.title + "]("@ + s.url + ")\n"@
}

/// The lines of a list of sources, numbered from one.
pub open spec fn source_lines(sources: Seq<SourceView>) -> Seq<char>
    decreases sources.len(),
{
    if sources.len() == 0 {
        Seq::empty()
    } else {
        source_lines(sources.drop_last()) + source_line(sources.len(), sources.last())
    }
}

/// The part of an answer that lists its sources: nothing where there are
/// none.
pub open spec fn sources_part(sources: Seq<SourceView>) -> Seq<char> {
    if sources.len() == 0 {
        Seq::empty()
    } else {
        SOURCES_HEAD@ + source_lines(sources)
    }
}

/// The part of an answer that says how to follow up: nothing where the
/// reply has no id.
pub open spec fn follow_up_part(id: Option<Seq<char>>) -> Seq<char> {
    match id {
        Some(id) => FOLLOW_UP_HEAD@ + id + "\n"@,
        None => Seq::empty(),
    }
}

/// The text of a canonical result. A reported error is one line and
/// nothing else.
pub open spec fn rendered(c: CanonicalResultView) -> Seq<char> {
    match c.error {
        Some(message) => ERROR_HEAD@ + message + "\n"@,
        None => c.body + sources_part(c.sources) + TRAILER@ + follow_up_part(c.response_id),
    }
}

/// The text that is printed for a reply.
pub open spec fn text_output(r: GrokResponseView) -> Seq<char> {
    rendered(normalized(r))
}

/// The printed form of a reply in the given format.
pub open spec fn formatted(r: GrokResponseView, format: OutputFormat) -> Seq<char> {
    match format {
        OutputFormat::Json => pretty_text(response_wire(r)),
        OutputFormat::Text => text_output(r),
    }
}

/// Writes the line of the `n`-th source.
fn write_source_line(out: &mut String, n: usize, source: &Source)
    ensures
        final(out)@ == old(out)@ + source_line(n as nat, source@),
{
    let number = decimal_text(n as u64);
    out.append(number.as_str());
    out.append(". [");
    out.append(source.title.as_str());
    out.append("](");
    out.append(source.url.as_str());
    out.append(")\n");
    proof {
        assert(out@ =~= old(out)@ + source_line(n as nat, source@));
    }
}

/// Renders a canonical result as text.
pub fn render_text(result: &CanonicalResult) -> (out: String)
    ensures
        out@ == rendered(result@),
{
    let mut out = String::new();
    if let Some(message) = &result.error {
        out.append(ERROR_HEAD);
        out.append(message.as_str());
        out.append("\n");
        proof {
            assert(out@ =~= rendered(result@));
        }
        return out;
    }
    out.append(result.body.as_str());
    if result.sources.len() > 0 {
        out.append(SOURCES_HEAD);
        let mut i: usize = 0;
        proof {
            assert(out@ =~= result@.body + SOURCES_HEAD@ + source_lines(
                result.sources.deep_view().take(0),
            ));
        }
        while i < result.sources.len()
            invariant
                i <= result.sources.len(),
                out@ == result@.body + SOURCES_HEAD@ + source_lines(
                    result.sources.deep_view().take(i as int),
                ),
            decreases result.sources.len() - i,
        {
            proof {
                let next = result.sources.deep_view().take(i + 1);
                assert(next.drop_last() =~= result.sources.deep_view().take(i as int));
                assert(next.last() == result.sources[i as int]@);
            }
            write_source_line(&mut out, i + 1, &result.sources[i]);
            proof {
                assert(out@ =~= result@.body + SOURCES_HEAD@ + source_lines(
                    result.sources.deep_view().take(i + 1),
                ));
            }
            i += 1;
        }
        proof {
            assert(result.sources.deep_view().take(result.sources.len() as int)
                =~= result.sources.deep_view());
            assert(out@ =~= result@.body + sources_part(result@.sources));
        }
    } else {
        proof {
            assert(out@ =~= result@.body + sources_part(result@.sources));
        }
    }
    out.append(TRAILER);
    if let Some(id) = &result.response_id {
        out.append(FOLLOW_UP_HEAD);
        out.append(id.as_str());
        out.append("\n");
    }
    proof {
        assert(out@ =~= rendered(result@));
    }
    out
}

/// Renders a reply for printing: as text from its canonical form, or as
/// JSON from the reply as it is, which bypasses the canonical form.
pub fn format_response(response: &GrokResponse, format: &OutputFormat) -> (out: String)
    ensures
        out@ == formatted(response@, *format),
{
    match format {
        OutputFormat::Json => response.to_json_pretty(),
        OutputFormat::Text => {
            let result = normalize(response);
            render_text(&result)
        },
    }
}

} // verus!
