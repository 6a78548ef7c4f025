//! Summarising the outcome of one fetch as the `output` text of a
//! [`CommandResult`].
//!
//! A fetch never fails the pipeline: whatever the transport reports is
//! rendered here into a bounded line of text and delivered as ordinary data.

use vstd::prelude::*;
use vstd::string::*;

use crate::messages::CommandResult;

verus! {

/// How many characters of a response body are shown at most.
pub const BODY_PREFIX_LEN: usize = 60;

/// The marker appended to a body excerpt that was cut short.
pub open spec fn ellipsis() -> Seq<char> {
    seq!['.', '.', '.']
}

/// The placeholder shown in place of a status code when the transport
/// reported none.
pub open spec fn none_marker() -> Seq<char> {
    seq!['<', 'n', 'o', 'n', 'e', '>']
}

/// The single space that separates the status part from the rest.
pub open spec fn separator() -> Seq<char> {
    seq![' ']
}

/// What the transport reported for one URL.
///
/// `Response` carries the status code (as text) and the body of an answered
/// request, whether or not the status was a success. `Failed` carries the
/// status, if the error still knew one, and the error's message; a timeout
/// or a refused connection ends up here.
#[allow(inconsistent_fields)]
pub enum FetchOutcome {
    Response { status: String, body: String },
    Failed { status: Option<String>, message: String },
}

/// At most the first [`BODY_PREFIX_LEN`] characters of the body; a body cut
/// short is marked with an ellipsis.
pub open spec fn body_excerpt(body: Seq<char>) -> Seq<char> {
    if body.len() <= BODY_PREFIX_LEN {
        body
    } else {
        body.take(BODY_PREFIX_LEN as int) + ellipsis()
    }
}

/// The body excerpt is bounded: however long the response body, at most
/// the prefix and the ellipsis marker are shown, so the summary of an
/// answered request never outgrows its status by more than that.
pub proof fn lemma_excerpt_bounded(status: Seq<char>, body: Seq<char>)
    ensures
        body_excerpt(body).len() <= BODY_PREFIX_LEN + ellipsis().len(),
        response_output(status, body).len() <= status.len() + separator().len()
            + BODY_PREFIX_LEN + ellipsis().len(),
{
}

/// The summary of an answered request: status, a space, the body excerpt.
pub open spec fn response_output(status: Seq<char>, body: Seq<char>) -> Seq<char> {
    status + separator() + body_excerpt(body)
}

/// The summary of a failed request: the status or the `<none>` placeholder,
/// a space, the error's message.
pub open spec fn failure_output(status: Option<Seq<char>>, message: Seq<char>) -> Seq<char> {
    (match status {
        Some(s) => s,
        None => none_marker(),
    }) + separator() + message
}

/// The summary text for an outcome.
pub open spec fn output_spec(outcome: FetchOutcome) -> Seq<char> {
    match outcome {
        FetchOutcome::Response { status, body } => response_output(status@, body@),
        FetchOutcome::Failed { status, message } => failure_output(
            match status {
                Some(s) => Some(s@),
                None => None,
            },
            message@,
        ),
    }
}

/// Renders an outcome as its summary text.
pub fn format_output(outcome: &FetchOutcome) -> (out: String)
    ensures
        out@ == output_spec(*outcome),
{
    match outcome {
        FetchOutcome::Response { status, body } => {
            let mut out = status.clone();
            out.append(" ");
            proof {
                reveal_strlit(" ");
                assert(out@ =~= status@ + separator());
            }
            let body_len = body.as_str().unicode_len();
            if body_len <= BODY_PREFIX_LEN {
                out = out.concat(body.as_str());
            } else {
                let excerpt = body.as_str().substring_char(0, BODY_PREFIX_LEN);
                out = out.concat(excerpt);
                out.append("...");
                proof {
                    reveal_strlit("...");
                    assert("..."@ =~= ellipsis());
                }
            }
            proof {
                assert(out@ =~= response_output(status@, body@));
            }
            out
        },
        FetchOutcome::Failed { status, message } => {
            let mut out = match status {
                Some(s) => s.clone(),
                None => {
                    let none_text = String::from_str("<none>");
                    proof {
                        reveal_strlit("<none>");
                        assert(none_text@ =~= none_marker());
                    }
                    none_text
                },
            };
            out.append(" ");
            out = out.concat(message.as_str());
            proof {
                reveal_strlit(" ");
                assert(out@ =~= output_spec(*outcome));
            }
            out
        },
    }
}

/// Builds the result delivered to the sink for one URL: the URL itself,
/// paired with the summary of its own outcome.
pub fn fetch_result(url: String, outcome: &FetchOutcome) -> (result: CommandResult)
    ensures
        result.url@ == url@,
        result.output@ == output_spec(*outcome),
{
    let output = format_output(outcome);
    CommandResult { url, output }
}

} // verus!
