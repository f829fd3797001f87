//! Rendering a chained error for the reporting boundary. Both contexts
//! — the originating one and the isolated one — report through this one
//! routine.

use vstd::prelude::*;
use vstd::string::StringExecFns;

verus! {

/// A chained error as the reporting boundary sees it: a head message,
/// the causal messages behind it (innermost cause last), and an
/// optional rendered backtrace.
pub struct ErrorChain {
    pub head: String,
    pub causes: Vec<String>,
    pub backtrace: Option<String>,
}

/// Mathematical image of an [`ErrorChain`].
pub struct ErrorChainView {
    pub head: Seq<char>,
    pub causes: Seq<Seq<char>>,
    pub backtrace: Option<Seq<char>>,
}

impl View for ErrorChain {
    type V = ErrorChainView;

    open spec fn view(&self) -> ErrorChainView {
        ErrorChainView {
            head: self.head@,
            causes: self.causes.deep_view(),
            backtrace: self.backtrace.deep_view(),
        }
    }
}

/// The rendered report: the head line, one line per cause, and the
/// backtrace line if a backtrace was captured.
pub open spec fn report_lines_of(e: ErrorChainView) -> Seq<Seq<char>> {
    seq!["error: "@ + e.head] + e.causes.map_values(|c: Seq<char>| "caused by: "@ + c) + (
    match e.backtrace {
        Some(b) => seq!["backtrace: "@ + b],
        None => Seq::<Seq<char>>::empty(),
    })
}

/// Renders the error chain, line by line, exactly as the report is
/// printed.
pub fn report_lines(e: &ErrorChain) -> (lines: Vec<String>)
    ensures
        lines.deep_view() == report_lines_of(e@),
{
    let ghost target = report_lines_of(e@);
    let mut lines: Vec<String> = Vec::new();
    lines.push(String::from_str("error: ").concat(e.head.as_str()));
    proof {
        lemma_lines_deep_view_index(lines);
        assert(lines.deep_view() =~= seq!["error: "@ + e@.head]);
    }

    let ghost cause_lines = e@.causes.map_values(|c: Seq<char>| "caused by: "@ + c);
    for i in 0..e.causes.len()
        invariant
            e@.causes == e.causes.deep_view(),
            cause_lines == e@.causes.map_values(|c: Seq<char>| "caused by: "@ + c),
            lines.deep_view() == seq!["error: "@ + e@.head] + cause_lines.take(i as int),
    {
        let ghost entry = lines;
        lines.push(String::from_str("caused by: ").concat(e.causes[i].as_str()));
        proof {
            lemma_lines_deep_view_index(entry);
            lemma_lines_deep_view_index(lines);
            lemma_lines_deep_view_index(e.causes);
            assert(cause_lines[i as int] == "caused by: "@ + e@.causes[i as int]);
            assert(lines.deep_view() =~= seq!["error: "@ + e@.head] + cause_lines.take(i + 1));
        }
    }
    proof {
        assert(cause_lines.take(cause_lines.len() as int) =~= cause_lines);
    }

    let ghost entry = lines;
    match &e.backtrace {
        Some(b) => {
            lines.push(String::from_str("backtrace: ").concat(b.as_str()));
            proof {
                lemma_lines_deep_view_index(entry);
                lemma_lines_deep_view_index(lines);
                assert(lines.deep_view() =~= target);
            }
        },
        None => {
            proof {
                assert(lines.deep_view() =~= target);
            }
        },
    }
    lines
}

/// A vector of lines viewed deeply is its elementwise view.
proof fn lemma_lines_deep_view_index(v: Vec<String>)
    ensures
        v.deep_view().len() == v@.len(),
        forall|k: int|
            #![trigger v.deep_view()[k]]
            #![trigger v@[k]]
            0 <= k < v@.len() ==> v.deep_view()[k] == v@[k]@,
{
}

} // verus!
