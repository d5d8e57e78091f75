//! The compile worker's result normalization. The worker thread takes one
//! source-text job at a time, hands it to the external document compiler,
//! and turns the compiler's answer — a list of page frames, or a list of
//! diagnostic messages — into exactly one result: the first page, or one
//! human-readable error string.
//!
//! The thread loop, the compiler call and the repaint hint live with the
//! shell; this module holds the decision logic they drive.

use vstd::prelude::*;
use vstd::string::StrSliceExecFns;
use vstd::string::StringExecFns;

use crate::doc::Frame;

verus! {

/// The newline separating two diagnostic messages.
pub open spec fn spec_newline() -> Seq<char> {
    seq!['\n']
}

/// The first `n` lines joined with single newlines between them.
pub open spec fn spec_join_upto(lines: Seq<Seq<char>>, n: int) -> Seq<char>
    decreases n,
{
    if n <= 0 || n > lines.len() {
        Seq::empty()
    } else if n == 1 {
        lines[0]
    } else {
        spec_join_upto(lines, n - 1) + spec_newline() + lines[n - 1]
    }
}

/// All the lines joined with single newlines between them.
pub open spec fn spec_join(lines: Seq<Seq<char>>) -> Seq<char> {
    spec_join_upto(lines, lines.len() as int)
}

/// The error message of a successful compile with zero pages.
pub open spec fn spec_no_frames() -> Seq<char> {
    "no frames"@
}

/// The fallback error message of a failing compile whose diagnostic list
/// renders to an empty string.
pub open spec fn spec_failed() -> Seq<char> {
    "compilation failed"@
}

/// The error text of a failing compile: the newline-joined diagnostics,
/// or the fixed fallback when they render to nothing, so the message is
/// never empty.
pub open spec fn spec_error_message(lines: Seq<Seq<char>>) -> Seq<char> {
    if spec_join(lines).len() > 0 {
        spec_join(lines)
    } else {
        spec_failed()
    }
}

/// Flattens the compiler's diagnostic list into a single human-readable
/// string: the messages in order, separated by newlines.
pub fn join_diagnostics(diags: &Vec<String>) -> (out: String)
    ensures
        out@ == spec_join(diags.deep_view()),
{
    let ghost lines = diags.deep_view();
    let mut out = String::new();
    let mut i: usize = 0;
    while i < diags.len()
        invariant
            0 <= i <= diags@.len(),
            lines == diags.deep_view(),
            lines.len() == diags@.len(),
            forall|k: int| 0 <= k < diags@.len() ==> lines[k] == (#[trigger] diags@[k])@,
            out@ == spec_join_upto(lines, i as int),
        decreases diags@.len() - i,
    {
        if i > 0 {
            out.append("\n");
            proof {
                reveal_strlit("\n");
                assert(out@ == spec_join_upto(lines, i as int) + spec_newline());
            }
        }
        out.append(diags[i].as_str());
        i += 1;
    }
    proof {
        assert(spec_join_upto(lines, lines.len() as int) == spec_join(lines));
    }
    out
}

/// A longer diagnostic list never joins to a shorter string.
proof fn lemma_join_grows(lines: Seq<Seq<char>>, n: int)
    requires
        1 <= n <= lines.len(),
    ensures
        spec_join_upto(lines, n).len() >= lines[n - 1].len(),
        n >= 2 ==> spec_join_upto(lines, n).len() > spec_join_upto(lines, n - 1).len(),
{
}

proof fn lemma_nonempty_upto(lines: Seq<Seq<char>>, i: int, n: int)
    requires
        0 <= i < lines.len(),
        lines[i].len() > 0,
        i + 1 <= n <= lines.len(),
    ensures
        spec_join_upto(lines, n).len() > 0,
    decreases n,
{
    if n == i + 1 {
        lemma_join_grows(lines, n);
    } else {
        lemma_nonempty_upto(lines, i, n - 1);
        lemma_join_grows(lines, n);
    }
}

/// Failing compiles speak: as long as one diagnostic message is itself
/// non-empty, the joined error string is non-empty, and the error text is
/// exactly the joined diagnostics, not the fallback.
pub proof fn lemma_diagnostics_nonempty(lines: Seq<Seq<char>>, i: int)
    requires
        0 <= i < lines.len(),
        lines[i].len() > 0,
    ensures
        spec_join(lines).len() > 0,
        spec_error_message(lines) == spec_join(lines),
{
    lemma_nonempty_upto(lines, i, lines.len() as int);
}

/// Normalizes one compile into exactly one result, as the worker posts it
/// back: a compile that produced at least one page yields its first page;
/// a compile that produced an empty document is itself the error
/// "no frames"; a rejected source yields its diagnostics flattened to one
/// newline-separated, never-empty message. Never a crash, never a retry.
pub fn normalize_compiled(compiled: Result<Vec<Frame>, Vec<String>>) -> (r: Result<Frame, String>)
    ensures
        match compiled {
            Ok(pages) => {
                if pages@.len() > 0 {
                    r matches Ok(f) && f == pages@[0]
                } else {
                    r matches Err(m) && m@ == spec_no_frames()
                }
            },
            Err(diags) => r matches Err(m) && m@ == spec_error_message(diags.deep_view())
                && m@.len() > 0,
        },
{
    match compiled {
        Ok(pages) => {
            if pages.len() > 0 {
                let mut pages = pages;
                Ok(pages.remove(0))
            } else {
                Err(String::from_str("no frames"))
            }
        },
        Err(diags) => {
            let joined = join_diagnostics(&diags);
            if joined.as_str().unicode_len() == 0 {
                let fallback = String::from_str("compilation failed");
                proof {
                    reveal_strlit("compilation failed");
                    assert(fallback@.len() == 18);
                }
                Err(fallback)
            } else {
                Err(joined)
            }
        },
    }
}

} // verus!
