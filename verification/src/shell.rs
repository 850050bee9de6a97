//! Splitting a command line into words, as a POSIX shell would.

use vstd::prelude::*;
use crate::text::opt_words_view;

verus! {

/// The words that `shlex::split` finds in a command line, or `None` where
/// it reports the line as malformed (an unterminated quote or a trailing
/// backslash).
pub uninterp spec fn shlex_words(line: Seq<char>) -> Option<Seq<Seq<char>>>;

/// Calls `shlex::split`. The contract claims only that the result is a
/// function of the line's characters, named `shlex_words`; which words come
/// out is left to that name.
#[verifier::external_body]
pub(crate) fn split_words(line: &str) -> (r: Option<Vec<String>>)
    ensures
        opt_words_view(r) == shlex_words(line@),
{
    shlex::split(line)
}

} // verus!
