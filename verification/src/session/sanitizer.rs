//! Clean-up of the messages that a session reads.

use crate::sanitizer::cleaned;
use crate::text::truncated;
use vstd::prelude::*;

verus! {

/// Makes `content` fit to be read by a session: what
/// [`crate::sanitizer::sanitize`] does.
pub fn sanitize(content: &str, limit: usize) -> (text: String)
    ensures
        text@ == truncated(cleaned(content@), limit as int),
        text@.len() <= limit,
{
    crate::sanitizer::sanitize(content, limit)
}

} // verus!
