//! What is made of a line that the user typed: the line without its
//! trailing white space, and the answer to a yes-or-no question.

use vstd::prelude::*;

use crate::text::{char_is_whitespace, is_whitespace, lemma_trimmed_len_is, trim_end};

verus! {

/// The answer was neither yes nor no.
#[derive(Debug)]
pub struct InvalidResponse {}

impl InvalidResponse {
    /// What the user is told.
    pub fn message(&self) -> (r: &'static str)
        ensures
            r@ == "Response must either be \"y\" for yes or \"n\" for no"@,
    {
        "Response must either be \"y\" for yes or \"n\" for no"
    }
}

/// The first character of `s` that is not white space.
pub open spec fn first_visible(s: Seq<char>) -> Option<char>
    decreases s.len(),
{
    if s.len() == 0 {
        None
    } else if is_whitespace(s[0]) {
        first_visible(s.drop_first())
    } else {
        Some(s[0])
    }
}

/// The answer that a response gives: yes where its first character that is
/// not white space is `y` or `Y`, no where it is `n` or `N`, and none
/// otherwise.
pub open spec fn answer(response: Seq<char>) -> Option<bool> {
    match first_visible(response) {
        Some(c) => if c == 'y' || c == 'Y' {
            Some(true)
        } else if c == 'n' || c == 'N' {
            Some(false)
        } else {
            None
        },
        None => None,
    }
}

/// Removes the white space at the end of `input`.
pub fn strip_trailing_whitespace(input: String) -> (r: String)
    ensures
        r@ == trim_end(input@),
{
    let text = input.as_str();
    let mut keep: usize = text.unicode_len();
    loop
        invariant
            keep <= text@.len(),
            forall|i: int| keep <= i < text@.len() ==> is_whitespace(#[trigger] text@[i]),
        ensures
            keep <= text@.len(),
            keep > 0 ==> !is_whitespace(text@[keep - 1]),
            forall|i: int| keep <= i < text@.len() ==> is_whitespace(#[trigger] text@[i]),
        decreases keep,
    {
        if keep == 0 {
            break ;
        }
        if !char_is_whitespace(text.get_char(keep - 1)) {
            break ;
        }
        keep -= 1;
    }
    proof {
        lemma_trimmed_len_is(text@, keep as int);
    }
    String::from_str(text.substring_char(0, keep))
}

/// Reads the answer to a yes-or-no question from what the user typed.
/// White space is skipped and case is ignored, and only the first
/// character counts, so `yes`, `Yes` and ` y` all say yes.
pub fn delete(response: &str) -> (r: Result<bool, InvalidResponse>)
    ensures
        match r {
            Ok(yes) => answer(response@) == Some(yes),
            Err(_) => answer(response@) is None,
        },
{
    let n: usize = response.unicode_len();
    let mut i: usize = 0;
    assert(response@.skip(0) =~= response@);
    while i < n
        invariant
            i <= n,
            n == response@.len(),
            first_visible(response@) == first_visible(response@.skip(i as int)),
        decreases n - i,
    {
        let c = response.get_char(i);
        proof {
            let rest = response@.skip(i as int);
            assert(rest[0] == c);
            assert(rest.drop_first() =~= response@.skip(i + 1));
        }
        if !char_is_whitespace(c) {
            return if c == 'y' || c == 'Y' {
                Ok(true)
            } else if c == 'n' || c == 'N' {
                Ok(false)
            } else {
                Err(InvalidResponse {  })
            };
        }
        i += 1;
    }
    assert(response@.skip(n as int).len() == 0);
    Err(InvalidResponse {  })
}

} // verus!
