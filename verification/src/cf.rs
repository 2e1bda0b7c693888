//! Failures of the remote API as text for the user.

use vstd::prelude::*;

use crate::interactive::strip_trailing_whitespace;
use crate::text::{decimal, decimal_string, trim_end};

verus! {

/// One error of the remote API: its code and what it says.
#[derive(Debug)]
pub struct ApiError {
    pub code: u16,
    pub message: String,
}

/// A call to the remote API that did not succeed.
#[derive(Debug)]
pub enum ApiFailure {
    /// The API answered with this status and these errors.
    Error(u16, Vec<ApiError>),
    /// The request itself failed; the text says how.
    Invalid(String),
}

/// The marks put in front of the lines of a report. Which glyphs a terminal
/// can show is for the caller to find out.
#[derive(Debug)]
pub struct Marks {
    /// Leads the line of an error.
    pub warn: String,
    /// Leads the line of a hint.
    pub sleuth: String,
}

/// The line of one error: mark, code and message.
pub open spec fn error_line(warn: Seq<char>, code: u16, message: Seq<char>) -> Seq<char> {
    warn + " Code "@ + decimal(code as nat) + ": "@ + message + "\n"@
}

/// The line of one hint.
pub open spec fn hint_line(sleuth: Seq<char>, hint: Seq<char>) -> Seq<char> {
    sleuth + " "@ + hint + "\n"@
}

/// The lines of all errors in order, each followed by the line of its hint
/// where there are hints.
pub open spec fn error_lines(
    warn: Seq<char>,
    sleuth: Seq<char>,
    errors: Seq<ApiError>,
    hints: Option<Seq<Seq<char>>>,
) -> Seq<char>
    decreases errors.len(),
{
    if errors.len() == 0 {
        Seq::empty()
    } else {
        let last = errors.last();
        error_lines(
            warn,
            sleuth,
            errors.drop_last(),
            match hints {
                Some(h) => Some(h.drop_last()),
                None => None,
            },
        ) + error_line(warn, last.code, last.message@) + match hints {
            Some(h) => hint_line(sleuth, h.last()),
            None => Seq::empty(),
        }
    }
}

/// The text for a failure, given the hint for each of its errors: the
/// errors' lines without the white space at the end, or, for a request
/// that failed, the mark and what went wrong.
pub open spec fn failure_text(
    warn: Seq<char>,
    sleuth: Seq<char>,
    failure: ApiFailure,
    hints: Option<Seq<Seq<char>>>,
) -> Seq<char> {
    match failure {
        ApiFailure::Error(_, errors) => trim_end(error_lines(warn, sleuth, errors@, hints)),
        ApiFailure::Invalid(reason) => warn + " Error: "@ + reason@,
    }
}

/// Whether `hint` is a text that `helper` can give for `code`.
pub open spec fn gives<F: Fn(u16) -> &'static str>(helper: &F, code: u16, hint: Seq<char>) -> bool {
    exists|text: &'static str| #[trigger] helper.ensures((code,), text) && text@ == hint
}

/// Whether `hints` are what `helper` gave for the codes of `errors`, one
/// for each and in their order.
pub open spec fn hinted<F: Fn(u16) -> &'static str>(
    helper: &F,
    errors: Seq<ApiError>,
    hints: Seq<Seq<char>>,
) -> bool {
    &&& hints.len() == errors.len()
    &&& forall|i: int| 0 <= i < errors.len() ==> gives(helper, errors[i].code, #[trigger] hints[i])
}

/// Whether `text` is the text for `failure` with `hints`, and the hints
/// are the helper's.
pub open spec fn formats_with<F: Fn(u16) -> &'static str>(
    helper: &F,
    warn: Seq<char>,
    sleuth: Seq<char>,
    failure: ApiFailure,
    hints: Seq<Seq<char>>,
    text: Seq<char>,
) -> bool {
    &&& failure matches ApiFailure::Error(_, errors) ==> hinted(helper, errors@, hints)
    &&& text == failure_text(warn, sleuth, failure, Some(hints))
}

/// What a status says beyond the API's own errors, for the two statuses
/// that need a word: 413 and 504.
pub open spec fn status_context(status: u16) -> Option<Seq<char>> {
    if status == 413 {
        Some(
            "Returned status code 413, Payload Too Large. Please make sure your upload is less than 100MB in size"@,
        )
    } else if status == 504 {
        Some("Returned status code 504, Gateway Timeout. Please try again in a few seconds"@)
    } else {
        None
    }
}

/// The guidance for a status, if it has any.
pub fn status_code_context(status: u16) -> (r: Option<&'static str>)
    ensures
        match r {
            Some(text) => status_context(status) == Some(text@),
            None => status_context(status) is None,
        },
{
    if status == 413 {
        Some(
            "Returned status code 413, Payload Too Large. Please make sure your upload is less than 100MB in size",
        )
    } else if status == 504 {
        Some("Returned status code 504, Gateway Timeout. Please try again in a few seconds")
    } else {
        None
    }
}

/// Puts a failure into text. With a helper, each error is followed by the
/// hint that the helper gives for its code.
pub fn format_error<F: Fn(u16) -> &'static str>(
    e: &ApiFailure,
    err_helper: Option<&F>,
    marks: &Marks,
) -> (r: String)
    requires
        err_helper matches Some(helper) ==> forall|code: u16| helper.requires((code,)),
    ensures
        match err_helper {
            Some(helper) => exists|hints: Seq<Seq<char>>|
                formats_with(helper, marks.warn@, marks.sleuth@, *e, hints, r@),
            None => r@ == failure_text(marks.warn@, marks.sleuth@, *e, None),
        },
{
    match e {
        ApiFailure::Error(_, errors) => {
            let mut complete_err = String::new();
            let ghost mut hints: Seq<Seq<char>> = Seq::empty();
            let n = errors.len();
            let mut i: usize = 0;
            proof {
                assert(errors@.take(0) =~= Seq::<ApiError>::empty());
            }
            while i < n
                invariant
                    i <= n,
                    n == errors@.len(),
                    hints.len() == i,
                    err_helper matches Some(helper) ==> forall|code: u16| helper.requires((code,)),
                    err_helper matches Some(helper) ==> hinted(
                        helper,
                        errors@.take(i as int),
                        hints,
                    ),
                    complete_err@ == error_lines(
                        marks.warn@,
                        marks.sleuth@,
                        errors@.take(i as int),
                        if err_helper is Some {
                            Some(hints)
                        } else {
                            None
                        },
                    ),
                decreases n - i,
            {
                let error = &errors[i];
                let ghost before = complete_err@;
                let ghost hints_before = hints;
                complete_err.append(marks.warn.as_str());
                complete_err.append(" Code ");
                let code = decimal_string(error.code as u64);
                complete_err.append(code.as_str());
                complete_err.append(": ");
                complete_err.append(error.message.as_str());
                complete_err.append("\n");
                assert(complete_err@ =~= before + error_line(
                    marks.warn@,
                    error.code,
                    error.message@,
                ));
                match err_helper {
                    Some(annotate_help) => {
                        let suggestion_text = annotate_help(error.code);
                        complete_err.append(marks.sleuth.as_str());
                        complete_err.append(" ");
                        complete_err.append(suggestion_text);
                        complete_err.append("\n");
                        proof {
                            hints = hints.push(suggestion_text@);
                            assert(complete_err@ =~= before + error_line(
                                marks.warn@,
                                error.code,
                                error.message@,
                            ) + hint_line(marks.sleuth@, suggestion_text@));
                            let next = errors@.take(i + 1);
                            assert(annotate_help.ensures((error.code,), suggestion_text));
                            assert forall|j: int| 0 <= j < next.len() implies gives(
                                annotate_help,
                                next[j].code,
                                #[trigger] hints[j],
                            ) by {
                                if j < i {
                                    assert(errors@.take(i as int)[j] == next[j]);
                                    assert(hints_before[j] == hints[j]);
                                }
                            }
                        }
                    },
                    None => {
                        proof {
                            hints = hints.push(Seq::empty());
                        }
                    },
                }
                proof {
                    let next = errors@.take(i + 1);
                    assert(next.drop_last() =~= errors@.take(i as int));
                    assert(next.last() == *error);
                    assert(hints.drop_last() =~= hints_before);
                }
                i += 1;
            }
            proof {
                assert(errors@.take(n as int) =~= errors@);
            }
            let text = strip_trailing_whitespace(complete_err);
            proof {
                if let Some(helper) = err_helper {
                    assert(formats_with(helper, marks.warn@, marks.sleuth@, *e, hints, text@));
                }
            }
            text
        },
        ApiFailure::Invalid(reason) => {
            let mut text = marks.warn.clone();
            text.append(" Error: ");
            text.append(reason.as_str());
            proof {
                if let Some(helper) = err_helper {
                    assert(formats_with(
                        helper,
                        marks.warn@,
                        marks.sleuth@,
                        *e,
                        Seq::empty(),
                        text@,
                    ));
                }
            }
            text
        },
    }
}

} // verus!
