use worker_preview::cf::{format_error, status_code_context, ApiError, ApiFailure, Marks};

fn marks() -> Marks {
    Marks { warn: "!".to_string(), sleuth: "?".to_string() }
}

fn error(code: u16, message: &str) -> ApiError {
    ApiError { code, message: message.to_string() }
}

fn hint(code: u16) -> &'static str {
    match code {
        10000 => "check your credentials",
        _ => "",
    }
}

#[test]
fn errors_are_listed_one_per_line() {
    let e = ApiFailure::Error(400, vec![error(10000, "Authentication error"), error(7, "no")]);
    assert_eq!(
        format_error(&e, None::<&fn(u16) -> &'static str>, &marks()),
        "! Code 10000: Authentication error\n! Code 7: no"
    );
}

#[test]
fn hints_follow_their_errors() {
    let e = ApiFailure::Error(400, vec![error(10000, "Authentication error"), error(7, "no")]);
    assert_eq!(
        format_error(&e, Some(&hint), &marks()),
        "! Code 10000: Authentication error\n? check your credentials\n! Code 7: no\n?"
    );
}

#[test]
fn closures_can_give_hints() {
    let e = ApiFailure::Error(500, vec![error(1, "a")]);
    let helper = |code: u16| -> &'static str {
        if code == 1 {
            "one"
        } else {
            "other"
        }
    };
    assert_eq!(format_error(&e, Some(&helper), &marks()), "! Code 1: a\n? one");
}

#[test]
fn no_errors_give_an_empty_text() {
    let e = ApiFailure::Error(500, vec![]);
    assert_eq!(format_error(&e, Some(&hint), &marks()), "");
}

#[test]
fn trailing_white_space_of_the_last_message_is_cut() {
    let e = ApiFailure::Error(500, vec![error(0, "first  "), error(65535, "last \t ")]);
    assert_eq!(
        format_error(&e, None::<&fn(u16) -> &'static str>, &marks()),
        "! Code 0: first  \n! Code 65535: last"
    );
}

#[test]
fn failed_request_is_shown_with_its_reason() {
    let e = ApiFailure::Invalid("connection refused ".to_string());
    assert_eq!(format_error(&e, Some(&hint), &marks()), "! Error: connection refused ");
}

#[test]
fn two_statuses_have_guidance() {
    assert_eq!(
        status_code_context(413),
        Some("Returned status code 413, Payload Too Large. Please make sure your upload is less than 100MB in size")
    );
    assert_eq!(
        status_code_context(504),
        Some("Returned status code 504, Gateway Timeout. Please try again in a few seconds")
    );
    for status in [0u16, 200, 400, 412, 414, 500, 503, 505] {
        assert_eq!(status_code_context(status), None);
    }
}
