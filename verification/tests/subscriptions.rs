use zero2prod::routes::subscriptions::{
    FormData, STATUS_BAD_REQUEST, STATUS_INTERNAL_SERVER_ERROR, STATUS_OK, SubscribeStep,
    build_subscription_record, completed_response, parse_subscriber, persistence_response,
    subscribe,
};

#[test]
fn parse_subscriber_round_trips_valid_input() {
    let form = FormData {
        email: String::from("ursula_le_guin@gmail.com"),
        name: String::from("le guin"),
    };
    let new_subscriber = parse_subscriber(form).unwrap();
    assert_eq!(new_subscriber.email.as_ref(), "ursula_le_guin@gmail.com");
    assert_eq!(new_subscriber.name.as_ref(), "le guin");
}

#[test]
fn parse_subscriber_keeps_surrounding_whitespace_in_the_name() {
    let form = FormData {
        email: String::from("a@b.com"),
        name: String::from("  le guin  "),
    };
    let new_subscriber = parse_subscriber(form).unwrap();
    assert_eq!(new_subscriber.name.as_ref(), "  le guin  ");
}

#[test]
fn parse_subscriber_reports_the_email_error_first() {
    let form = FormData {
        email: String::from("not-an-email"),
        name: String::from("<script>"),
    };
    match parse_subscriber(form) {
        Err(message) => {
            assert_eq!(message, "\"not-an-email\" is not a valid subscriber email.");
        }
        Ok(_) => panic!("Didn't reject an invalid submission."),
    }
}

#[test]
fn subscribe_returns_200_for_valid_form_data() {
    let step = subscribe(
        Some(String::from("ursula_le_guin@gmail.com")),
        Some(String::from("le guin")),
    );
    match step {
        SubscribeStep::Persist { subscriber } => {
            let record = build_subscription_record(&subscriber);
            assert_eq!(record.email, "ursula_le_guin@gmail.com");
            assert_eq!(record.name, "le guin");
            assert_eq!(persistence_response(true), STATUS_OK);
        }
        SubscribeStep::Reject { status } => {
            panic!("Rejected a valid submission with status {}.", status)
        }
    }
}

#[test]
fn subscribe_returns_400_when_data_is_missing() {
    let cases: [(Option<&str>, Option<&str>, &str); 3] = [
        (None, Some("le guin"), "missing the email"),
        (Some("ursula_le_guin@gmail.com"), None, "missing the name"),
        (None, None, "missing both name and email"),
    ];
    for (email, name, description) in cases {
        let step = subscribe(
            email.map(String::from),
            name.map(String::from),
        );
        match step {
            SubscribeStep::Reject { status } => {
                assert_eq!(
                    status, STATUS_BAD_REQUEST,
                    "Did not reject with 400 when payload was {}.",
                    description
                );
            }
            SubscribeStep::Persist { .. } => {
                panic!("Accepted a payload that was {}.", description)
            }
        }
    }
}

#[test]
fn subscribe_returns_400_for_a_forbidden_name_and_never_persists() {
    let step = subscribe(
        Some(String::from("a@b.com")),
        Some(String::from("<script>")),
    );
    match step {
        SubscribeStep::Reject { status } => assert_eq!(status, STATUS_BAD_REQUEST),
        SubscribeStep::Persist { .. } => panic!("Accepted a name with forbidden characters."),
    }
}

#[test]
fn persistence_failure_returns_500() {
    assert_eq!(persistence_response(false), STATUS_INTERNAL_SERVER_ERROR);
}

#[test]
fn dispatch_failure_does_not_change_an_accepted_response() {
    // Persistence succeeded, then the email provider answered 500: the
    // ingestion response stays 200.
    let accepted = persistence_response(true);
    assert_eq!(completed_response(accepted, false), STATUS_OK);
    assert_eq!(completed_response(accepted, true), STATUS_OK);
}

#[test]
fn subscription_records_carry_the_subscriber_unchanged() {
    let form = FormData {
        email: String::from("ursula_le_guin@gmail.com"),
        name: String::from("le guin"),
    };
    let new_subscriber = parse_subscriber(form).unwrap();
    let first = build_subscription_record(&new_subscriber);
    let second = build_subscription_record(&new_subscriber);
    assert_eq!(first.email, "ursula_le_guin@gmail.com");
    assert_eq!(first.name, "le guin");
    assert_ne!(first.id, second.id, "Fresh identifiers should differ.");
}
