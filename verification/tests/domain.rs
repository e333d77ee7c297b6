use zero2prod::domain::{MAX_NAME_LEN, SubscriberName, is_valid_name};

#[test]
fn parse_valid_name() {
    let valid_name = String::from("  \t \n  John-å  \t \n  å_Doe ?! \t \n  ");
    let subscriber_name = SubscriberName::parse(valid_name.clone()).unwrap();
    assert_eq!(
        valid_name,
        subscriber_name.as_ref(),
        "Rejected a valid name '{}'.",
        valid_name
    );
    assert!(
        SubscriberName::parse(valid_name.clone()).is_ok(),
        "Rejected a valid name '{}'.",
        valid_name
    );
}

#[test]
fn parse_rejects_empty_name() {
    let invalid_name = String::from("");
    assert!(
        SubscriberName::parse(invalid_name.clone()).is_err(),
        "Didn't reject the invalid name '{}'.",
        invalid_name
    );
}

#[test]
fn parse_rejects_names_with_invalid_characters() {
    for invalid_name in ['/', '(', ')', '"', '<', '>', '\\', '{', '}'] {
        assert!(
            SubscriberName::parse(invalid_name.to_string()).is_err(),
            "Didn't reject the invalid name '{}'.",
            invalid_name
        );
    }
}

#[test]
fn is_valid_name_passes_valid_names() {
    let max_long_name = "å".repeat(MAX_NAME_LEN);
    let valid_names = [
        "John",
        "John Doe",
        "  \t \n  John  \t \n  Doe \t \n  ",
        "å",
        max_long_name.as_str(),
        ". , ? ! : ; - _",
    ];
    for valid_name in valid_names {
        assert!(
            is_valid_name(valid_name),
            "Rejected a valid name '{}'.",
            valid_name
        );
    }
}

#[test]
fn is_valid_name_rejects_invalid_names() {
    let too_long_name = "a".repeat(MAX_NAME_LEN + 1);
    let invalid_names = [
        "",
        " ",
        " \t \r \n   ",
        too_long_name.as_str(),
        "/",
        "(",
        ")",
        "\"",
        "<",
        ">",
        "\\",
        "{",
        "}",
    ];
    for invalid_name in invalid_names {
        assert!(
            !is_valid_name(invalid_name),
            "Didn't reject the invalid name '{}'.",
            invalid_name
        );
    }
}

#[test]
fn name_length_is_counted_in_grapheme_clusters() {
    // 256 clusters of "a" plus a combining acute accent: 512 chars, but
    // exactly the allowed number of grapheme clusters.
    let accented = "a\u{0301}".repeat(MAX_NAME_LEN);
    assert_eq!(accented.chars().count(), 2 * MAX_NAME_LEN);
    assert!(SubscriberName::parse(accented).is_ok());

    let at_limit = "å".repeat(MAX_NAME_LEN);
    assert!(SubscriberName::parse(at_limit).is_ok());

    let over_limit = "å".repeat(MAX_NAME_LEN + 1);
    assert!(SubscriberName::parse(over_limit).is_err());
}

#[test]
fn parse_reports_the_offending_name() {
    match SubscriberName::parse(String::from("<")) {
        Err(message) => {
            assert_eq!(message, "\"<\" is not a valid subscriber name.");
        }
        Ok(_) => panic!("Didn't reject the invalid name '<'."),
    }
}
