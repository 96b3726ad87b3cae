use debt_tracer::authentication::{check_password_hash, Credentials, HashCheck};
use debt_tracer::domain::{DebtCurrency, DebtDescription, DebtStatus, DebtUserId, NewUser};
use debt_tracer::routes::{SignUpError, SignUpJsonRequestBody};

#[test]
fn unknown_currency_is_rejected() {
    let currency = "deez".to_string();

    assert!(DebtCurrency::parse(currency).is_err());
}

#[test]
fn usd_is_parsed_successfully() {
    let currency = "USD".to_string();

    assert!(DebtCurrency::parse(currency).is_ok());
}

#[test]
fn currency_codes_are_read_in_any_case() {
    assert_eq!(DebtCurrency::parse("jpy".to_string()), Ok(DebtCurrency::JPY));
    assert_eq!(DebtCurrency::parse("Eur".to_string()), Ok(DebtCurrency::EUR));
    assert_eq!(DebtCurrency::parse("sgd".to_string()), Ok(DebtCurrency::SGD));
}

#[test]
fn unknown_currency_message_names_the_input() {
    assert_eq!(
        DebtCurrency::parse("deez".to_string()),
        Err("deez is not a valid currency".to_string())
    );
}

#[test]
fn currency_codes_are_shown_in_upper_case() {
    assert_eq!(DebtCurrency::KRW.as_str(), "KRW");
    assert_eq!(DebtCurrency::CHF.to_string(), "CHF".to_string());
    assert_eq!(DebtCurrency::from_code(&"NZD".to_string()), Some(DebtCurrency::NZD));
    assert_eq!(DebtCurrency::from_code(&"nzd".to_string()), None);
}

#[test]
fn debt_description_a_256_grapheme_long_description_is_valid() {
    let description = "ё".repeat(256);
    assert!(DebtDescription::parse(description).is_ok());
}

#[test]
fn a_description_longer_than_256_graphemes_is_rejected() {
    let description = "a".repeat(257);
    assert!(DebtDescription::parse(description).is_err());
}

#[test]
fn combining_marks_count_as_one_grapheme() {
    // 256 clusters of two characters each: 512 characters, within the limit.
    let description = "e\u{301}".repeat(256);
    assert!(DebtDescription::parse(description.clone()).is_ok());
    let longer = format!("{}x", description);
    assert_eq!(
        DebtDescription::parse(longer.clone()),
        Err(format!("{} is too long for a description", longer))
    );
}

#[test]
fn description_limit_is_on_the_given_count() {
    let ok = DebtDescription::with_grapheme_count("lunch".to_string(), 256).unwrap();
    assert_eq!(ok.as_str(), "lunch");
    assert!(DebtDescription::with_grapheme_count("lunch".to_string(), 257).is_err());
}

#[test]
fn debt_statuses_have_lower_case_names() {
    assert_eq!(DebtStatus::Pending.as_str(), "pending");
    assert_eq!(DebtStatus::Paid.to_string(), "paid".to_string());
    assert_eq!(DebtStatus::Unpaid.as_str(), "unpaid");
}

#[test]
fn debt_user_ids_are_read_from_uuid_text() {
    let id = DebtUserId::parse("67e55044-10b1-426f-9247-bb680e5fe0c8").unwrap();
    assert_eq!(id.as_u128(), 0x67e5504410b1426f9247bb680e5fe0c8);
    assert_eq!(
        DebtUserId::parse("Yamada"),
        Err("Yamada is not valid UUID".to_string())
    );
}

#[test]
fn new_user_hash_verifies_against_its_password() {
    let user = NewUser::new(
        "alice".to_string(),
        "correct".to_string(),
        "alice@example.com".to_string(),
    )
    .unwrap();
    assert_eq!(user.username, "alice");
    assert_eq!(user.email, "alice@example.com");
    assert!(uuid::Uuid::parse_str(&user.user_id).is_ok());
    assert!(user.password_hash.starts_with("$argon2id$v=19$m=15000,t=2,p=1$"));
    let right = Credentials::new("alice".to_string(), "correct".to_string());
    let wrong = Credentials::new("alice".to_string(), "incorrect".to_string());
    assert_eq!(check_password_hash(&user.password_hash, &right.password), HashCheck::Matched);
    assert_eq!(check_password_hash(&user.password_hash, &wrong.password), HashCheck::Mismatched);
}

#[test]
fn sign_up_body_becomes_a_new_user() {
    let body = SignUpJsonRequestBody {
        username: "bob".to_string(),
        password: "hunter2".to_string(),
        email: "bob@example.com".to_string(),
    };
    let user = NewUser::try_from_body(body).unwrap();
    assert_eq!(user.username, "bob");
    assert_ne!(user.password_hash, "hunter2");
    assert_eq!(SignUpError::UnexpectedError("x".to_string()).status_code(), 500);
}
