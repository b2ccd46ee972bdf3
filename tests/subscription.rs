use zero2prod_core::form::{Field, FormData, FormError};
use zero2prod_core::handlers::{after_insert, health_check, subscribe, Status, SubscribeStep};

fn pairs(items: &[(&str, &str)]) -> Vec<(String, String)> {
    items
        .iter()
        .map(|(k, v)| (k.to_string(), v.to_string()))
        .collect()
}

fn stored(step: SubscribeStep) -> Option<(String, String)> {
    match step {
        SubscribeStep::Store(f) => Some((f.name().to_string(), f.email().to_string())),
        SubscribeStep::Respond(_) => None,
    }
}

fn rejected(step: &SubscribeStep) -> bool {
    match step {
        SubscribeStep::Respond(r) => r.status == Status::BadRequest && r.body.is_empty(),
        SubscribeStep::Store(_) => false,
    }
}

#[test]
fn health_check_api_should_return_status_ok() {
    let reply = health_check();
    assert_eq!(reply.status, Status::Success);
    assert_eq!(reply.status.code(), 200);
    assert_eq!(reply.body.len(), 0);
}

#[test]
fn subscription_api_should_return_status_ok_for_valid_form_data() {
    let body = "name=jhon%20doe&email=jhondoe%40email.com";
    let step = subscribe(body.as_bytes());
    let (name, email) = stored(step).expect("a valid form is stored");
    assert_eq!(email, "jhondoe@email.com");
    assert_eq!(name, "jhon doe");
    let reply = after_insert(true);
    assert_eq!(reply.status.code(), 200);
    assert!(reply.body.is_empty());
}

#[test]
fn subscription_api_should_return_bad_request_status_when_missing_data() {
    let test_cases = vec![
        ("name=jhon%20doe", "missing email"),
        ("email=jhondoe%40email.com", "missing name"),
        ("", "missing name and email"),
    ];
    for (body, error_message) in test_cases {
        let step = subscribe(body.as_bytes());
        assert!(rejected(&step), "{}", error_message);
        if let SubscribeStep::Respond(r) = step {
            assert_eq!(400, r.status.code(), "{}", error_message);
        }
    }
}

#[test]
fn parse_reports_which_field_is_missing() {
    assert_eq!(
        FormData::parse(b"name=jhon%20doe").err(),
        Some(FormError::Missing(Field::Email))
    );
    assert_eq!(
        FormData::parse(b"email=jhondoe%40email.com").err(),
        Some(FormError::Missing(Field::Name))
    );
    assert_eq!(FormData::parse(b"").err(), Some(FormError::Missing(Field::Name)));
}

#[test]
fn parse_decodes_plus_as_space_and_ignores_other_keys() {
    let f = FormData::parse(b"city=rome&email=a%2Bb%40c.org&name=ann+lee").unwrap();
    assert_eq!(f.name(), "ann lee");
    assert_eq!(f.email(), "a+b@c.org");
}

#[test]
fn parse_rejects_blank_values() {
    assert_eq!(
        FormData::parse(b"name=+%20%09&email=a%40b.c").err(),
        Some(FormError::Blank(Field::Name))
    );
    assert_eq!(
        FormData::parse(b"name=ann&email=").err(),
        Some(FormError::Blank(Field::Email))
    );
    assert!(rejected(&subscribe(b"name=ann&email=%20")));
}

#[test]
fn parse_rejects_repeated_fields() {
    assert_eq!(
        FormData::parse(b"name=ann&name=bob&email=a%40b.c").err(),
        Some(FormError::Repeated(Field::Name))
    );
    assert_eq!(
        FormData::parse(b"name=ann&email=a%40b.c&email=x%40y.z").err(),
        Some(FormError::Repeated(Field::Email))
    );
}

#[test]
fn name_faults_come_before_email_faults() {
    assert_eq!(
        FormData::parse(b"name=%20&city=x").err(),
        Some(FormError::Blank(Field::Name))
    );
}

#[test]
fn from_pairs_keeps_values_verbatim() {
    let p = pairs(&[("email", " x@y.z "), ("name", "  Ann ")]);
    let f = FormData::from_pairs(&p).unwrap();
    assert_eq!(f.name(), "  Ann ");
    assert_eq!(f.email(), " x@y.z ");
}

#[test]
fn from_pairs_on_no_pairs_misses_the_name() {
    assert_eq!(
        FormData::from_pairs(&Vec::new()).err(),
        Some(FormError::Missing(Field::Name))
    );
}

#[test]
fn keys_are_matched_exactly() {
    let p = pairs(&[("Name", "ann"), ("name ", "ann"), ("email", "a@b.c")]);
    assert_eq!(
        FormData::from_pairs(&p).err(),
        Some(FormError::Missing(Field::Name))
    );
}

#[test]
fn failed_insert_gives_server_error() {
    let reply = after_insert(false);
    assert_eq!(reply.status, Status::ServerError);
    assert_eq!(reply.status.code(), 500);
    assert!(reply.body.is_empty());
}

#[test]
fn status_codes() {
    assert_eq!(Status::Success.code(), 200);
    assert_eq!(Status::BadRequest.code(), 400);
    assert_eq!(Status::ServerError.code(), 500);
}

#[test]
fn unicode_white_space_counts_as_blank() {
    assert_eq!(
        FormData::parse(b"name=%E3%80%80%C2%A0&email=a%40b.c").err(),
        Some(FormError::Blank(Field::Name))
    );
    assert!(zero2prod_core::form::blank("\u{2003} \t"));
    assert!(!zero2prod_core::form::blank(" a "));
    assert!(zero2prod_core::form::blank(""));
}

#[test]
fn same_text_compares_characters() {
    assert!(zero2prod_core::form::same_text("name", "name"));
    assert!(!zero2prod_core::form::same_text("name", "nam"));
    assert!(!zero2prod_core::form::same_text("name", "Name"));
}

#[test]
fn is_space_agrees_with_std() {
    for n in 0u32..0x4000 {
        if let Some(c) = char::from_u32(n) {
            assert_eq!(zero2prod_core::form::is_space(c), c.is_whitespace(), "{:x}", n);
        }
    }
}

#[test]
fn invalid_utf8_still_decodes() {
    let step = subscribe(b"name=%FFann&email=a%40b.c");
    let (name, email) = stored(step).expect("every body decodes");
    assert_eq!(name, "\u{FFFD}ann");
    assert_eq!(email, "a@b.c");
}
