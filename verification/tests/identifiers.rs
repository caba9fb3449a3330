use mailjet_api::data::{ContactIdentifier, ContactsListIdentifier};
use mailjet_api::text::{bool_to_string, i128_to_string, u128_to_string};

#[test]
fn contact_id_renders_as_decimal_digits() {
    assert_eq!(ContactIdentifier::ById(42).render(), "42");
}

#[test]
fn contact_email_renders_verbatim() {
    let id = ContactIdentifier::ByEmail("a@b.com".to_string());
    assert_eq!(id.render(), "a@b.com");
}

#[test]
fn contact_email_is_not_escaped() {
    let id = ContactIdentifier::ByEmail("a b/c?d=e&f@x.org".to_string());
    assert_eq!(id.render(), "a b/c?d=e&f@x.org");
}

#[test]
fn contact_to_string_is_render() {
    assert_eq!(ContactIdentifier::ById(7).to_string(), "7");
    assert_eq!(ContactIdentifier::ByEmail("x@y.z".to_string()).to_string(), "x@y.z");
}

#[test]
fn contact_id_zero_and_largest() {
    assert_eq!(ContactIdentifier::ById(0).render(), "0");
    assert_eq!(
        ContactIdentifier::ById(u128::MAX).render(),
        "340282366920938463463374607431768211455"
    );
}

#[test]
fn contacts_list_identifier_renders_both_variants() {
    assert_eq!(ContactsListIdentifier::ById(1234567890123).render(), "1234567890123");
    let by_address = ContactsListIdentifier::ByAddress("abc123".to_string());
    assert_eq!(by_address.render(), "abc123");
    assert_eq!(by_address.to_string(), "abc123");
}

#[test]
fn decimal_text_of_signed_integers() {
    assert_eq!(i128_to_string(0), "0");
    assert_eq!(i128_to_string(9), "9");
    assert_eq!(i128_to_string(10), "10");
    assert_eq!(i128_to_string(-1), "-1");
    assert_eq!(i128_to_string(-120), "-120");
    assert_eq!(i128_to_string(1_000_000_007), "1000000007");
    assert_eq!(i128_to_string(i128::MAX), i128::MAX.to_string());
    assert_eq!(i128_to_string(i128::MIN), i128::MIN.to_string());
    assert_eq!(i128_to_string(i64::MIN as i128), i64::MIN.to_string());
}

#[test]
fn decimal_text_of_unsigned_integers() {
    assert_eq!(u128_to_string(0), "0");
    assert_eq!(u128_to_string(18446744073709551616), "18446744073709551616");
    assert_eq!(u128_to_string(u128::MAX), u128::MAX.to_string());
}

#[test]
fn text_of_booleans() {
    assert_eq!(bool_to_string(true), "true");
    assert_eq!(bool_to_string(false), "false");
}
