use mailjet_api::data::{Contact, Message, MessageData, MessageInformationData};
use mailjet_api::fields::{names_occur_once, NamedText};
use mailjet_api::json::{Json, Member};
use mailjet_api::number::is_number;
use mailjet_api::record::Record;
use mailjet_api::requests::SendRequest;
use mailjet_api::responses::{ContactResponse, MessageResponse};

fn named(name: &str, value: &str) -> NamedText {
    NamedText { name: name.to_string(), value: value.to_string() }
}

#[test]
fn texts_of_json_numbers_are_numbers() {
    for text in [
        "0", "-0", "7", "10", "-120", "0.0", "1.5", "-0.25", "0.10", "1e5", "1E5", "1e+5",
        "1E-5", "1.0e-10", "-2.50e+3", "170141183460469231731687303715884105728", "0e0",
    ] {
        assert!(is_number(text), "{}", text);
    }
}

#[test]
fn other_texts_are_no_numbers() {
    for text in [
        "", "-", "--1", "+1", "01", "-01", "00", "1.", ".5", "1..5", "1.5.5", "1e", "1e+", "1e-",
        "e5", "1e5.5", "1e+-5", "1 ", " 1", "1,5", "0x10", "abc", "NaN", "Infinity", "null",
        "1.e5", "1e5e5", "\u{661}", "1\u{661}", "-.5", "1.5-",
    ] {
        assert!(!is_number(text), "{}", text);
    }
}

#[test]
fn names_occur_once_in_a_table_without_repeats() {
    assert!(names_occur_once(&vec![]));
    assert!(names_occur_once(&vec![named("a", "1")]));
    assert!(names_occur_once(&vec![named("a", "1"), named("b", "1"), named("A", "1")]));
}

#[test]
fn a_repeated_name_is_found() {
    assert!(!names_occur_once(&vec![named("a", "1"), named("a", "2")]));
    assert!(!names_occur_once(&vec![named("a", "1"), named("b", "2"), named("a", "1")]));
    assert!(!names_occur_once(&vec![named("x", "1"), named("b", "2"), named("b", "3")]));
}

#[test]
fn default_records_are_valid() {
    assert!(Message::default().is_valid());
    assert!(MessageData::default().is_valid());
    assert!(MessageInformationData::default().is_valid());
    assert!(Contact::default().is_valid());
    assert!(SendRequest::default().is_valid());
    assert!(ContactResponse::default().is_valid());
}

#[test]
fn a_table_with_a_repeated_name_makes_a_message_invalid() {
    let once = Message {
        headers: vec![named("X-A", "1"), named("X-B", "2")],
        variables: vec![named("day", "Monday")],
        ..Default::default()
    };
    assert!(once.is_valid());
    let twice = Message {
        headers: vec![named("X-A", "1"), named("X-A", "2")],
        ..Default::default()
    };
    assert!(!twice.is_valid());
    let request = SendRequest { messages: vec![twice], ..Default::default() };
    assert!(!request.is_valid());
    let variables = Message {
        variables: vec![named("a", "1"), named("b", "2"), named("a", "3")],
        ..Default::default()
    };
    assert!(!variables.is_valid());
}

#[test]
fn a_measurement_that_is_no_number_makes_a_record_invalid() {
    let good = MessageData {
        delay: "12.5".to_string(),
        spamassassin_score: "-1e+3".to_string(),
        ..Default::default()
    };
    assert!(good.is_valid());
    let bad = MessageData { delay: "fast".to_string(), ..Default::default() };
    assert!(!bad.is_valid());
    let empty = MessageData {
        spamassassin_score: String::new(),
        ..Default::default()
    };
    assert!(!empty.is_valid());
    let page = MessageResponse { count: 1, data: vec![bad], total: 1 };
    assert!(!page.is_valid());
    let info = MessageInformationData {
        spam_assassin_score: "1.".to_string(),
        ..Default::default()
    };
    assert!(!info.is_valid());
}

#[test]
fn free_form_values_are_valid_where_their_numbers_are() {
    let good = Json::Array(vec![
        Json::Real("1.5".to_string()),
        Json::Object(vec![Member { name: "a".to_string(), value: Json::Real("2e+3".to_string()) }]),
        Json::Null,
    ]);
    assert!(good.can_be_written());
    assert!(good.is_valid());
    let bad = Json::Array(vec![
        Json::Int(1),
        Json::Object(vec![Member { name: "a".to_string(), value: Json::Real("x".to_string()) }]),
    ]);
    assert!(!bad.can_be_written());
    assert!(!Json::Real(String::new()).can_be_written());
    let info = MessageInformationData {
        spam_assassin_rules: bad,
        ..Default::default()
    };
    assert!(!info.is_valid());
}

#[test]
fn free_form_null_makes_a_send_request_invalid() {
    let null = SendRequest { globals: Some(Json::Null), ..Default::default() };
    assert!(!null.is_valid());
    let set = SendRequest {
        globals: Some(Json::Object(vec![])),
        ..Default::default()
    };
    assert!(set.is_valid());
    let bad = SendRequest {
        globals: Some(Json::Real("1e".to_string())),
        ..Default::default()
    };
    assert!(!bad.is_valid());
}

#[test]
fn what_is_read_from_text_is_valid() {
    let j = Json::parse(
        "{\"Count\":1,\"Data\":[{\"Delay\":1e5,\"SpamassassinScore\":-0.5,\"ID\":1}],\"Total\":1}",
    )
    .unwrap();
    let page = MessageResponse::from_json(&j).unwrap();
    assert_eq!(page.data[0].delay, "1e+5");
    assert!(page.is_valid());
    let text = page.to_json().to_text();
    assert_eq!(MessageResponse::from_json(&Json::parse(&text).unwrap()), Some(page));
}

#[test]
fn a_measurement_that_is_no_number_is_unreadable() {
    let bad = Json::Object(vec![Member {
        name: "Delay".to_string(),
        value: Json::Real("fast".to_string()),
    }]);
    assert_eq!(MessageData::from_json(&bad), None);
    let good = Json::Object(vec![Member {
        name: "Delay".to_string(),
        value: Json::Real("1.25".to_string()),
    }]);
    assert_eq!(MessageData::from_json(&good).unwrap().delay, "1.25");
}

#[test]
fn a_table_with_a_repeated_name_is_unreadable() {
    let header = |name: &str| Member { name: name.to_string(), value: Json::Text("v".to_string()) };
    let twice = Json::Object(vec![Member {
        name: "Headers".to_string(),
        value: Json::Object(vec![header("a"), header("b"), header("a")]),
    }]);
    assert_eq!(Message::from_json(&twice), None);
    let once = Json::Object(vec![Member {
        name: "Headers".to_string(),
        value: Json::Object(vec![header("a"), header("b")]),
    }]);
    assert_eq!(
        Message::from_json(&once).unwrap().headers,
        vec![named("a", "v"), named("b", "v")]
    );
}

#[test]
fn a_free_form_value_that_cannot_be_written_is_unreadable() {
    let bad = Json::Object(vec![Member {
        name: "Globals".to_string(),
        value: Json::Array(vec![Json::Real("1e".to_string())]),
    }]);
    assert_eq!(SendRequest::from_json(&bad), None);
    assert_eq!(Json::from_json(&Json::Real("x".to_string())), None);
    let number = Json::Real("1.5".to_string());
    assert_eq!(Json::from_json(&number), Some(Json::Real("1.5".to_string())));
    let rules = Json::Object(vec![Member {
        name: "SpamAssassinRules".to_string(),
        value: Json::Real("-".to_string()),
    }]);
    assert_eq!(MessageInformationData::from_json(&rules), None);
}

#[test]
fn every_record_read_from_text_is_valid() {
    let body = "{\"Messages\":[{\"From\":{\"Email\":\"a@b.c\"},\
                \"Headers\":{\"b\":\"1\",\"a\":\"2\"},\"Variables\":{\"x\":\"y\"}}],\
                \"Globals\":{\"n\":[1.5,2e3,-0]}}";
    let request = SendRequest::from_json(&Json::parse(body).unwrap()).unwrap();
    assert!(request.is_valid());
    let text = request.to_json().to_text();
    assert_eq!(SendRequest::from_json(&Json::parse(&text).unwrap()), Some(request));
}
