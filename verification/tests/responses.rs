use mailjet_api::data::Contact;
use mailjet_api::parse::DecodeError;
use mailjet_api::responses::response::{decode_strict, status_is_success};
use mailjet_api::responses::{
    ContactResponse, ContactsListResponse, MessageHistoryResponse, Response, SendResponse,
};

#[test]
fn create_from_data_keeps_its_three_parts() {
    let r = Response::create_from_data(Some(201), "body".to_string(), Some(7u8));
    assert_eq!(r.http_code, Some(201));
    assert_eq!(r.raw_data, "body");
    assert_eq!(r.object, Some(7u8));
    let none: Response<u8> = Response::create_from_data(None, String::new(), None);
    assert_eq!(none.http_code, None);
    assert_eq!(none.raw_data, "");
    assert_eq!(none.object, None);
}

#[test]
fn tolerant_decoding_keeps_status_and_body_of_what_is_not_json() {
    let r = Response::<ContactResponse>::decode(Some(200), "not json".to_string());
    assert_eq!(r.object, None);
    assert_eq!(r.http_code, Some(200));
    assert_eq!(r.raw_data, "not json");
}

#[test]
fn tolerant_decoding_keeps_status_and_body_of_another_shape() {
    let r = Response::<ContactResponse>::decode(Some(500), "{\"Count\":\"many\"}".to_string());
    assert_eq!(r.object, None);
    assert_eq!(r.http_code, Some(500));
    assert_eq!(r.raw_data, "{\"Count\":\"many\"}");
}

#[test]
fn tolerant_decoding_reads_the_record_and_keeps_the_body() {
    let body = "{ \"Count\": 1, \"Data\": [ { \"Email\": \"a@b.c\", \"ID\": 5 } ], \"Total\": 1 }";
    let r = Response::<ContactResponse>::decode(Some(200), body.to_string());
    assert_eq!(r.raw_data, body);
    let page = r.object.unwrap();
    assert_eq!(page.count, 1);
    assert_eq!(page.total, 1);
    assert_eq!(
        page.data,
        vec![Contact { email: "a@b.c".to_string(), id: 5, ..Default::default() }]
    );
}

#[test]
fn tolerant_decoding_works_without_a_status() {
    let r = Response::<SendResponse>::decode(None, "{\"Messages\":[]}".to_string());
    assert_eq!(r.http_code, None);
    assert_eq!(r.object, Some(SendResponse::default()));
}

#[test]
fn provider_errors_are_decoded_like_any_answer() {
    let body = "{\"Messages\":[{\"Status\":\"error\",\"Errors\":[{\"ErrorMessage\":\"bad\"}]}]}";
    let r = Response::<SendResponse>::decode(Some(400), body.to_string());
    let answer = r.object.unwrap();
    assert_eq!(answer.messages[0].status, "error");
    assert_eq!(answer.messages[0].errors[0].error_message, "bad");
    assert_eq!(r.http_code, Some(400));
}

#[test]
fn history_answers_are_pages_of_events() {
    let body = "{\"Count\":1,\"Data\":[{\"EventType\":\"sent\",\"EventAt\":12}],\"Total\":1}";
    let r = Response::<MessageHistoryResponse>::decode(Some(200), body.to_string());
    let page = r.object.unwrap();
    assert_eq!(page.data[0].event_type, "sent");
    assert_eq!(page.data[0].event_at, 12);
}

#[test]
fn delete_succeeds_on_any_status_from_200_to_299() {
    assert_eq!(Response::<bool>::from_status(Some(204), String::new()).object, Some(true));
    assert_eq!(Response::<bool>::from_status(Some(404), String::new()).object, Some(false));
    assert_eq!(Response::<bool>::from_status(Some(200), String::new()).object, Some(true));
    assert!(status_is_success(Some(204)));
    assert!(!status_is_success(Some(404)));
    assert!(status_is_success(Some(200)));
}

#[test]
fn delete_success_has_sharp_edges() {
    assert!(!status_is_success(Some(199)));
    assert!(status_is_success(Some(299)));
    assert!(!status_is_success(Some(300)));
    assert!(!status_is_success(Some(0)));
    assert!(!status_is_success(Some(u32::MAX)));
    assert!(!status_is_success(None));
}

#[test]
fn delete_does_not_look_at_the_body() {
    let r = Response::<bool>::from_status(Some(204), "not json".to_string());
    assert_eq!(r.object, Some(true));
    assert_eq!(r.raw_data, "not json");
    assert_eq!(r.http_code, Some(204));
    let unknown = Response::<bool>::from_status(None, "{}".to_string());
    assert_eq!(unknown.object, Some(false));
    assert_eq!(unknown.http_code, None);
}

#[test]
fn strict_decoding_reads_a_page() {
    let page: ContactsListResponse =
        decode_strict("{\"Count\":1,\"Data\":[{\"Name\":\"L\",\"ID\":3}],\"Total\":4}").unwrap();
    assert_eq!(page.count, 1);
    assert_eq!(page.total, 4);
    assert_eq!(page.data[0].name, "L");
    assert_eq!(page.data[0].id, 3);
}

#[test]
fn strict_decoding_says_what_went_wrong() {
    assert_eq!(decode_strict::<ContactsListResponse>("not json"), Err(DecodeError::Syntax));
    assert_eq!(decode_strict::<ContactsListResponse>(""), Err(DecodeError::Syntax));
    assert_eq!(decode_strict::<ContactsListResponse>("[]"), Err(DecodeError::Shape));
    assert_eq!(
        decode_strict::<ContactsListResponse>("{\"Data\":[{\"ID\":\"x\"}]}"),
        Err(DecodeError::Shape)
    );
}

#[test]
fn message_answers_are_pages_of_message_records() {
    let body = "{\"Count\":1,\"Data\":[{\"ID\":5,\"Delay\":12.5,\"Subject\":\"s\"}],\"Total\":1}";
    let r = Response::<mailjet_api::responses::MessageResponse>::decode(Some(200), body.to_string());
    let page = r.object.unwrap();
    assert_eq!(page.data[0].id, 5);
    assert_eq!(page.data[0].delay, "12.5");
    assert_eq!(page.data[0].subject, "s");
    let info = "{\"Count\":1,\"Data\":[{\"SentCount\":2,\"SpamAssassinScore\":1}],\"Total\":1}";
    let r = Response::<mailjet_api::responses::MessageInformationResponse>::decode(
        Some(200),
        info.to_string(),
    );
    let page = r.object.unwrap();
    assert_eq!(page.data[0].sent_count, 2);
    assert_eq!(page.data[0].spam_assassin_score, "1");
}

#[test]
fn identifiers_beyond_64_bits_survive_both_policies() {
    let body = "{\"Count\":1,\"Data\":[{\"ID\":18446744073709551616}],\"Total\":1}";
    let r = Response::<ContactResponse>::decode(Some(200), body.to_string());
    assert_eq!(r.object.unwrap().data[0].id, 18446744073709551616);
    let page: ContactsListResponse = decode_strict(body).unwrap();
    assert_eq!(page.data[0].id, 18446744073709551616);
    let widest =
        "{\"Count\":1,\"Data\":[{\"ID\":170141183460469231731687303715884105727}],\"Total\":1}";
    let r = Response::<ContactResponse>::decode(Some(200), widest.to_string());
    assert_eq!(r.object.unwrap().data[0].id, i128::MAX);
}
