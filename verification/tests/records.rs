use mailjet_api::data::{
    Attachment, Contact, ContactsList, EmailAddress, Message, MessageHistoryData,
    MessageHistoryInformation, ResponseError, ResponseMessage, ResponseSuccess,
};
use mailjet_api::fields::NamedText;
use mailjet_api::json::{Json, Member};
use mailjet_api::record::Record;
use mailjet_api::requests::{ContactRequest, ContactsListRequest, SendRequest};
use mailjet_api::responses::generic_response::GenericResponse;
use mailjet_api::responses::SendResponse;

fn parsed(text: &str) -> Json {
    Json::parse(text).unwrap()
}

fn named(name: &str, value: &str) -> NamedText {
    NamedText { name: name.to_string(), value: value.to_string() }
}

#[test]
fn email_address_builders() {
    let only = EmailAddress::from_email("john.doe@example.com");
    assert_eq!(only.email, "john.doe@example.com");
    assert_eq!(only.name, "");
    let both = EmailAddress::from_email_and_name("jane.doe@example.com", "Jane Doe");
    assert_eq!(both.email, "jane.doe@example.com");
    assert_eq!(both.name, "Jane Doe");
}

#[test]
fn email_address_is_empty_only_without_address_and_name() {
    assert!(EmailAddress::default().is_empty());
    assert!(EmailAddress::from_email("").is_empty());
    assert!(!EmailAddress::from_email("a@b.c").is_empty());
    assert!(!EmailAddress::from_email_and_name("", "A").is_empty());
    assert!(!EmailAddress::from_email_and_name("a@b.c", "A").is_empty());
}

#[test]
fn email_address_is_written_with_both_fields() {
    let j = EmailAddress::from_email("a@b.c").to_json();
    assert_eq!(j.to_text(), "{\"Email\":\"a@b.c\",\"Name\":\"\"}");
}

#[test]
fn send_request_omits_absent_fields_and_keeps_required_ones() {
    let message = Message {
        from: EmailAddress::from_email("john.doe@example.com"),
        to: vec![EmailAddress::from_email_and_name("jane.doe@example.com", "Jane Doe")],
        subject: "Test email".to_string(),
        ..Default::default()
    };
    let request = SendRequest { messages: vec![message], ..Default::default() };
    let body = request.to_json().to_text();
    assert_eq!(
        body,
        "{\"Messages\":[{\"From\":{\"Email\":\"john.doe@example.com\",\"Name\":\"\"},\
         \"To\":[{\"Email\":\"jane.doe@example.com\",\"Name\":\"Jane Doe\"}],\
         \"Subject\":\"Test email\"}]}"
    );
    assert!(!body.contains("\"Cc\""));
    assert!(!body.contains("\"Bcc\""));
    assert!(!body.contains("\"TemplateID\""));
    assert!(body.contains("\"Messages\""));
    assert!(body.contains("\"To\""));
}

#[test]
fn required_fields_are_written_even_when_empty() {
    assert_eq!(SendRequest::default().to_json().to_text(), "{\"Messages\":[]}");
    assert_eq!(
        Message::default().to_json().to_text(),
        "{\"From\":{\"Email\":\"\",\"Name\":\"\"},\"To\":[],\"Subject\":\"\"}"
    );
}

#[test]
fn message_writes_every_field_that_is_set_in_the_order_of_the_fields() {
    let message = Message {
        from: EmailAddress::from_email_and_name("f@x.y", "F"),
        to: vec![EmailAddress::from_email("t@x.y")],
        cc: vec![EmailAddress::from_email("c@x.y")],
        bcc: vec![EmailAddress::from_email("b@x.y")],
        subject: "S".to_string(),
        text_part: "T".to_string(),
        html_part: "<p>H</p>".to_string(),
        template_id: Some(12),
        template_language: Some(true),
        template_error_reporting: Some(EmailAddress::from_email("e@x.y")),
        template_error_deliver: Some(false),
        attachments: vec![Attachment {
            content_type: "text/plain".to_string(),
            filename: "a.txt".to_string(),
            base64_content: "QQ==".to_string(),
            content_id: None,
        }],
        inlined_attachments: vec![Attachment {
            content_type: "image/png".to_string(),
            filename: "i.png".to_string(),
            base64_content: "Qg==".to_string(),
            content_id: Some("id1".to_string()),
        }],
        priority: Some(2),
        custom_campain: Some("camp".to_string()),
        deduplicate_campain: Some(true),
        track_opens: Some("enabled".to_string()),
        track_clicks: Some("disabled".to_string()),
        custom_id: Some("cid".to_string()),
        event_payload: Some("payload".to_string()),
        headers: vec![named("X-A", "1")],
        reply_to: Some(EmailAddress::from_email("r@x.y")),
        monitoring_category: Some("cat".to_string()),
        variables: vec![named("day", "Monday")],
    };
    assert_eq!(
        message.to_json().to_text(),
        "{\"From\":{\"Email\":\"f@x.y\",\"Name\":\"F\"},\
         \"To\":[{\"Email\":\"t@x.y\",\"Name\":\"\"}],\
         \"Cc\":[{\"Email\":\"c@x.y\",\"Name\":\"\"}],\
         \"Bcc\":[{\"Email\":\"b@x.y\",\"Name\":\"\"}],\
         \"Subject\":\"S\",\"TextPart\":\"T\",\"HTMLPart\":\"<p>H</p>\",\
         \"TemplateID\":12,\"TemplateLanguage\":true,\
         \"TemplateErrorReporting\":{\"Email\":\"e@x.y\",\"Name\":\"\"},\
         \"TemplateErrorDeliver\":false,\
         \"Attachments\":[{\"ContentType\":\"text/plain\",\"Filename\":\"a.txt\",\"Base64Content\":\"QQ==\"}],\
         \"InlinedAttachments\":[{\"ContentType\":\"image/png\",\"Filename\":\"i.png\",\
         \"Base64Content\":\"Qg==\",\"ContentID\":\"id1\"}],\
         \"Priority\":2,\"CustomCampaign\":\"camp\",\"DeduplicateCampaign\":true,\
         \"TrackOpens\":\"enabled\",\"TrackClicks\":\"disabled\",\"CustomID\":\"cid\",\
         \"EventPayload\":\"payload\",\"Headers\":{\"X-A\":\"1\"},\
         \"ReplyTo\":{\"Email\":\"r@x.y\",\"Name\":\"\"},\"MonitoringCategory\":\"cat\",\
         \"Variables\":{\"day\":\"Monday\"}}"
    );
    assert_eq!(Message::from_json(&message.to_json()), Some(message));
}

#[test]
fn template_language_is_a_boolean_under_its_wire_name() {
    let message = Message { template_language: Some(false), ..Default::default() };
    assert!(message.to_json().to_text().contains("\"TemplateLanguage\":false"));
    let read = Message::from_json(&parsed("{\"TemplateLanguage\":true}")).unwrap();
    assert_eq!(read.template_language, Some(true));
    assert_eq!(Message::from_json(&parsed("{\"TemplateLanguage\":\"en\"}")), None);
}

#[test]
fn send_request_writes_its_options_and_free_form_globals() {
    let globals = Json::object(vec![Member {
        name: "Subject".to_string(),
        value: Json::Text("Hi".to_string()),
    }]);
    let request = SendRequest {
        messages: vec![],
        advance_error_handling: Some(true),
        globals: Some(globals),
        sandbox_mode: Some(true),
    };
    assert_eq!(
        request.to_json().to_text(),
        "{\"Messages\":[],\"AdvanceErrorHandling\":true,\"Globals\":{\"Subject\":\"Hi\"},\
         \"SandboxMode\":true}"
    );
    assert_eq!(SendRequest::from_json(&request.to_json()), Some(request));
}

#[test]
fn free_form_null_is_read_as_absent() {
    let request = SendRequest { globals: Some(Json::Null), ..Default::default() };
    let written = request.to_json();
    assert_eq!(written.to_text(), "{\"Messages\":[],\"Globals\":null}");
    assert_eq!(SendRequest::from_json(&written).unwrap().globals, None);
}

#[test]
fn contact_request_always_writes_the_address() {
    assert_eq!(ContactRequest::default().to_json().to_text(), "{\"Email\":null}");
    let request = ContactRequest {
        is_excluded_from_campaigns: Some(true),
        name: Some("New Contact".to_string()),
        email: Some("passenger@mailjet.com".to_string()),
    };
    assert_eq!(
        request.to_json().to_text(),
        "{\"IsExcludedFromCampaigns\":true,\"Name\":\"New Contact\",\
         \"Email\":\"passenger@mailjet.com\"}"
    );
    assert_eq!(ContactRequest::from_json(&request.to_json()), Some(request));
    assert_eq!(
        ContactRequest::from_json(&ContactRequest::default().to_json()),
        Some(ContactRequest::default())
    );
}

#[test]
fn contacts_list_request_omits_what_is_absent() {
    assert_eq!(ContactsListRequest::default().to_json().to_text(), "{}");
    let request = ContactsListRequest { is_deleted: Some(false), name: Some("L".to_string()) };
    assert_eq!(request.to_json().to_text(), "{\"IsDeleted\":false,\"Name\":\"L\"}");
    assert_eq!(ContactsListRequest::from_json(&request.to_json()), Some(request));
}

#[test]
fn contact_is_read_from_the_wire_names() {
    let j = parsed(
        "{\"CreatedAt\":\"2023-01-01T00:00:00Z\",\"DeliveredCount\":3,\"Email\":\"a@b.c\",\
         \"ExclusionFromCampaignsUpdatedAt\":\"\",\"ID\":1234567890123,\"IsExcludedFromCampaigns\":true,\
         \"IsOptInPending\":false,\"IsSpamComplaining\":true,\"LastActivityAt\":\"x\",\
         \"LastUpdateAt\":\"y\",\"Name\":\"N\"}",
    );
    let contact = Contact::from_json(&j).unwrap();
    assert_eq!(
        contact,
        Contact {
            is_excluded_from_campaigns: true,
            name: "N".to_string(),
            created_at: "2023-01-01T00:00:00Z".to_string(),
            delivered_count: 3,
            email: "a@b.c".to_string(),
            exclusion_from_campaigns_updated_at: "".to_string(),
            id: 1234567890123,
            is_opt_in_pending: false,
            is_spam_complaining: true,
            last_activity_at: "x".to_string(),
            last_update_at: "y".to_string(),
        }
    );
}

#[test]
fn absent_fields_get_their_defaults() {
    assert_eq!(Contact::from_json(&parsed("{}")), Some(Contact::default()));
    assert_eq!(ContactsList::from_json(&parsed("{}")), Some(ContactsList::default()));
    assert_eq!(Message::from_json(&parsed("{}")), Some(Message::default()));
    assert_eq!(ResponseMessage::from_json(&parsed("{}")), Some(ResponseMessage::default()));
    assert_eq!(Attachment::from_json(&parsed("{}")), Some(Attachment::default()));
    let contact = Contact::default();
    assert_eq!(contact.name, "");
    assert_eq!(contact.id, 0);
    assert_eq!(contact.delivered_count, 0);
    assert!(!contact.is_excluded_from_campaigns);
}

#[test]
fn unknown_members_are_ignored() {
    let j = parsed("{\"Name\":\"N\",\"Unheard\":[1,2,{\"x\":1.5}],\"name\":\"lower\"}");
    let contact = Contact::from_json(&j).unwrap();
    assert_eq!(contact.name, "N");
    assert_eq!(contact, Contact { name: "N".to_string(), ..Default::default() });
}

#[test]
fn a_member_of_the_wrong_type_makes_the_value_unreadable() {
    assert_eq!(Contact::from_json(&parsed("{\"Name\":5}")), None);
    assert_eq!(Contact::from_json(&parsed("{\"Name\":null}")), None);
    assert_eq!(Contact::from_json(&parsed("{\"ID\":\"7\"}")), None);
    assert_eq!(Contact::from_json(&parsed("{\"ID\":1.5}")), None);
    assert_eq!(Contact::from_json(&parsed("{\"IsOptInPending\":0}")), None);
    assert_eq!(Contact::from_json(&parsed("{\"DeliveredCount\":true}")), None);
    assert_eq!(ResponseError::from_json(&parsed("{\"ErrorRelatedTo\":[\"a\",1]}")), None);
    assert_eq!(ResponseMessage::from_json(&parsed("{\"To\":{}}")), None);
    assert_eq!(ResponseMessage::from_json(&parsed("{\"To\":[{\"Email\":1}]}")), None);
    assert_eq!(Message::from_json(&parsed("{\"Headers\":{\"a\":1}}")), None);
    assert_eq!(Message::from_json(&parsed("{\"From\":\"a@b.c\"}")), None);
}

#[test]
fn what_is_no_object_is_unreadable() {
    assert_eq!(Contact::from_json(&parsed("[]")), None);
    assert_eq!(Contact::from_json(&parsed("null")), None);
    assert_eq!(Contact::from_json(&parsed("\"x\"")), None);
    assert_eq!(SendResponse::from_json(&parsed("3")), None);
}

#[test]
fn counters_must_fit_64_bits() {
    let fits = parsed("{\"DeliveredCount\":9223372036854775807}");
    assert_eq!(Contact::from_json(&fits).unwrap().delivered_count, i64::MAX);
    let too_big = parsed("{\"DeliveredCount\":9223372036854775808}");
    assert_eq!(Contact::from_json(&too_big), None);
    let least = parsed("{\"DeliveredCount\":-9223372036854775808}");
    assert_eq!(Contact::from_json(&least).unwrap().delivered_count, i64::MIN);
}

#[test]
fn identifiers_may_exceed_63_bits() {
    let j = parsed("{\"ID\":18446744073709551615}");
    assert_eq!(Contact::from_json(&j).unwrap().id, 18446744073709551615);
    let wide = Contact { id: i128::MAX, ..Default::default() };
    assert_eq!(Contact::from_json(&wide.to_json()), Some(wide));
}

#[test]
fn identifiers_beyond_64_bits_are_read_from_text() {
    let j = parsed("{\"ID\":18446744073709551616}");
    assert_eq!(Contact::from_json(&j).unwrap().id, 18446744073709551616);
    let j = parsed("{\"ID\":170141183460469231731687303715884105727}");
    assert_eq!(Contact::from_json(&j).unwrap().id, i128::MAX);
    let j = parsed("{\"ID\":-170141183460469231731687303715884105728}");
    assert_eq!(Contact::from_json(&j).unwrap().id, i128::MIN);
}

#[test]
fn identifiers_beyond_128_bits_are_unreadable() {
    let j = parsed("{\"ID\":170141183460469231731687303715884105728}");
    assert_eq!(Contact::from_json(&j), None);
}

#[test]
fn widest_identifiers_come_back_from_their_own_text() {
    let wide = Contact { id: i128::MAX, ..Default::default() };
    let text = wide.to_json().to_text();
    assert!(text.contains("\"ID\":170141183460469231731687303715884105727"));
    assert_eq!(Contact::from_json(&parsed(&text)), Some(wide));
    let least = ContactsList { id: i128::MIN, ..Default::default() };
    assert_eq!(ContactsList::from_json(&parsed(&least.to_json().to_text())), Some(least));
}

#[test]
fn counters_beyond_64_bits_stay_unreadable() {
    let j = parsed("{\"DeliveredCount\":18446744073709551616}");
    assert_eq!(Contact::from_json(&j), None);
}

#[test]
fn optional_fields_read_null_as_absent() {
    let j = parsed("{\"ContentID\":null,\"Filename\":\"f\"}");
    assert_eq!(
        Attachment::from_json(&j),
        Some(Attachment { filename: "f".to_string(), ..Default::default() })
    );
    let read = Message::from_json(&parsed("{\"ReplyTo\":null,\"Priority\":null}")).unwrap();
    assert_eq!(read.reply_to, None);
    assert_eq!(read.priority, None);
}

#[test]
fn records_come_back_from_their_own_text() {
    let contact = Contact {
        is_excluded_from_campaigns: true,
        name: "A \"quoted\" name".to_string(),
        created_at: "2023-03-04T05:06:07Z".to_string(),
        delivered_count: -5,
        email: "a@b.c".to_string(),
        exclusion_from_campaigns_updated_at: "never".to_string(),
        id: 99,
        is_opt_in_pending: true,
        is_spam_complaining: false,
        last_activity_at: "a".to_string(),
        last_update_at: "b".to_string(),
    };
    assert_eq!(Contact::from_json(&parsed(&contact.to_json().to_text())), Some(contact));

    let list = ContactsList {
        is_deleted: true,
        name: "L".to_string(),
        address: "addr".to_string(),
        created_at: "c".to_string(),
        id: 5,
        subscriber_count: 6,
    };
    assert_eq!(ContactsList::from_json(&parsed(&list.to_json().to_text())), Some(list));

    let event = MessageHistoryData {
        comment: "c".to_string(),
        event_at: 1700000000,
        event_type: "opened".to_string(),
        state: "s".to_string(),
        useragent: "u".to_string(),
        useragent_id: 7,
    };
    assert_eq!(
        event.to_json().to_text(),
        "{\"Comment\":\"c\",\"EventAt\":1700000000,\"EventType\":\"opened\",\"State\":\"s\",\
         \"Useragent\":\"u\",\"UseragentID\":7}"
    );
    assert_eq!(MessageHistoryData::from_json(&parsed(&event.to_json().to_text())), Some(event));

    let older = MessageHistoryInformation { event_at: 3, ..Default::default() };
    assert_eq!(MessageHistoryInformation::from_json(&older.to_json()), Some(older));
}

#[test]
fn omitted_fields_come_back_as_their_defaults() {
    let message = Message { subject: "only".to_string(), ..Default::default() };
    let written = message.to_json();
    assert_eq!(written.get("Cc"), None);
    assert_eq!(written.get("TextPart"), None);
    assert_eq!(written.get("Headers"), None);
    let read = Message::from_json(&written).unwrap();
    assert!(read.cc.is_empty());
    assert_eq!(read.text_part, "");
    assert!(read.headers.is_empty());
    assert_eq!(read, message);
}

#[test]
fn send_response_reports_errors_as_data() {
    let j = parsed(
        "{\"Messages\":[{\"Status\":\"error\",\"Errors\":[{\"ErrorIdentifier\":\"id\",\
         \"ErrorCode\":\"send-0003\",\"StatusCode\":400,\"ErrorMessage\":\"m\",\
         \"ErrorRelatedTo\":[\"From\",\"To\"]}]},\
         {\"Status\":\"success\",\"CustomID\":\"c\",\"To\":[{\"Email\":\"p@x.y\",\
         \"MessageUUID\":\"u\",\"MessageID\":1152921511742440156,\"MessageHref\":\"h\"}],\
         \"Cc\":[],\"Bcc\":[]}]}",
    );
    let response = SendResponse::from_json(&j).unwrap();
    assert_eq!(response.messages.len(), 2);
    assert_eq!(response.messages[0].status, "error");
    assert_eq!(
        response.messages[0].errors,
        vec![ResponseError {
            error_identifier: "id".to_string(),
            error_code: "send-0003".to_string(),
            status_code: 400,
            error_message: "m".to_string(),
            error_related_to: vec!["From".to_string(), "To".to_string()],
        }]
    );
    assert_eq!(response.messages[1].status, "success");
    assert_eq!(
        response.messages[1].to,
        vec![ResponseSuccess {
            email: "p@x.y".to_string(),
            message_uuid: "u".to_string(),
            message_id: 1152921511742440156,
            message_href: "h".to_string(),
        }]
    );
    assert_eq!(SendResponse::from_json(&response.to_json()), Some(response));
}

#[test]
fn envelope_does_not_hold_count_or_total_to_the_data() {
    let j = parsed("{\"Count\":5,\"Data\":[],\"Total\":100}");
    let page = GenericResponse::<Contact>::from_json(&j).unwrap();
    assert_eq!(page.count, 5);
    assert_eq!(page.total, 100);
    assert!(page.data.is_empty());
}

#[test]
fn envelope_defaults_and_order() {
    let empty = GenericResponse::<Contact>::from_json(&parsed("{}")).unwrap();
    assert_eq!(empty.count, 0);
    assert_eq!(empty.total, 0);
    assert!(empty.data.is_empty());
    assert_eq!(GenericResponse::<Contact>::default(), empty);
    let j = parsed("{\"Count\":2,\"Data\":[{\"Name\":\"b\"},{\"Name\":\"a\"}],\"Total\":2}");
    let page = GenericResponse::<Contact>::from_json(&j).unwrap();
    assert_eq!(page.data[0].name, "b");
    assert_eq!(page.data[1].name, "a");
    assert_eq!(
        GenericResponse { count: 1, data: vec![EmailAddress::from_email("a@b.c")], total: 9 }
            .to_json()
            .to_text(),
        "{\"Count\":1,\"Data\":[{\"Email\":\"a@b.c\",\"Name\":\"\"}],\"Total\":9}"
    );
}

#[test]
fn envelope_is_unreadable_where_a_record_is() {
    let j = parsed("{\"Count\":1,\"Data\":[{\"Name\":1}],\"Total\":1}");
    assert_eq!(GenericResponse::<Contact>::from_json(&j), None);
    assert_eq!(GenericResponse::<Contact>::from_json(&parsed("{\"Data\":{}}")), None);
    assert_eq!(GenericResponse::<Contact>::from_json(&parsed("{\"Count\":\"1\"}")), None);
}

#[test]
fn envelope_of_free_form_records_keeps_what_came() {
    let j = parsed("{\"Count\":1,\"Data\":[{\"Delay\":1.5,\"ID\":7}],\"Total\":1}");
    let page = GenericResponse::<Json>::from_json(&j).unwrap();
    assert_eq!(page.data.len(), 1);
    assert_eq!(page.data[0].get("Delay"), Some(&Json::Real("1.5".to_string())));
    assert_eq!(page.data[0].get("ID"), Some(&Json::Int(7)));
}

#[test]
fn measurements_are_kept_as_the_text_of_their_numbers() {
    let j = parsed("{\"Delay\":1.5,\"SpamassassinScore\":3,\"ID\":7,\"Status\":\"sent\"}");
    let data = mailjet_api::data::MessageData::from_json(&j).unwrap();
    assert_eq!(data.delay, "1.5");
    assert_eq!(data.spamassassin_score, "3");
    assert_eq!(data.id, 7);
    assert_eq!(data.status, "sent");
    assert_eq!(mailjet_api::data::MessageData::from_json(&data.to_json()), Some(data));
}

#[test]
fn absent_measurements_are_zero() {
    let data = mailjet_api::data::MessageData::from_json(&parsed("{}")).unwrap();
    assert_eq!(data.delay, "0.0");
    assert_eq!(data.spamassassin_score, "0.0");
    assert_eq!(data, mailjet_api::data::MessageData::default());
    assert!(data.to_json().to_text().contains("\"Delay\":0.0"));
}

#[test]
fn a_measurement_must_be_a_number() {
    assert_eq!(mailjet_api::data::MessageData::from_json(&parsed("{\"Delay\":\"1.5\"}")), None);
    assert_eq!(mailjet_api::data::MessageData::from_json(&parsed("{\"Delay\":null}")), None);
}

#[test]
fn message_information_keeps_free_form_rules() {
    let j = parsed(
        "{\"ID\":9,\"MessageSize\":1234,\"SpamAssassinRules\":{\"ALT\":\"\",\"Items\":[1,2.5]},\
         \"SpamAssassinScore\":0.25}",
    );
    let info = mailjet_api::data::MessageInformationData::from_json(&j).unwrap();
    assert_eq!(info.id, 9);
    assert_eq!(info.message_size, 1234);
    assert_eq!(info.spam_assassin_score, "0.25");
    assert_eq!(info.spam_assassin_rules.get("ALT"), Some(&Json::Text(String::new())));
    assert_eq!(
        info.spam_assassin_rules.get("Items"),
        Some(&Json::Array(vec![Json::Int(1), Json::Real("2.5".to_string())]))
    );
    assert_eq!(mailjet_api::data::MessageInformationData::from_json(&info.to_json()), Some(info));
    let blank = mailjet_api::data::MessageInformationData::from_json(&parsed("{}")).unwrap();
    assert_eq!(blank.spam_assassin_rules, Json::Null);
    assert_eq!(blank, mailjet_api::data::MessageInformationData::default());
}
