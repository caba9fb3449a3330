use mailjet_api::data::{ContactIdentifier, ContactsListIdentifier, EmailAddress, Message};
use mailjet_api::requests::{
    ContactRequest, ContactSearchRequest, ContactsListRequest, ContactsListSearchRequest,
    MessageInformationRequest, MessageRequest, SendRequest,
};
use mailjet_api::{ApiCall, Mailjet, RequestType};

fn client() -> Mailjet {
    Mailjet::from_api_keys("key", "secret")
}

fn query_of(call: &ApiCall, base: &str) -> Vec<String> {
    assert!(call.url.starts_with(base));
    let rest = &call.url[base.len()..];
    assert!(rest.starts_with('?'));
    let mut pairs: Vec<String> = rest[1..].split('&').map(|p| p.to_string()).collect();
    pairs.sort();
    pairs
}

#[test]
fn client_keeps_its_keys() {
    let mailjet = Mailjet::from_api_keys("the key", "the secret");
    assert_eq!(mailjet.api_key, "the key");
    assert_eq!(mailjet.api_secret, "the secret");
}

#[test]
fn plain_calls_carry_method_url_and_body() {
    let mailjet = client();
    let get = mailjet.get("https://x".to_string());
    assert_eq!(get, ApiCall { method: RequestType::Get, url: "https://x".to_string(), body: None });
    let delete = mailjet.delete("https://y".to_string());
    assert_eq!(
        delete,
        ApiCall { method: RequestType::Delete, url: "https://y".to_string(), body: None }
    );
    let post = mailjet.post("https://z".to_string(), "{}".to_string());
    assert_eq!(
        post,
        ApiCall {
            method: RequestType::Post,
            url: "https://z".to_string(),
            body: Some("{}".to_string()),
        }
    );
    let put = mailjet.put("https://w".to_string(), "[]".to_string());
    assert_eq!(
        put,
        ApiCall {
            method: RequestType::Put,
            url: "https://w".to_string(),
            body: Some("[]".to_string()),
        }
    );
}

#[test]
fn send_posts_the_request_to_the_send_endpoint() {
    let message = Message {
        from: EmailAddress::from_email("john.doe@example.com"),
        to: vec![EmailAddress::from_email_and_name("jane.doe@example.com", "Jane Doe")],
        html_part: "<p>Hello world!</p>".to_string(),
        text_part: "Hello World!".to_string(),
        subject: "Test email".to_string(),
        ..Default::default()
    };
    let request = SendRequest { sandbox_mode: Some(true), messages: vec![message], ..Default::default() };
    let call = client().send(&request);
    assert_eq!(call.method, RequestType::Post);
    assert_eq!(call.url, "https://api.mailjet.com/v3.1/send");
    assert_eq!(
        call.body.unwrap(),
        "{\"Messages\":[{\"From\":{\"Email\":\"john.doe@example.com\",\"Name\":\"\"},\
         \"To\":[{\"Email\":\"jane.doe@example.com\",\"Name\":\"Jane Doe\"}],\
         \"Subject\":\"Test email\",\"TextPart\":\"Hello World!\",\
         \"HTMLPart\":\"<p>Hello world!</p>\"}],\"SandboxMode\":true}"
    );
}

#[test]
fn message_search_without_parameters_has_no_query_string() {
    let call = client().message(&MessageRequest::default());
    assert_eq!(call.method, RequestType::Get);
    assert_eq!(call.url, "https://api.mailjet.com/v3/REST/message");
    assert_eq!(call.body, None);
}

#[test]
fn message_search_with_one_parameter() {
    let search = MessageRequest { limit: Some(10), ..Default::default() };
    let call = client().message(&search);
    assert_eq!(call.url, "https://api.mailjet.com/v3/REST/message?Limit=10");
}

#[test]
fn message_search_with_several_parameters_holds_each_pair_once() {
    let search = MessageRequest {
        campaign: Some(5),
        show_subject: Some(true),
        sort: Some("ArrivedAt".to_string()),
        ..Default::default()
    };
    let call = client().message(&search);
    assert_eq!(
        query_of(&call, "https://api.mailjet.com/v3/REST/message"),
        vec!["Campaign=5", "ShowSubject=true", "Sort=ArrivedAt"]
    );
}

#[test]
fn message_by_id() {
    let call = client().message_from_id(1152921511742440156);
    assert_eq!(call.method, RequestType::Get);
    assert_eq!(call.url, "https://api.mailjet.com/v3/REST/message/1152921511742440156");
    assert_eq!(call.body, None);
}

#[test]
fn message_history_by_id() {
    let call = client().message_history_from_id(42);
    assert_eq!(call.method, RequestType::Get);
    assert_eq!(call.url, "https://api.mailjet.com/v3/REST/messagehistory/42");
    assert_eq!(call.body, None);
}

#[test]
fn message_information_search_and_by_id() {
    let search = MessageInformationRequest { campaign_id: Some(7), ..Default::default() };
    let call = client().message_information(&search);
    assert_eq!(call.method, RequestType::Get);
    assert_eq!(call.url, "https://api.mailjet.com/v3/REST/messageinformation?CampaignID=7");
    let one = client().message_information_from_id(-3);
    assert_eq!(one.url, "https://api.mailjet.com/v3/REST/messageinformation/-3");
    assert_eq!(one.method, RequestType::Get);
}

#[test]
fn contact_create_posts_the_request() {
    let request = ContactRequest { email: Some("a@b.c".to_string()), ..Default::default() };
    let call = client().contact_create(&request);
    assert_eq!(call.method, RequestType::Post);
    assert_eq!(call.url, "https://api.mailjet.com/v3/REST/contact");
    assert_eq!(call.body.unwrap(), "{\"Email\":\"a@b.c\"}");
}

#[test]
fn contact_create_does_not_validate() {
    let call = client().contact_create(&ContactRequest::default());
    assert_eq!(call.body.unwrap(), "{\"Email\":null}");
}

#[test]
fn contact_search_with_limit_and_sort() {
    let search = ContactSearchRequest {
        limit: Some(10),
        sort: Some("-CreatedAt".to_string()),
        ..Default::default()
    };
    let call = client().contact_search(&search);
    assert_eq!(call.method, RequestType::Get);
    assert_eq!(
        query_of(&call, "https://api.mailjet.com/v3/REST/contact"),
        vec!["Limit=10", "Sort=-CreatedAt"]
    );
}

#[test]
fn contact_by_id_or_email() {
    let by_id = client().contact_search_from_id_or_email(&ContactIdentifier::ById(42));
    assert_eq!(by_id.method, RequestType::Get);
    assert_eq!(by_id.url, "https://api.mailjet.com/v3/REST/contact/42");
    let by_email =
        client().contact_search_from_id_or_email(&ContactIdentifier::ByEmail("a@b.com".to_string()));
    assert_eq!(by_email.url, "https://api.mailjet.com/v3/REST/contact/a@b.com");
    assert_eq!(by_email.body, None);
}

#[test]
fn contact_update_puts_the_request() {
    let request = ContactRequest { name: Some("Camille".to_string()), ..Default::default() };
    let call = client().contact_update(&ContactIdentifier::ByEmail("a@b.com".to_string()), &request);
    assert_eq!(call.method, RequestType::Put);
    assert_eq!(call.url, "https://api.mailjet.com/v3/REST/contact/a@b.com");
    assert_eq!(call.body.unwrap(), "{\"Name\":\"Camille\",\"Email\":null}");
}

#[test]
fn contact_delete_uses_the_newer_interface() {
    let call = client().contact_delete(77);
    assert_eq!(call.method, RequestType::Delete);
    assert_eq!(call.url, "https://api.mailjet.com/v4/contacts/77");
    assert_eq!(call.body, None);
}

#[test]
fn contacts_list_create_posts_the_request() {
    let request = ContactsListRequest { name: Some("List 1".to_string()), ..Default::default() };
    let call = client().contacts_list_create(&request);
    assert_eq!(call.method, RequestType::Post);
    assert_eq!(call.url, "https://api.mailjet.com/v3/REST/contactslist");
    assert_eq!(call.body.unwrap(), "{\"Name\":\"List 1\"}");
}

#[test]
fn contacts_list_search_and_by_identifier() {
    let call = client().contacts_list_search(&ContactsListSearchRequest::default());
    assert_eq!(call.method, RequestType::Get);
    assert_eq!(call.url, "https://api.mailjet.com/v3/REST/contactslist");
    let named = ContactsListSearchRequest { name: Some("friends".to_string()), ..Default::default() };
    assert_eq!(
        client().contacts_list_search(&named).url,
        "https://api.mailjet.com/v3/REST/contactslist?Name=friends"
    );
    let one = client().contacts_list_search_from_id_or_address(&ContactsListIdentifier::ById(9));
    assert_eq!(one.url, "https://api.mailjet.com/v3/REST/contactslist/9");
    assert_eq!(one.method, RequestType::Get);
    let by_address = client().contacts_list_search_from_id_or_address(
        &ContactsListIdentifier::ByAddress("x1y2".to_string()),
    );
    assert_eq!(by_address.url, "https://api.mailjet.com/v3/REST/contactslist/x1y2");
}

#[test]
fn contacts_list_update_and_delete() {
    let request = ContactsListRequest { is_deleted: Some(true), ..Default::default() };
    let update = client().contacts_list_update(&ContactsListIdentifier::ById(9), &request);
    assert_eq!(update.method, RequestType::Put);
    assert_eq!(update.url, "https://api.mailjet.com/v3/REST/contactslist/9");
    assert_eq!(update.body.unwrap(), "{\"IsDeleted\":true}");
    let delete = client().contacts_list_delete(&ContactsListIdentifier::ById(9));
    assert_eq!(delete.method, RequestType::Delete);
    assert_eq!(delete.url, "https://api.mailjet.com/v3/REST/contactslist/9");
    assert_eq!(delete.body, None);
}

#[test]
fn calls_with_a_body_announce_json() {
    let mailjet = client();
    let json = vec!["Content-Type: application/json".to_string()];
    assert_eq!(mailjet.post("u".to_string(), "{}".to_string()).headers(), json);
    assert_eq!(mailjet.put("u".to_string(), "{}".to_string()).headers(), json);
    assert!(mailjet.get("u".to_string()).headers().is_empty());
    assert!(mailjet.delete("u".to_string()).headers().is_empty());
}
