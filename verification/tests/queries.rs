use mailjet_api::requests::{
    ContactSearchRequest, ContactsListSearchRequest, MessageInformationRequest, MessageRequest,
};
use mailjet_api::url::QueryParam;
use url_builder::URLBuilder;

fn pairs(params: &[QueryParam]) -> Vec<(String, String)> {
    params.iter().map(|p| (p.name.clone(), p.value.clone())).collect()
}

fn pair(name: &str, value: &str) -> (String, String) {
    (name.to_string(), value.to_string())
}

#[test]
fn search_with_limit_and_sort_gives_exactly_two_pairs_in_order() {
    let search = ContactSearchRequest {
        limit: Some(10),
        sort: Some("-CreatedAt".to_string()),
        ..Default::default()
    };
    assert_eq!(pairs(&search.parameters()), vec![pair("Limit", "10"), pair("Sort", "-CreatedAt")]);
}

#[test]
fn empty_search_gives_no_pairs() {
    assert!(ContactSearchRequest::default().parameters().is_empty());
    assert!(ContactsListSearchRequest::default().parameters().is_empty());
    assert!(MessageRequest::default().parameters().is_empty());
    assert!(MessageInformationRequest::default().parameters().is_empty());
}

#[test]
fn contact_search_pairs_follow_the_field_order() {
    let search = ContactSearchRequest {
        campaign: Some(11),
        contacts_list: Some(-22),
        is_excluded_from_campaigns: Some(false),
        limit: Some(33),
        offset: Some(44),
        count_only: Some(1),
        sort: Some("Name".to_string()),
    };
    assert_eq!(
        pairs(&search.parameters()),
        vec![
            pair("Campaign", "11"),
            pair("ContactsList", "-22"),
            pair("IsExcludedFromCampaigns", "false"),
            pair("Limit", "33"),
            pair("Offset", "44"),
            pair("countOnly", "1"),
            pair("Sort", "Name"),
        ]
    );
}

#[test]
fn contacts_list_search_uses_each_field_s_own_wire_name() {
    let search = ContactsListSearchRequest {
        address: Some("addr".to_string()),
        exclude_id: Some(5),
        is_deleted: Some(true),
        name: Some("friends".to_string()),
        limit: Some(1),
        offset: Some(2),
        count_only: Some(1),
        sort: Some("ID".to_string()),
    };
    assert_eq!(
        pairs(&search.parameters()),
        vec![
            pair("Address", "addr"),
            pair("ExcludeID", "5"),
            pair("IsDeleted", "true"),
            pair("Name", "friends"),
            pair("Limit", "1"),
            pair("Offset", "2"),
            pair("countOnly", "1"),
            pair("Sort", "ID"),
        ]
    );
}

#[test]
fn message_search_pairs_follow_the_field_order() {
    let search = MessageRequest {
        campaign: Some(1),
        contact: Some(2),
        custom_id: Some("c".to_string()),
        destination: Some(3),
        from_ts: Some("2023-01-01T00:00:00".to_string()),
        from_type: Some(4),
        message_state: Some(5),
        message_status: Some(6),
        plan_subscription: Some(7),
        sender_id: Some(8),
        show_contact_alt: Some(true),
        show_custom_id: Some(false),
        show_subject: Some(true),
        to_ts: Some("t".to_string()),
        limit: Some(9),
        offset: Some(10),
        count_only: Some(-1),
        sort: Some("s".to_string()),
    };
    assert_eq!(
        pairs(&search.parameters()),
        vec![
            pair("Campaign", "1"),
            pair("Contact", "2"),
            pair("CustomID", "c"),
            pair("Destination", "3"),
            pair("FromTS", "2023-01-01T00:00:00"),
            pair("FromType", "4"),
            pair("MessageState", "5"),
            pair("MessageStatus", "6"),
            pair("PlanSubscription", "7"),
            pair("SenderID", "8"),
            pair("ShowContactAlt", "true"),
            pair("ShowCustomID", "false"),
            pair("ShowSubject", "true"),
            pair("ToTS", "t"),
            pair("Limit", "9"),
            pair("Offset", "10"),
            pair("countOnly", "-1"),
            pair("Sort", "s"),
        ]
    );
}

#[test]
fn message_information_search_pairs_follow_the_field_order() {
    let search = MessageInformationRequest {
        campaign_id: Some(1),
        contacts_list: Some(2),
        custom_campaign: Some("cc".to_string()),
        from: Some("a@b.c".to_string()),
        from_domain: Some("b.c".to_string()),
        from_id: Some(3),
        from_ts: Some("f".to_string()),
        from_type: Some(4),
        is_deleted: Some(false),
        is_newsletter_tool: Some(true),
        is_starred: Some(false),
        message_status: Some(5),
        period: Some("Day".to_string()),
        to_ts: Some("t".to_string()),
        limit: Some(6),
        offset: Some(7),
        count_only: Some(1),
        sort: Some("s".to_string()),
    };
    assert_eq!(
        pairs(&search.parameters()),
        vec![
            pair("CampaignID", "1"),
            pair("ContactsList", "2"),
            pair("CustomCampaign", "cc"),
            pair("From", "a@b.c"),
            pair("FromDomain", "b.c"),
            pair("FromID", "3"),
            pair("FromTS", "f"),
            pair("FromType", "4"),
            pair("IsDeleted", "false"),
            pair("IsNewsletterTool", "true"),
            pair("IsStarred", "false"),
            pair("MessageStatus", "5"),
            pair("Period", "Day"),
            pair("ToTS", "t"),
            pair("Limit", "6"),
            pair("Offset", "7"),
            pair("countOnly", "1"),
            pair("Sort", "s"),
        ]
    );
}

#[test]
fn text_values_pass_through_unescaped() {
    let search = ContactSearchRequest { sort: Some("a b&c=d".to_string()), ..Default::default() };
    assert_eq!(pairs(&search.parameters()), vec![pair("Sort", "a b&c=d")]);
}

#[test]
fn wide_identifiers_keep_every_digit() {
    let search = ContactSearchRequest { campaign: Some(i128::MAX), ..Default::default() };
    assert_eq!(
        pairs(&search.parameters()),
        vec![pair("Campaign", "170141183460469231731687303715884105727")]
    );
}

#[test]
fn parameters_go_into_the_builder_and_leave_the_rest() {
    let search = ContactSearchRequest { limit: Some(10), ..Default::default() };
    let mut ub = URLBuilder::new();
    ub.set_protocol("https").set_host("example.org").add_route("x");
    search.add_parameters_to_url(&mut ub);
    assert_eq!(ub.build(), "https://example.org/x?Limit=10");
}

#[test]
fn no_parameters_leave_the_builder_as_it_is() {
    let mut ub = URLBuilder::new();
    ub.set_protocol("https").set_host("example.org").add_param("kept", "1");
    MessageRequest::default().add_parameters_to_url(&mut ub);
    assert_eq!(ub.build(), "https://example.org?kept=1");
}
