//! The client: which call each operation makes.
//!
//! The client makes no call itself. Each operation gives the call to make:
//! the HTTP method, the URL and the body. Whoever holds the transport makes
//! the call, with the two keys as user name and password, and hands status
//! and body to [`Response::decode`](crate::responses::Response::decode), to
//! [`decode_strict`](crate::responses::response::decode_strict) or to
//! [`Response::from_status`](crate::responses::Response::from_status).

use crate::data::{ContactIdentifier, ContactsListIdentifier};
use crate::json::json_text;
use crate::query::Pairs;
use crate::record::{texts_of, Record};
use crate::requests::{
    ContactRequest, ContactSearchRequest, ContactsListRequest, ContactsListSearchRequest,
    MessageInformationRequest, MessageRequest, SendRequest,
};
use crate::text::{decimal, i128_to_string};
use crate::url::{
    add_route, is_order_of, is_url_of, no_params, port_text, query_text, routes_text, set_host,
    set_protocol, url_host, url_params, url_port, url_protocol, url_routes, url_text, with_pairs,
};
use url_builder::URLBuilder;
use vstd::prelude::*;

verus! {

/// The client: the two keys of an account.
#[derive(Clone, Debug)]
pub struct Mailjet {
    /// The API key, sent as the user name.
    pub api_key: String,
    /// The secret key, sent as the password.
    pub api_secret: String,
}

/// The HTTP methods that the client uses.
#[derive(Clone, Copy, Debug, PartialEq, Eq)]
pub enum RequestType {
    /// Reads.
    Get,
    /// Makes or sends.
    Post,
    /// Changes.
    Put,
    /// Removes.
    Delete,
}

/// One call to make: the method, the URL, and the JSON body where the method
/// takes one.
#[derive(Clone, Debug, PartialEq, Eq)]
pub struct ApiCall {
    pub method: RequestType,
    pub url: String,
    pub body: Option<String>,
}

impl ApiCall {
    /// Whether the call carries a JSON body: the methods that make or change
    /// do, the others do not.
    pub open spec fn sends_json(&self) -> bool {
        self.method is Post || self.method is Put
    }

    /// The header lines of the call: the content type of JSON where the call
    /// carries a body, and none else.
    pub fn headers(&self) -> (lines: Vec<String>)
        ensures
            texts_of(lines@) == if self.sends_json() {
                seq!["Content-Type: application/json"@]
            } else {
                Seq::empty()
            },
    {
        let mut lines: Vec<String> = Vec::new();
        match self.method {
            RequestType::Post | RequestType::Put => {
                lines.push(String::from_str("Content-Type: application/json"));
                assert(texts_of(lines@) =~= seq!["Content-Type: application/json"@]);
            },
            _ => {
                assert(texts_of(lines@) =~= Seq::<Seq<char>>::empty());
            },
        }
        lines
    }
}

/// The URL of these routes at the service.
pub open spec fn api_url(routes: Seq<Seq<char>>) -> Seq<char> {
    "https://api.mailjet.com"@ + routes_text(routes)
}

/// `url` is `base` followed by the query string of `pairs`, a later pair
/// taking the place of an earlier one of the same name. The order in which
/// the pairs stand in the query string is not said.
pub open spec fn is_query_url(url: Seq<char>, base: Seq<char>, pairs: Pairs) -> bool {
    exists|order: Seq<Seq<char>>|
        is_order_of(order, with_pairs(no_params(), pairs)) && url == base + #[trigger] query_text(
            with_pairs(no_params(), pairs),
            order,
        )
}

/// The body that a record is sent as: the compact text of its JSON object.
pub open spec fn body_of<T: Record>(v: T::V) -> Seq<char> {
    json_text(T::json_of(v))
}

/// Without a parameter the query string is empty, and the URL of a builder
/// is the URL of its routes.
pub proof fn lemma_plain_url(url: Seq<char>, routes: Seq<Seq<char>>)
    requires
        is_url_of(url, "https"@, "api.mailjet.com"@, 0, routes, no_params()),
    ensures
        url == api_url(routes),
{
    let order = choose|order: Seq<Seq<char>>|
        is_order_of(order, no_params()) && url == #[trigger] url_text(
            "https"@,
            "api.mailjet.com"@,
            0,
            routes,
            no_params(),
            order,
        );
    if order.len() > 0 {
        assert(order.to_set().contains(order[0]));
    }
    lemma_url_parts(routes, no_params(), order);
    assert(url =~= api_url(routes));
}

/// The URL of a builder is the URL of its routes followed by the query
/// string.
pub proof fn lemma_url_parts(
    routes: Seq<Seq<char>>,
    params: Map<Seq<char>, Seq<char>>,
    order: Seq<Seq<char>>,
)
    ensures
        url_text("https"@, "api.mailjet.com"@, 0, routes, params, order) == api_url(routes)
            + query_text(params, order),
{
    reveal_strlit("https");
    reveal_strlit("api.mailjet.com");
    reveal_strlit("https://api.mailjet.com");
    assert("https"@ + seq![':', '/', '/'] + "api.mailjet.com"@ + port_text(0)
        =~= "https://api.mailjet.com"@);
    assert(url_text("https"@, "api.mailjet.com"@, 0, routes, params, order) =~= api_url(routes)
        + query_text(params, order));
}

/// With parameters the URL of a builder is the URL of its routes followed by
/// their query string.
pub proof fn lemma_query_url(url: Seq<char>, routes: Seq<Seq<char>>, pairs: Pairs)
    requires
        is_url_of(
            url,
            "https"@,
            "api.mailjet.com"@,
            0,
            routes,
            with_pairs(no_params(), pairs),
        ),
    ensures
        is_query_url(url, api_url(routes), pairs),
{
    let params = with_pairs(no_params(), pairs);
    let order = choose|order: Seq<Seq<char>>|
        is_order_of(order, params) && url == #[trigger] url_text(
            "https"@,
            "api.mailjet.com"@,
            0,
            routes,
            params,
            order,
        );
    lemma_url_parts(routes, params, order);
    assert(url == api_url(routes) + query_text(params, order));
}

/// A builder for the URL of a resource of the REST interface.
fn rest_builder(resource: &str) -> (ub: URLBuilder)
    ensures
        url_protocol(ub) == "https"@,
        url_host(ub) == "api.mailjet.com"@,
        url_port(ub) == 0,
        url_routes(ub) == seq!["v3"@, "REST"@, resource@],
        url_params(ub) == no_params(),
{
    let mut ub = URLBuilder::new();
    set_protocol(&mut ub, "https");
    set_host(&mut ub, "api.mailjet.com");
    add_route(&mut ub, "v3");
    add_route(&mut ub, "REST");
    add_route(&mut ub, resource);
    assert(url_routes(ub) =~= seq!["v3"@, "REST"@, resource@]);
    ub
}

/// The URL of one item of a resource of the REST interface.
fn item_url(resource: &str, item: &str) -> (url: String)
    ensures
        url@ == api_url(seq!["v3"@, "REST"@, resource@, item@]),
{
    let mut ub = rest_builder(resource);
    add_route(&mut ub, item);
    assert(url_routes(ub) =~= seq!["v3"@, "REST"@, resource@, item@]);
    let ghost routes = url_routes(ub);
    let url = ub.build();
    proof {
        lemma_plain_url(url@, routes);
    }
    url
}

impl Mailjet {
    /// A client with the keys of an account.
    pub fn from_api_keys(key: &str, secret: &str) -> (client: Self)
        ensures
            client.api_key@ == key@,
            client.api_secret@ == secret@,
    {
        Mailjet { api_key: String::from_str(key), api_secret: String::from_str(secret) }
    }

    /// A GET call to a URL.
    pub fn get(&self, url: String) -> (call: ApiCall)
        ensures
            call.method is Get,
            call.url == url,
            call.body is None,
    {
        ApiCall { method: RequestType::Get, url, body: None }
    }

    /// A DELETE call to a URL.
    pub fn delete(&self, url: String) -> (call: ApiCall)
        ensures
            call.method is Delete,
            call.url == url,
            call.body is None,
    {
        ApiCall { method: RequestType::Delete, url, body: None }
    }

    /// A POST call to a URL, with a JSON body.
    pub fn post(&self, url: String, data: String) -> (call: ApiCall)
        ensures
            call.method is Post,
            call.url == url,
            call.body == Some(data),
    {
        ApiCall { method: RequestType::Post, url, body: Some(data) }
    }

    /// A PUT call to a URL, with a JSON body.
    pub fn put(&self, url: String, data: String) -> (call: ApiCall)
        ensures
            call.method is Put,
            call.url == url,
            call.body == Some(data),
    {
        ApiCall { method: RequestType::Put, url, body: Some(data) }
    }

    /// Sends messages. The answer is a
    /// [`SendResponse`](crate::responses::SendResponse).
    pub fn send(&self, request: &SendRequest) -> (call: ApiCall)
        ensures
            call.method is Post,
            call.url@ == "https://api.mailjet.com/v3.1/send"@,
            call.body matches Some(b) && b@ == body_of::<SendRequest>(request@),
    {
        let body = request.to_json().to_text();
        self.post(String::from_str("https://api.mailjet.com/v3.1/send"), body)
    }

    /// Asks for the messages that a search finds. The answer is a
    /// [`MessageResponse`](crate::responses::MessageResponse).
    pub fn message(&self, search: &MessageRequest) -> (call: ApiCall)
        ensures
            call.method is Get,
            is_query_url(
                call.url@,
                api_url(seq!["v3"@, "REST"@, "message"@]),
                search.query_pairs(),
            ),
            call.body is None,
    {
        let mut ub = rest_builder("message");
        search.add_parameters_to_url(&mut ub);
        let ghost routes = url_routes(ub);
        let url = ub.build();
        proof {
            lemma_query_url(url@, routes, search.query_pairs());
        }
        self.get(url)
    }

    /// Asks for one message. The answer is a
    /// [`MessageResponse`](crate::responses::MessageResponse).
    pub fn message_from_id(&self, message_id: i128) -> (call: ApiCall)
        ensures
            call.method is Get,
            call.url@ == api_url(seq!["v3"@, "REST"@, "message"@, decimal(message_id as int)]),
            call.body is None,
    {
        let id = i128_to_string(message_id);
        self.get(item_url("message", id.as_str()))
    }

    /// Asks for the history of one message. The answer is a
    /// [`MessageHistoryResponse`](crate::responses::MessageHistoryResponse).
    pub fn message_history_from_id(&self, message_id: i128) -> (call: ApiCall)
        ensures
            call.method is Get,
            call.url@ == api_url(
                seq!["v3"@, "REST"@, "messagehistory"@, decimal(message_id as int)],
            ),
            call.body is None,
    {
        let id = i128_to_string(message_id);
        self.get(item_url("messagehistory", id.as_str()))
    }

    /// Asks for the sending, size and spam information of the messages that
    /// a search finds. The answer is a
    /// [`MessageInformationResponse`](crate::responses::MessageInformationResponse).
    pub fn message_information(&self, search: &MessageInformationRequest) -> (call: ApiCall)
        ensures
            call.method is Get,
            is_query_url(
                call.url@,
                api_url(seq!["v3"@, "REST"@, "messageinformation"@]),
                search.query_pairs(),
            ),
            call.body is None,
    {
        let mut ub = rest_builder("messageinformation");
        search.add_parameters_to_url(&mut ub);
        let ghost routes = url_routes(ub);
        let url = ub.build();
        proof {
            lemma_query_url(url@, routes, search.query_pairs());
        }
        self.get(url)
    }

    /// Asks for the sending, size and spam information of one message. The
    /// answer is a
    /// [`MessageInformationResponse`](crate::responses::MessageInformationResponse).
    pub fn message_information_from_id(&self, message_id: i128) -> (call: ApiCall)
        ensures
            call.method is Get,
            call.url@ == api_url(
                seq!["v3"@, "REST"@, "messageinformation"@, decimal(message_id as int)],
            ),
            call.body is None,
    {
        let id = i128_to_string(message_id);
        self.get(item_url("messageinformation", id.as_str()))
    }

    /// Makes a contact. Nothing is checked here: a request without an
    /// address goes out as it is. The answer is a
    /// [`ContactResponse`](crate::responses::ContactResponse).
    pub fn contact_create(&self, request: &ContactRequest) -> (call: ApiCall)
        ensures
            call.method is Post,
            call.url@ == "https://api.mailjet.com/v3/REST/contact"@,
            call.body matches Some(b) && b@ == body_of::<ContactRequest>(request@),
    {
        let body = request.to_json().to_text();
        self.post(String::from_str("https://api.mailjet.com/v3/REST/contact"), body)
    }

    /// Asks for the contacts that a search finds. The answer is a
    /// [`ContactResponse`](crate::responses::ContactResponse).
    pub fn contact_search(&self, search: &ContactSearchRequest) -> (call: ApiCall)
        ensures
            call.method is Get,
            is_query_url(
                call.url@,
                api_url(seq!["v3"@, "REST"@, "contact"@]),
                search.query_pairs(),
            ),
            call.body is None,
    {
        let mut ub = rest_builder("contact");
        search.add_parameters_to_url(&mut ub);
        let ghost routes = url_routes(ub);
        let url = ub.build();
        proof {
            lemma_query_url(url@, routes, search.query_pairs());
        }
        self.get(url)
    }

    /// Asks for one contact. The answer is a
    /// [`ContactResponse`](crate::responses::ContactResponse).
    pub fn contact_search_from_id_or_email(&self, identifier: &ContactIdentifier) -> (call:
        ApiCall)
        ensures
            call.method is Get,
            call.url@ == api_url(seq!["v3"@, "REST"@, "contact"@, identifier.path_segment()]),
            call.body is None,
    {
        let segment = identifier.render();
        self.get(item_url("contact", segment.as_str()))
    }

    /// Changes the name or the exclusion of one contact. The answer is a
    /// [`ContactResponse`](crate::responses::ContactResponse).
    pub fn contact_update(&self, identifier: &ContactIdentifier, request: &ContactRequest) -> (call:
        ApiCall)
        ensures
            call.method is Put,
            call.url@ == api_url(seq!["v3"@, "REST"@, "contact"@, identifier.path_segment()]),
            call.body matches Some(b) && b@ == body_of::<ContactRequest>(request@),
    {
        let body = request.to_json().to_text();
        let segment = identifier.render();
        self.put(item_url("contact", segment.as_str()), body)
    }

    /// Removes one contact. No body is read: the status alone says whether
    /// the contact is gone.
    pub fn contact_delete(&self, contact_id: i128) -> (call: ApiCall)
        ensures
            call.method is Delete,
            call.url@ == api_url(seq!["v4"@, "contacts"@, decimal(contact_id as int)]),
            call.body is None,
    {
        let id = i128_to_string(contact_id);
        let mut ub = URLBuilder::new();
        set_protocol(&mut ub, "https");
        set_host(&mut ub, "api.mailjet.com");
        add_route(&mut ub, "v4");
        add_route(&mut ub, "contacts");
        add_route(&mut ub, id.as_str());
        assert(url_routes(ub) =~= seq!["v4"@, "contacts"@, decimal(contact_id as int)]);
        let ghost routes = url_routes(ub);
        let url = ub.build();
        proof {
            lemma_plain_url(url@, routes);
        }
        self.delete(url)
    }

    /// Makes a contact list. The answer is a
    /// [`ContactsListResponse`](crate::responses::ContactsListResponse), read
    /// strictly.
    pub fn contacts_list_create(&self, request: &ContactsListRequest) -> (call: ApiCall)
        ensures
            call.method is Post,
            call.url@ == "https://api.mailjet.com/v3/REST/contactslist"@,
            call.body matches Some(b) && b@ == body_of::<ContactsListRequest>(request@),
    {
        let body = request.to_json().to_text();
        self.post(String::from_str("https://api.mailjet.com/v3/REST/contactslist"), body)
    }

    /// Asks for the contact lists that a search finds. The answer is a
    /// [`ContactsListResponse`](crate::responses::ContactsListResponse), read
    /// strictly.
    pub fn contacts_list_search(&self, search: &ContactsListSearchRequest) -> (call: ApiCall)
        ensures
            call.method is Get,
            is_query_url(
                call.url@,
                api_url(seq!["v3"@, "REST"@, "contactslist"@]),
                search.query_pairs(),
            ),
            call.body is None,
    {
        let mut ub = rest_builder("contactslist");
        search.add_parameters_to_url(&mut ub);
        let ghost routes = url_routes(ub);
        let url = ub.build();
        proof {
            lemma_query_url(url@, routes, search.query_pairs());
        }
        self.get(url)
    }

    /// Asks for one contact list. The answer is a
    /// [`ContactsListResponse`](crate::responses::ContactsListResponse), read
    /// strictly.
    pub fn contacts_list_search_from_id_or_address(
        &self,
        identifier: &ContactsListIdentifier,
    ) -> (call: ApiCall)
        ensures
            call.method is Get,
            call.url@ == api_url(
                seq!["v3"@, "REST"@, "contactslist"@, identifier.path_segment()],
            ),
            call.body is None,
    {
        let segment = identifier.render();
        self.get(item_url("contactslist", segment.as_str()))
    }

    /// Changes the name or the deletion mark of one contact list. The answer
    /// is a [`ContactsListResponse`](crate::responses::ContactsListResponse),
    /// read strictly.
    pub fn contacts_list_update(
        &self,
        identifier: &ContactsListIdentifier,
        request: &ContactsListRequest,
    ) -> (call: ApiCall)
        ensures
            call.method is Put,
            call.url@ == api_url(
                seq!["v3"@, "REST"@, "contactslist"@, identifier.path_segment()],
            ),
            call.body matches Some(b) && b@ == body_of::<ContactsListRequest>(request@),
    {
        let body = request.to_json().to_text();
        let segment = identifier.render();
        self.put(item_url("contactslist", segment.as_str()), body)
    }

    /// Removes one contact list. No body is read: the status alone says
    /// whether the list is gone.
    pub fn contacts_list_delete(&self, identifier: &ContactsListIdentifier) -> (call: ApiCall)
        ensures
            call.method is Delete,
            call.url@ == api_url(
                seq!["v3"@, "REST"@, "contactslist"@, identifier.path_segment()],
            ),
            call.body is None,
    {
        let segment = identifier.render();
        self.delete(item_url("contactslist", segment.as_str()))
    }
}

} // verus!
