//! The URL builder behind every call: what it holds, what its methods do to
//! that, and the text it builds.

use crate::text::decimal;
use url_builder::URLBuilder;
use vstd::prelude::*;

verus! {

/// The URL builder of the `url_builder` crate, carried as an opaque value.
#[verifier::external_type_specification]
#[verifier::external_body]
pub struct ExURLBuilder(url_builder::URLBuilder);

/// The protocol that a builder holds.
pub uninterp spec fn url_protocol(ub: URLBuilder) -> Seq<char>;

/// The host that a builder holds.
pub uninterp spec fn url_host(ub: URLBuilder) -> Seq<char>;

/// The port that a builder holds; zero stands for none.
pub uninterp spec fn url_port(ub: URLBuilder) -> int;

/// The routes that a builder holds, in the order in which they were added.
pub uninterp spec fn url_routes(ub: URLBuilder) -> Seq<Seq<char>>;

/// The query parameters that a builder holds: one value for each name.
pub uninterp spec fn url_params(ub: URLBuilder) -> Map<Seq<char>, Seq<char>>;

/// One query parameter: a name and its value, both as they will stand in the
/// URL.
#[derive(Clone, Debug, PartialEq, Eq)]
pub struct QueryParam {
    pub name: String,
    pub value: String,
}

impl View for QueryParam {
    type V = (Seq<char>, Seq<char>);

    open spec fn view(&self) -> (Seq<char>, Seq<char>) {
        (self.name@, self.value@)
    }
}

/// The names and values of a list of query parameters.
pub open spec fn pairs_of(params: Seq<QueryParam>) -> Seq<(Seq<char>, Seq<char>)> {
    params.map_values(|p: QueryParam| p@)
}

/// The parameters that a builder holds after `pairs` were added to `params`
/// one by one: a later value replaces an earlier one of the same name.
pub open spec fn with_pairs(
    params: Map<Seq<char>, Seq<char>>,
    pairs: Seq<(Seq<char>, Seq<char>)>,
) -> Map<Seq<char>, Seq<char>>
    decreases pairs.len(),
{
    if pairs.len() == 0 {
        params
    } else {
        with_pairs(params, pairs.drop_last()).insert(pairs.last().0, pairs.last().1)
    }
}

/// The path of a URL: each route behind a slash.
pub open spec fn routes_text(routes: Seq<Seq<char>>) -> Seq<char>
    decreases routes.len(),
{
    if routes.len() == 0 {
        Seq::empty()
    } else {
        routes_text(routes.drop_last()) + seq!['/'] + routes.last()
    }
}

/// The parameters named by `order`, each as `name=value` followed by `&`.
pub open spec fn pairs_text(params: Map<Seq<char>, Seq<char>>, order: Seq<Seq<char>>) -> Seq<char>
    decreases order.len(),
{
    if order.len() == 0 {
        Seq::empty()
    } else {
        pairs_text(params, order.drop_last()) + order.last() + seq!['='] + params[order.last()]
            + seq!['&']
    }
}

/// The query string of a URL: nothing without parameters, else a question
/// mark and the pairs joined by `&`.
pub open spec fn query_text(params: Map<Seq<char>, Seq<char>>, order: Seq<Seq<char>>) -> Seq<char> {
    if order.len() == 0 {
        Seq::empty()
    } else {
        seq!['?'] + pairs_text(params, order).drop_last()
    }
}

/// The port of a URL: nothing for port zero, else a colon and the number.
pub open spec fn port_text(port: int) -> Seq<char> {
    if port == 0 {
        Seq::empty()
    } else {
        seq![':'] + decimal(port)
    }
}

/// A builder's parameters before any was added.
pub open spec fn no_params() -> Map<Seq<char>, Seq<char>> {
    Map::empty()
}

/// `order` names each parameter of `params` exactly once.
pub open spec fn is_order_of(order: Seq<Seq<char>>, params: Map<Seq<char>, Seq<char>>) -> bool {
    order.no_duplicates() && order.to_set() == params.dom()
}

/// The text of a URL whose parameters stand in the given order.
pub open spec fn url_text(
    protocol: Seq<char>,
    host: Seq<char>,
    port: int,
    routes: Seq<Seq<char>>,
    params: Map<Seq<char>, Seq<char>>,
    order: Seq<Seq<char>>,
) -> Seq<char> {
    protocol + seq![':', '/', '/'] + host + port_text(port) + routes_text(routes) + query_text(
        params,
        order,
    )
}

/// `text` is the URL of these parts with the parameters in some order.
pub open spec fn is_url_of(
    text: Seq<char>,
    protocol: Seq<char>,
    host: Seq<char>,
    port: int,
    routes: Seq<Seq<char>>,
    params: Map<Seq<char>, Seq<char>>,
) -> bool {
    exists|order: Seq<Seq<char>>|
        is_order_of(order, params) && text == #[trigger] url_text(
            protocol,
            host,
            port,
            routes,
            params,
            order,
        )
}

/// `URLBuilder::new`: a builder that holds no protocol, no host, no port, no
/// route and no parameter.
pub assume_specification[ URLBuilder::new ]() -> (ub: URLBuilder)
    ensures
        url_protocol(ub) == Seq::<char>::empty(),
        url_host(ub) == Seq::<char>::empty(),
        url_port(ub) == 0,
        url_routes(ub) == Seq::<Seq<char>>::empty(),
        url_params(ub) == no_params(),
;

/// `URLBuilder::build`: the protocol, `://`, the host, the port if it is not
/// zero, the routes and the query string. The builder keeps its parameters in
/// a hash map and writes them in the order in which that map hands them out,
/// so the text is that of some order of the parameters, and which one is not
/// said.
pub assume_specification[ URLBuilder::build ](ub: URLBuilder) -> (url: String)
    ensures
        is_url_of(
            url@,
            url_protocol(ub),
            url_host(ub),
            url_port(ub),
            url_routes(ub),
            url_params(ub),
        ),
;

/// `URLBuilder::set_protocol`: replaces the protocol and nothing else.
#[verifier::external_body]
pub(crate) fn set_protocol(ub: &mut URLBuilder, protocol: &str)
    ensures
        url_protocol(*final(ub)) == protocol@,
        url_host(*final(ub)) == url_host(*old(ub)),
        url_port(*final(ub)) == url_port(*old(ub)),
        url_routes(*final(ub)) == url_routes(*old(ub)),
        url_params(*final(ub)) == url_params(*old(ub)),
{
    ub.set_protocol(protocol);
}

/// `URLBuilder::set_host`: replaces the host and nothing else.
#[verifier::external_body]
pub(crate) fn set_host(ub: &mut URLBuilder, host: &str)
    ensures
        url_protocol(*final(ub)) == url_protocol(*old(ub)),
        url_host(*final(ub)) == host@,
        url_port(*final(ub)) == url_port(*old(ub)),
        url_routes(*final(ub)) == url_routes(*old(ub)),
        url_params(*final(ub)) == url_params(*old(ub)),
{
    ub.set_host(host);
}

/// `URLBuilder::add_route`: puts the route behind those already there and
/// changes nothing else.
#[verifier::external_body]
pub(crate) fn add_route(ub: &mut URLBuilder, route: &str)
    ensures
        url_protocol(*final(ub)) == url_protocol(*old(ub)),
        url_host(*final(ub)) == url_host(*old(ub)),
        url_port(*final(ub)) == url_port(*old(ub)),
        url_routes(*final(ub)) == url_routes(*old(ub)).push(route@),
        url_params(*final(ub)) == url_params(*old(ub)),
{
    ub.add_route(route);
}

/// `URLBuilder::add_param`: gives the name this value, in place of an earlier
/// value of the same name, and changes nothing else.
#[verifier::external_body]
pub(crate) fn add_param(ub: &mut URLBuilder, name: &str, value: &str)
    ensures
        url_protocol(*final(ub)) == url_protocol(*old(ub)),
        url_host(*final(ub)) == url_host(*old(ub)),
        url_port(*final(ub)) == url_port(*old(ub)),
        url_routes(*final(ub)) == url_routes(*old(ub)),
        url_params(*final(ub)) == url_params(*old(ub)).insert(name@, value@),
{
    ub.add_param(name, value);
}

/// Adds each query parameter of `params` to the builder, first to last.
pub fn add_pairs(ub: &mut URLBuilder, params: &Vec<QueryParam>)
    ensures
        url_protocol(*final(ub)) == url_protocol(*old(ub)),
        url_host(*final(ub)) == url_host(*old(ub)),
        url_port(*final(ub)) == url_port(*old(ub)),
        url_routes(*final(ub)) == url_routes(*old(ub)),
        url_params(*final(ub)) == with_pairs(url_params(*old(ub)), pairs_of(params@)),
{
    let mut i: usize = 0;
    while i < params.len()
        invariant
            i <= params.len(),
            url_protocol(*ub) == url_protocol(*old(ub)),
            url_host(*ub) == url_host(*old(ub)),
            url_port(*ub) == url_port(*old(ub)),
            url_routes(*ub) == url_routes(*old(ub)),
            url_params(*ub) == with_pairs(url_params(*old(ub)), pairs_of(params@).take(i as int)),
        decreases params.len() - i,
    {
        add_param(ub, params[i].name.as_str(), params[i].value.as_str());
        proof {
            let pairs = pairs_of(params@);
            assert(pairs.take(i + 1).drop_last() =~= pairs.take(i as int));
            assert(pairs.take(i + 1).last() == params[i as int]@);
        }
        i += 1;
    }
    assert(pairs_of(params@).take(i as int) =~= pairs_of(params@));
}

} // verus!
