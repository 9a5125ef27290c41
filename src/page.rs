use vstd::prelude::*;
use crate::credential::MSGraphAccessToken;
use crate::error::FdwError;
use crate::json::{Json, JsonValue};
use crate::request::{pair, pairs_model, HttpMethod, HttpRequest};

verus! {

/// One decoded page of an OData collection.
#[derive(Debug, PartialEq)]
pub struct ODataResponsePage {
    /// `@odata.count`: the number of matching records, when the server gives it.
    pub total_count: Option<u64>,
    /// `@odata.nextLink`: the continuation reference, when more pages follow.
    pub next_page: Option<String>,
    /// `value`: the records of this page, in order.
    pub items: Vec<JsonValue>,
}

/// The text of a query string in which each pair stands as `key=value&`.
pub open spec fn query_text(pairs: Seq<(Seq<char>, Seq<char>)>) -> Seq<char>
    decreases pairs.len(),
{
    if pairs.len() == 0 {
        Seq::empty()
    } else {
        query_text(pairs.drop_last()) + pairs.last().0 + seq!['='] + pairs.last().1 + seq!['&']
    }
}

pub open spec fn str_pairs_model(pairs: Seq<(&str, &str)>) -> Seq<(Seq<char>, Seq<char>)> {
    pairs.map_values(|p: (&str, &str)| (p.0@, p.1@))
}

/// Relies on querystring::stringify: it appends `key=value&` for each pair, in
/// order, escaping nothing.
#[verifier::external_body]
fn stringify_query(pairs: Vec<(&str, &str)>) -> (r: String)
    ensures
        r@ == query_text(str_pairs_model(pairs@)),
{
    querystring::stringify(pairs)
}

/// The fixed query of the first page: selected fields, a filter that leaves
/// out guest and disabled accounts, order by principal name, an inline count
/// and a page size of 250.
pub open spec fn initial_query() -> Seq<(Seq<char>, Seq<char>)> {
    seq![
        ("$select"@, "id,employeeId,userPrincipalName,givenName,surname,mail,mobilePhone"@),
        ("$filter"@, "userType ne 'guest' and accountEnabled eq true"@),
        ("$orderby"@, "userPrincipalName"@),
        ("$count"@, "true"@),
        ("$top"@, "250"@),
    ]
}

pub open spec fn initial_url(base: Seq<char>, object: Seq<char>) -> Seq<char> {
    base + "/"@ + object + "?"@ + query_text(initial_query())
}

/// The headers of every page request: the bearer credential and eventual
/// consistency.
pub open spec fn data_headers(token: MSGraphAccessToken) -> Seq<(Seq<char>, Seq<char>)> {
    seq![
        ("Authorization"@, "Bearer "@ + token.access_token@),
        ("ConsistencyLevel"@, "eventual"@),
    ]
}

/// `req` reads the page at `url` with `token`.
pub open spec fn is_page_request(req: HttpRequest, url: Seq<char>, token: MSGraphAccessToken) -> bool {
    &&& req.method == HttpMethod::Get
    &&& req.url@ == url
    &&& pairs_model(req.headers@) == data_headers(token)
    &&& req.body@.len() == 0
}

/// A GET request of `url` with the page headers.
fn page_request(url: String, token: &MSGraphAccessToken) -> (r: HttpRequest)
    ensures
        is_page_request(r, url@, *token),
{
    let headers = vec![
        (String::from_str("Authorization"), token.header()),
        pair("ConsistencyLevel", "eventual"),
    ];
    assert(pairs_model(headers@) =~= data_headers(*token));
    HttpRequest { method: HttpMethod::Get, url, headers, body: String::new() }
}

impl ODataResponsePage {
    pub open spec fn records(&self) -> Seq<Json> {
        self.items@.map_values(|v: JsonValue| v.model())
    }

    /// A continuation reference is present.
    pub fn has_next(&self) -> (r: bool)
        ensures
            r == self.next_page is Some,
    {
        self.next_page.is_some()
    }

    /// The request of the first page of collection `object` under `base_url`.
    pub fn initial_request(base_url: &String, object: &String, token: &MSGraphAccessToken) -> (r:
        HttpRequest)
        ensures
            is_page_request(r, initial_url(base_url@, object@), *token),
    {
        let pairs = vec![
            ("$select", "id,employeeId,userPrincipalName,givenName,surname,mail,mobilePhone"),
            ("$filter", "userType ne 'guest' and accountEnabled eq true"),
            ("$orderby", "userPrincipalName"),
            ("$count", "true"),
            ("$top", "250"),
        ];
        assert(str_pairs_model(pairs@) =~= initial_query());
        let query = stringify_query(pairs);
        let mut url = base_url.clone();
        url.append("/");
        url.append(object.as_str());
        url.append("?");
        url.append(query.as_str());
        page_request(url, token)
    }

    /// The request of the page that follows this one: the continuation
    /// reference verbatim, with the page headers. Fails with `NoContinuation`
    /// exactly when there is no continuation reference.
    pub fn fetch_next(&self, token: &MSGraphAccessToken) -> (r: Result<HttpRequest, FdwError>)
        ensures
            match self.next_page {
                None => r matches Err(e) && e == FdwError::NoContinuation,
                Some(url) => r matches Ok(req) && is_page_request(req, url@, *token),
            },
    {
        match &self.next_page {
            None => Err(FdwError::NoContinuation),
            Some(url) => Ok(page_request(url.clone(), token)),
        }
    }
}

} // verus!
