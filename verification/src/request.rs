//! The shape of a listing request: what is sent, in which order.

use vstd::prelude::*;
use crate::scalar::{decimal_digits, decimal_text};

verus! {

/// A listing request, ready to be handed to the transport.
#[derive(Debug, Clone, PartialEq, Eq)]
pub struct ListObjectsRequest {
    pub method: String,
    pub bucket: String,
    pub path: String,
    /// The query parameters, in the order in which they are sent.
    pub query: Vec<(String, String)>,
    pub headers: Vec<(String, String)>,
}

/// What a `ListObjectsRequest` stands for in contracts.
pub struct RequestShape {
    pub method: Seq<char>,
    pub bucket: Seq<char>,
    pub path: Seq<char>,
    pub query: Seq<(Seq<char>, Seq<char>)>,
    pub headers: Seq<(Seq<char>, Seq<char>)>,
}

pub open spec fn pairs(entries: Seq<(String, String)>) -> Seq<(Seq<char>, Seq<char>)> {
    entries.map_values(|entry: (String, String)| (entry.0@, entry.1@))
}

impl View for ListObjectsRequest {
    type V = RequestShape;

    open spec fn view(&self) -> RequestShape {
        RequestShape {
            method: self.method@,
            bucket: self.bucket@,
            path: self.path@,
            query: pairs(self.query@),
            headers: pairs(self.headers@),
        }
    }
}

/// The query of a listing request: the list type, the delimiter, the
/// maximum number of keys in decimal, the prefix, and last the continuation
/// token where there is one.
pub open spec fn query_of(
    continuation_token: Option<Seq<char>>,
    delimiter: Seq<char>,
    max_keys: usize,
    prefix: Seq<char>,
) -> Seq<(Seq<char>, Seq<char>)> {
    let fixed = seq![
        ("list-type"@, "2"@),
        ("delimiter"@, delimiter),
        ("max-keys"@, decimal_digits(max_keys as nat)),
        ("prefix"@, prefix),
    ];
    match continuation_token {
        Some(token) => fixed.push(("continuation-token"@, token)),
        None => fixed,
    }
}

/// The listing request for a bucket: a `GET` of the bucket's root with the
/// query above and the one header that asks for restore-status attributes.
pub open spec fn request_of(
    bucket: Seq<char>,
    continuation_token: Option<Seq<char>>,
    delimiter: Seq<char>,
    max_keys: usize,
    prefix: Seq<char>,
) -> RequestShape {
    RequestShape {
        method: "GET"@,
        bucket,
        path: "/"@,
        query: query_of(continuation_token, delimiter, max_keys, prefix),
        headers: seq![("x-amz-optional-object-attributes"@, "RestoreStatus"@)],
    }
}

pub open spec fn token_text(token: Option<&str>) -> Option<Seq<char>> {
    match token {
        Some(text) => Some(text@),
        None => None,
    }
}

/// Builds the query of a listing request.
pub fn list_objects_query(
    continuation_token: Option<&str>,
    delimiter: &str,
    max_keys: usize,
    prefix: &str,
) -> (query: Vec<(String, String)>)
    ensures
        pairs(query@) == query_of(token_text(continuation_token), delimiter@, max_keys, prefix@),
{
    let max_keys_text = decimal_text(max_keys);
    let mut query: Vec<(String, String)> = Vec::new();
    query.push(("list-type".to_owned(), "2".to_owned()));
    query.push(("delimiter".to_owned(), delimiter.to_owned()));
    query.push(("max-keys".to_owned(), max_keys_text));
    query.push(("prefix".to_owned(), prefix.to_owned()));
    if let Some(token) = continuation_token {
        query.push(("continuation-token".to_owned(), token.to_owned()));
    }
    assert(pairs(query@) =~= query_of(
        token_text(continuation_token),
        delimiter@,
        max_keys,
        prefix@,
    ));
    query
}

/// Builds the listing request for a bucket. Nothing is sent.
pub fn list_objects_request(
    bucket: &str,
    continuation_token: Option<&str>,
    delimiter: &str,
    max_keys: usize,
    prefix: &str,
) -> (request: ListObjectsRequest)
    ensures
        request@ == request_of(
            bucket@,
            token_text(continuation_token),
            delimiter@,
            max_keys,
            prefix@,
        ),
{
    let query = list_objects_query(continuation_token, delimiter, max_keys, prefix);
    let mut headers: Vec<(String, String)> = Vec::new();
    headers.push(("x-amz-optional-object-attributes".to_owned(), "RestoreStatus".to_owned()));
    assert(pairs(headers@) =~= seq![("x-amz-optional-object-attributes"@, "RestoreStatus"@)]);
    ListObjectsRequest {
        method: "GET".to_owned(),
        bucket: bucket.to_owned(),
        path: "/".to_owned(),
        query,
        headers,
    }
}

} // verus!
