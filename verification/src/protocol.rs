//! The resource protocol: a request names a pin by the query parameter
//! `id`, and the answer is the pin's encoded image, or a client error with
//! a message that says what was wrong with the request.
//!
//! The query is what follows the first `?` of the percent-decoded path, or,
//! where the path has none, the request's own query component.

use vstd::prelude::*;
use vstd::utf8::encode_utf8;
use crate::model::{Error, ErrorKind, Failure};
use crate::screenshot::{pin_get, PinStore, PinStoreView};
use crate::text::{parse_failure, parse_i32, signed_decimal};

verus! {

/// The byte of `?`.
pub const QUERY_MARK: u8 = 0x3f;

/// Status of an answer that carries the image.
pub const STATUS_OK: u16 = 200;

/// Status of an answer to a request that cannot be served.
pub const STATUS_BAD_REQUEST: u16 = 400;

/// Mathematical value of a [`Response`].
pub struct ResponseView {
    pub status: int,
    pub headers: Seq<(Seq<char>, Seq<char>)>,
    pub body: Seq<u8>,
}

/// The answer to a request.
#[derive(Debug)]
pub struct Response {
    pub status: u16,
    /// Header names and values, in the order in which they are set.
    pub headers: Vec<(String, String)>,
    pub body: Vec<u8>,
}

impl View for Response {
    type V = ResponseView;

    open spec fn view(&self) -> ResponseView {
        ResponseView {
            status: self.status as int,
            headers: self.headers.deep_view(),
            body: self.body@,
        }
    }
}

/// What is left of `bytes` after the first occurrence of `mark`, if `mark`
/// occurs.
pub open spec fn after_first(bytes: Seq<u8>, mark: u8) -> Option<Seq<u8>>
    decreases bytes.len(),
{
    if bytes.len() == 0 {
        None
    } else if bytes[0] == mark {
        Some(bytes.drop_first())
    } else {
        after_first(bytes.drop_first(), mark)
    }
}

/// The query of a request: what follows the first `?` of the decoded path,
/// or else the request's query component.
pub open spec fn query_of(decoded_path: Seq<u8>, raw_query: Option<Seq<u8>>) -> Option<Seq<u8>> {
    match after_first(decoded_path, QUERY_MARK) {
        Some(query) => Some(query),
        None => raw_query,
    }
}

/// The value of the first pair whose name is `name`.
pub open spec fn first_value(pairs: Seq<(Seq<char>, Seq<char>)>, name: Seq<char>) -> Option<
    Seq<char>,
>
    decreases pairs.len(),
{
    if pairs.len() == 0 {
        None
    } else if pairs[0].0 == name {
        Some(pairs[0].1)
    } else {
        first_value(pairs.drop_first(), name)
    }
}

/// The identifier that the text of an `id` parameter stands for.
pub open spec fn id_of_value(value: Seq<char>) -> Result<int, Failure> {
    match signed_decimal(value) {
        Some(id) => Ok(id),
        None => Err(Failure { kind: ErrorKind::Validation, text: parse_failure(value) }),
    }
}

/// The identifier that the pairs of a query name.
pub open spec fn id_of_pairs(pairs: Seq<(Seq<char>, Seq<char>)>) -> Result<int, Failure> {
    match first_value(pairs, "id"@) {
        Some(value) => id_of_value(value),
        None => Err(Failure { kind: ErrorKind::Validation, text: "id is empty"@ }),
    }
}

/// The identifier that a query names.
pub open spec fn id_of_query(query: Option<Seq<u8>>) -> Result<int, Failure> {
    match query {
        Some(bytes) => id_of_pairs(form_pairs(bytes)),
        None => Err(Failure { kind: ErrorKind::Validation, text: "query is empty"@ }),
    }
}

/// The bytes of a request's query component.
pub open spec fn query_bytes(raw_query: Option<&str>) -> Option<Seq<u8>> {
    match raw_query {
        Some(text) => Some(encode_utf8(text@)),
        None => None,
    }
}

/// The identifier that a request names.
pub open spec fn requested_id(raw_path: Seq<char>, raw_query: Option<&str>) -> Result<
    int,
    Failure,
> {
    id_of_query(query_of(percent_decoded(raw_path), query_bytes(raw_query)))
}

/// The image that a request is answered with.
pub open spec fn requested_image(store: PinStoreView, id: Result<int, Failure>) -> Result<
    Seq<u8>,
    Failure,
> {
    match id {
        Ok(id) => match store.lookup(id) {
            Some(bytes) => Ok(bytes),
            None => Err(Failure { kind: ErrorKind::StateNotFound, text: "pin not found"@ }),
        },
        Err(failure) => Err(failure),
    }
}

/// The answer that carries `outcome`. Every answer lets any origin read
/// it. An image is answered with success and its media type, a failure
/// with a client error and the bytes of its message.
pub open spec fn response_to(outcome: Result<Seq<u8>, Failure>) -> ResponseView {
    match outcome {
        Ok(bytes) => ResponseView {
            status: 200,
            headers: seq![("access-control-allow-origin"@, "*"@), ("content-type"@, "image/png"@)],
            body: bytes,
        },
        Err(failure) => ResponseView {
            status: 400,
            headers: seq![("access-control-allow-origin"@, "*"@)],
            body: encode_utf8(failure.text),
        },
    }
}

/// The bytes of `path` after its percent-encoded bytes were decoded by
/// `percent_encoding` and ill-formed UTF-8 among the result was replaced.
pub uninterp spec fn percent_decoded(path: Seq<char>) -> Seq<u8>;

/// The name and value pairs that `form_urlencoded` reads from a query, in
/// the order of the query.
pub uninterp spec fn form_pairs(query: Seq<u8>) -> Seq<(Seq<char>, Seq<char>)>;

/// Decodes the percent-encoded bytes of a path with `percent_decode_str`
/// and `decode_utf8_lossy` of the crate `percent_encoding`, and hands out
/// the bytes of the decoded text. The result is a function of the path
/// alone and is known here by name only.
#[verifier::external_body]
fn percent_decode(path: &str) -> (r: Vec<u8>)
    ensures
        r@ == percent_decoded(path@),
{
    percent_encoding::percent_decode_str(path).decode_utf8_lossy().into_owned().into_bytes()
}

/// Reads the pairs of a query with `url::form_urlencoded::parse`, each pair
/// as two strings. The pairs are a function of the query alone and are
/// known here by name only.
#[verifier::external_body]
fn parse_pairs(query: &Vec<u8>) -> (r: Vec<(String, String)>)
    ensures
        r.deep_view() == form_pairs(query@),
{
    url::form_urlencoded::parse(query).into_owned().collect()
}

/// Picks the query of a request: what follows the first `?` of the decoded
/// path, or, where the path holds none, the request's query component.
pub fn select_query(decoded_path: Vec<u8>, raw_query: Option<&str>) -> (r: Option<Vec<u8>>)
    ensures
        match query_of(decoded_path@, query_bytes(raw_query)) {
            Some(query) => r matches Some(found) && found@ == query,
            None => r is None,
        },
{
    let mut path = decoded_path;
    let mut at: usize = 0;
    assert(decoded_path@.skip(0) =~= decoded_path@);
    while at < path.len()
        invariant
            at <= path.len(),
            path@ == decoded_path@,
            after_first(decoded_path@, QUERY_MARK) == after_first(
                decoded_path@.skip(at as int),
                QUERY_MARK,
            ),
        decreases path.len() - at,
    {
        let ghost rest = decoded_path@.skip(at as int);
        assert(rest[0] == decoded_path@[at as int]);
        assert(rest.drop_first() =~= decoded_path@.skip(at + 1));
        if path[at] == QUERY_MARK {
            let query = path.split_off(at + 1);
            assert(query@ =~= rest.drop_first());
            return Some(query);
        }
        at += 1;
    }
    assert(decoded_path@.skip(at as int).len() == 0);
    match raw_query {
        Some(text) => Some(text.as_bytes_vec()),
        None => None,
    }
}

/// The value of the first pair named `id`.
pub fn id_value(pairs: &Vec<(String, String)>) -> (r: Option<String>)
    ensures
        match first_value(pairs.deep_view(), "id"@) {
            Some(value) => r matches Some(found) && found@ == value,
            None => r is None,
        },
{
    let name = "id".to_owned();
    let ghost all = pairs.deep_view();
    let mut at: usize = 0;
    assert(all.skip(0) =~= all);
    while at < pairs.len()
        invariant
            at <= pairs.len(),
            name@ == "id"@,
            all == pairs.deep_view(),
            first_value(all, "id"@) == first_value(all.skip(at as int), "id"@),
        decreases pairs.len() - at,
    {
        let ghost rest = all.skip(at as int);
        assert(rest[0] == all[at as int]);
        assert(all[at as int] == pairs@[at as int].deep_view());
        assert(rest.drop_first() =~= all.skip(at + 1));
        if pairs[at].0 == name {
            return Some(pairs[at].1.clone());
        }
        at += 1;
    }
    assert(all.skip(at as int).len() == 0);
    None
}

/// Reads the identifier from the text of an `id` parameter.
pub fn pin_id(value: &str) -> (r: Result<i32, Error>)
    ensures
        match id_of_value(value@) {
            Ok(id) => r == Ok::<i32, Error>(id as i32),
            Err(failure) => r matches Err(e) && e@ == failure,
        },
{
    match parse_i32(value) {
        Ok(id) => Ok(id),
        Err(reason) => Err(Error { kind: ErrorKind::Validation, message: reason }),
    }
}

/// Reads the identifier that the pairs of a query name.
pub fn pin_id_of_pairs(pairs: &Vec<(String, String)>) -> (r: Result<i32, Error>)
    ensures
        match id_of_pairs(pairs.deep_view()) {
            Ok(id) => r == Ok::<i32, Error>(id as i32),
            Err(failure) => r matches Err(e) && e@ == failure,
        },
{
    match id_value(pairs) {
        Some(value) => pin_id(value.as_str()),
        None => Err(Error::new(ErrorKind::Validation, "id is empty")),
    }
}

/// Reads the identifier that a query names.
pub fn pin_id_of_query(query: Option<Vec<u8>>) -> (r: Result<i32, Error>)
    ensures
        match id_of_query(
            match query {
                Some(bytes) => Some(bytes@),
                None => None,
            },
        ) {
            Ok(id) => r == Ok::<i32, Error>(id as i32),
            Err(failure) => r matches Err(e) && e@ == failure,
        },
{
    match query {
        Some(bytes) => {
            let pairs = parse_pairs(&bytes);
            pin_id_of_pairs(&pairs)
        },
        None => Err(Error::new(ErrorKind::Validation, "query is empty")),
    }
}

/// Serves the pin that an identifier, or the failure to read one, leads to.
pub fn serve(id: Result<i32, Error>, state: &PinStore) -> (r: Result<Vec<u8>, Error>)
    ensures
        match requested_image(
            state@,
            match id {
                Ok(id) => Ok(id as int),
                Err(e) => Err(e@),
            },
        ) {
            Ok(bytes) => r matches Ok(found) && found@ == bytes,
            Err(failure) => r matches Err(e) && e@ == failure,
        },
{
    match id {
        Ok(id) => pin_get(id, state),
        Err(e) => Err(e),
    }
}

/// Finds the image that a request asks for: the request's path as it came,
/// its query component if it has one, and the store of pins.
pub fn internal_handle(raw_path: &str, raw_query: Option<&str>, state: &PinStore) -> (r: Result<
    Vec<u8>,
    Error,
>)
    ensures
        match requested_image(state@, requested_id(raw_path@, raw_query)) {
            Ok(bytes) => r matches Ok(found) && found@ == bytes,
            Err(failure) => r matches Err(e) && e@ == failure,
        },
{
    let decoded_path = percent_decode(raw_path);
    let query = select_query(decoded_path, raw_query);
    let id = pin_id_of_query(query);
    serve(id, state)
}

/// Builds the answer that carries an image or a failure.
pub fn respond(outcome: Result<Vec<u8>, Error>) -> (r: Response)
    ensures
        r@ == response_to(
            match outcome {
                Ok(bytes) => Ok(bytes@),
                Err(e) => Err(e@),
            },
        ),
{
    let mut headers: Vec<(String, String)> = Vec::new();
    headers.push(("access-control-allow-origin".to_owned(), "*".to_owned()));
    match outcome {
        Ok(bytes) => {
            headers.push(("content-type".to_owned(), "image/png".to_owned()));
            let r = Response { status: STATUS_OK, headers, body: bytes };
            assert(r@.headers =~= response_to(Ok(bytes@)).headers);
            r
        },
        Err(e) => {
            let body = e.message.as_str().as_bytes_vec();
            let r = Response { status: STATUS_BAD_REQUEST, headers, body };
            assert(r@.headers =~= response_to(Err(e@)).headers);
            r
        },
    }
}

/// Answers a request of the resource protocol. No request makes it fail: a
/// request that names no pin of the store is answered with a client error.
pub fn handle(raw_path: &str, raw_query: Option<&str>, state: &PinStore) -> (r: Response)
    ensures
        r@ == response_to(requested_image(state@, requested_id(raw_path@, raw_query))),
        r@.status == 200 || r@.status == 400,
{
    respond(internal_handle(raw_path, raw_query, state))
}

/// A query is found wherever the request carries it: written behind a `?`
/// in the decoded path, where it is found whatever the query component
/// holds, or given as the query component of a path that holds no `?`.
/// Both lead to the same pairs and so to the same identifier.
pub proof fn lemma_query_is_found_in_either_place(
    path: Seq<u8>,
    query: Seq<u8>,
    other: Option<Seq<u8>>,
)
    requires
        after_first(path, QUERY_MARK) is None,
    ensures
        query_of(path + seq![QUERY_MARK] + query, other) == Some(query),
        query_of(path, Some(query)) == Some(query),
    decreases path.len(),
{
    let embedded = path + seq![QUERY_MARK] + query;
    if path.len() == 0 {
        assert(embedded.drop_first() =~= query);
    } else {
        assert(embedded.drop_first() =~= path.drop_first() + seq![QUERY_MARK] + query);
        lemma_query_is_found_in_either_place(path.drop_first(), query, other);
    }
}

/// Every answer lets any origin read it. A failure, whatever its kind, is
/// answered with a client error that carries its message; an image is
/// answered with success and carries the image.
pub proof fn lemma_answer_fits_outcome(outcome: Result<Seq<u8>, Failure>)
    ensures
        response_to(outcome).headers[0] == ("access-control-allow-origin"@, "*"@),
        match outcome {
            Ok(bytes) => response_to(outcome).status == 200 && response_to(outcome).body == bytes,
            Err(failure) => response_to(outcome).status == 400 && response_to(outcome).body
                == encode_utf8(failure.text),
        },
{
}

} // verus!
