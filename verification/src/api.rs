//! The endpoint client: it owns the base URL and the authorization header,
//! names the request for each operation, and maps what came back to a
//! typed failure or to the decoded body.

use crate::params::query_text;
use crate::params::render_query;
use crate::section::SectionParams;
use crate::task::TaskParams;
use crate::text::decimal;
use crate::text::push_decimal;
use crate::urls::join_url;
use crate::urls::parse_url;
use crate::urls::url_joined;
use crate::urls::url_parsed;
use reqwest::header::HeaderValue;
use reqwest::header::InvalidHeaderValue;
use vstd::prelude::*;

verus! {

/// Everything that can go wrong in one call. Each failure ends the call
/// that met it and no other.
#[derive(Debug, Clone, Copy, PartialEq, Eq, Structural)]
pub enum TodoistAPIError {
    /// The connection failed before the server answered.
    TransportFailure,
    /// The transport gave up waiting for the answer.
    Timeout,
    /// The token cannot stand in an HTTP header.
    InvalidToken,
    /// The base URL, or a URL built from it, does not parse.
    MalformedUrl,
    /// A due date is not a calendar date written as `YYYY-MM-DD`.
    MalformedDate,
    /// The body is not JSON of the expected shape.
    DecodeFailure,
    /// The server answered with a status outside 200 to 299.
    HttpStatus(u16),
    /// A listing that requires a parameter was asked for without it.
    IncompleteParams,
}

/// `reqwest::header::InvalidHeaderValue`, carried through as an opaque
/// value.
#[verifier::external_type_specification]
#[verifier::external_body]
pub struct ExInvalidHeaderValue(InvalidHeaderValue);

/// Where the API lives.
pub const BASE_URL: &'static str = "https://api.todoist.com/rest/v1/";

/// A character that may stand in a header value: a tab, or anything from
/// the space upwards but the delete character.
pub open spec fn header_char(c: char) -> bool {
    c == '\t' || (' ' <= c && c != '\u{7f}')
}

/// Text that may stand in a header value.
pub open spec fn header_text(text: Seq<char>) -> bool {
    forall|i: int| 0 <= i < text.len() ==> header_char(#[trigger] text[i])
}

/// The value of the authorization header for `token`.
pub open spec fn bearer(token: Seq<char>) -> Seq<char> {
    "Bearer "@ + token
}

/// `HeaderValue::from_str`, asked only whether it accepts `text`: it does
/// unless some byte is a control character other than the tab. The bytes
/// of a character beyond ASCII are all accepted.
#[verifier::external_body]
fn check_header_value(text: &str) -> (r: Result<(), InvalidHeaderValue>)
    ensures
        r is Ok <==> header_text(text@),
{
    match HeaderValue::from_str(text) {
        Ok(_) => Ok(()),
        Err(e) => Err(e),
    }
}

/// The view of a result: the view of what it holds, or the error.
pub open spec fn result_view<T: DeepView>(r: Result<T, TodoistAPIError>) -> Result<
    T::V,
    TodoistAPIError,
> {
    match r {
        Ok(value) => Ok(value.deep_view()),
        Err(e) => Err(e),
    }
}

/// One HTTP GET, ready to be sent.
#[derive(Debug, Clone, PartialEq, Eq)]
pub struct Request {
    pub url: String,
    /// The value of the `Authorization` header.
    pub authorization: String,
}

/// A request as plain values.
pub struct RequestView {
    pub url: Seq<char>,
    pub authorization: Seq<char>,
}

impl View for Request {
    type V = RequestView;

    open spec fn view(&self) -> RequestView {
        RequestView { url: self.url@, authorization: self.authorization@ }
    }
}

impl DeepView for Request {
    type V = RequestView;

    open spec fn deep_view(&self) -> RequestView {
        self@
    }
}

/// What came of sending one request.
#[derive(Debug, Clone, PartialEq, Eq)]
pub enum Reply<B> {
    /// The connection failed before the server answered.
    Failed,
    /// The transport gave up waiting for the answer.
    TimedOut,
    /// The server answered. `body` holds what the body decoded to, and
    /// nothing where it was not read or is not JSON of the expected shape.
    Answered { status: u16, body: Option<B> },
}

impl<B> Reply<B> {
    /// The body of a reply, or the failure that the reply stands for. A
    /// status outside 200 to 299 is reported as it is, whatever the body.
    pub open spec fn outcome(self) -> Result<B, TodoistAPIError> {
        match self {
            Reply::Failed => Err(TodoistAPIError::TransportFailure),
            Reply::TimedOut => Err(TodoistAPIError::Timeout),
            Reply::Answered { status, body } => if !(200 <= status <= 299) {
                Err(TodoistAPIError::HttpStatus(status))
            } else {
                match body {
                    Some(b) => Ok(b),
                    None => Err(TodoistAPIError::DecodeFailure),
                }
            },
        }
    }

    /// Computes `outcome`.
    pub fn into_body(self) -> (r: Result<B, TodoistAPIError>)
        ensures
            r == self.outcome(),
    {
        match self {
            Reply::Failed => Err(TodoistAPIError::TransportFailure),
            Reply::TimedOut => Err(TodoistAPIError::Timeout),
            Reply::Answered { status, body } => {
                if status < 200 || status > 299 {
                    Err(TodoistAPIError::HttpStatus(status))
                } else {
                    match body {
                        Some(b) => Ok(b),
                        None => Err(TodoistAPIError::DecodeFailure),
                    }
                }
            },
        }
    }
}

/// A resource that is decoded from a payload: the fields as they stood in
/// the JSON body, each present or absent.
pub trait Record: Sized + DeepView {
    type Payload: DeepView;

    /// The record that a payload stands for, or why it stands for none.
    spec fn decoded(payload: <Self::Payload as DeepView>::V) -> Result<
        <Self as DeepView>::V,
        TodoistAPIError,
    >;

    /// Computes `decoded`.
    fn from_payload(payload: &Self::Payload) -> (r: Result<Self, TodoistAPIError>)
        ensures
            result_view(r) == Self::decoded(payload.deep_view()),
    ;
}

/// The records that a list of payloads stands for, in the same order; or,
/// if some payload stands for none, the error of the first such payload.
pub open spec fn decoded_all<T: Record>(payloads: Seq<<T::Payload as DeepView>::V>) -> Result<
    Seq<<T as DeepView>::V>,
    TodoistAPIError,
>
    decreases payloads.len(),
{
    if payloads.len() == 0 {
        Ok(Seq::empty())
    } else {
        match decoded_all::<T>(payloads.drop_last()) {
            Err(e) => Err(e),
            Ok(records) => match T::decoded(payloads.last()) {
                Ok(record) => Ok(records.push(record)),
                Err(e) => Err(e),
            },
        }
    }
}

/// Decodes a list of payloads as `decoded_all` describes.
pub fn records_from_payloads<T: Record>(payloads: &Vec<T::Payload>) -> (r: Result<
    Vec<T>,
    TodoistAPIError,
>)
    ensures
        result_view(r) == decoded_all::<T>(payloads.deep_view()),
{
    let mut records: Vec<T> = Vec::new();
    let mut i: usize = 0;
    assert(records.deep_view() =~= Seq::empty());
    while i < payloads.len()
        invariant
            i <= payloads.len(),
            decoded_all::<T>(payloads.deep_view().take(i as int)) matches Ok(done) && done
                == records.deep_view(),
        decreases payloads.len() - i,
    {
        proof {
            let next = payloads.deep_view().take(i + 1);
            assert(next.drop_last() == payloads.deep_view().take(i as int));
            assert(next.last() == payloads@[i as int].deep_view());
        }
        match T::from_payload(&payloads[i]) {
            Ok(record) => {
                let ghost before = records.deep_view();
                records.push(record);
                assert(records.deep_view() =~= before.push(record.deep_view()));
            },
            Err(e) => {
                proof {
                    lemma_decoded_all_fails::<T>(payloads.deep_view(), i + 1);
                }
                return Err(e);
            },
        }
        i += 1;
    }
    proof {
        assert(payloads.deep_view().take(payloads.len() as int) == payloads.deep_view());
    }
    Ok(records)
}

/// Once a prefix of the payloads fails to decode, the whole list fails
/// with the same error.
proof fn lemma_decoded_all_fails<T: Record>(payloads: Seq<<T::Payload as DeepView>::V>, n: int)
    requires
        0 <= n <= payloads.len(),
        decoded_all::<T>(payloads.take(n)) is Err,
    ensures
        decoded_all::<T>(payloads) == decoded_all::<T>(payloads.take(n)),
    decreases payloads.len() - n,
{
    if n < payloads.len() {
        let next = payloads.take(n + 1);
        assert(next.drop_last() == payloads.take(n));
        lemma_decoded_all_fails::<T>(payloads, n + 1);
    } else {
        assert(payloads.take(n) == payloads);
    }
}

/// The record that a reply holds, or the failure that it stands for.
pub open spec fn record_of_reply<T: Record>(reply: Reply<T::Payload>) -> Result<
    <T as DeepView>::V,
    TodoistAPIError,
> {
    match reply.outcome() {
        Ok(payload) => T::decoded(payload.deep_view()),
        Err(e) => Err(e),
    }
}

/// The records that a reply holds, or the failure that it stands for.
pub open spec fn records_of_reply<T: Record>(reply: Reply<Vec<T::Payload>>) -> Result<
    Seq<<T as DeepView>::V>,
    TodoistAPIError,
> {
    match reply.outcome() {
        Ok(payloads) => decoded_all::<T>(payloads.deep_view()),
        Err(e) => Err(e),
    }
}

/// Reads the reply to a request for a single resource.
pub fn record_from_reply<T: Record>(reply: Reply<T::Payload>) -> (r: Result<T, TodoistAPIError>)
    ensures
        result_view(r) == record_of_reply::<T>(reply),
{
    match reply.into_body() {
        Ok(payload) => T::from_payload(&payload),
        Err(e) => Err(e),
    }
}

/// Reads the reply to a listing.
pub fn records_from_reply<T: Record>(reply: Reply<Vec<T::Payload>>) -> (r: Result<
    Vec<T>,
    TodoistAPIError,
>)
    ensures
        result_view(r) == records_of_reply::<T>(reply),
{
    match reply.into_body() {
        Ok(payloads) => records_from_payloads::<T>(&payloads),
        Err(e) => Err(e),
    }
}

/// The endpoint client. No call changes it, so any number of calls may
/// share it.
#[derive(Debug, Clone, PartialEq, Eq)]
pub struct TodoistAPI {
    pub base_url: String,
    /// The value of the `Authorization` header of every request.
    pub authorization: String,
}

/// A client as plain values.
pub struct ApiView {
    pub base_url: Seq<char>,
    pub authorization: Seq<char>,
}

impl View for TodoistAPI {
    type V = ApiView;

    open spec fn view(&self) -> ApiView {
        ApiView { base_url: self.base_url@, authorization: self.authorization@ }
    }
}

impl DeepView for TodoistAPI {
    type V = ApiView;

    open spec fn deep_view(&self) -> ApiView {
        self@
    }
}

/// A resource path with a query string behind it, if there is one.
pub open spec fn with_query(path: Seq<char>, query: Seq<char>) -> Seq<char> {
    if query.len() == 0 {
        path
    } else {
        path + seq!['?'] + query
    }
}

impl ApiView {
    /// The client for `token` at `base`: the base URL as the URL parser
    /// writes it, and the token behind `Bearer `. A base that does not
    /// parse is refused first, then a token that cannot stand in a header.
    pub open spec fn created_at(base: Seq<char>, token: Seq<char>) -> Result<
        ApiView,
        TodoistAPIError,
    > {
        match url_parsed(base) {
            None => Err(TodoistAPIError::MalformedUrl),
            Some(base_url) => if header_text(bearer(token)) {
                Ok(ApiView { base_url, authorization: bearer(token) })
            } else {
                Err(TodoistAPIError::InvalidToken)
            },
        }
    }

    /// The client for `token` at the API's own address.
    pub open spec fn created(token: Seq<char>) -> Result<ApiView, TodoistAPIError> {
        ApiView::created_at(BASE_URL@, token)
    }

    /// The request for `reference`, resolved against the base URL.
    pub open spec fn request(self, reference: Seq<char>) -> Result<RequestView, TodoistAPIError> {
        match url_joined(self.base_url, reference) {
            Some(url) => Ok(RequestView { url, authorization: self.authorization }),
            None => Err(TodoistAPIError::MalformedUrl),
        }
    }

    /// The request for a listing of `resource` under the criteria `pairs`.
    pub open spec fn listing(
        self,
        resource: Seq<char>,
        pairs: Seq<(Seq<char>, Seq<char>)>,
    ) -> Result<RequestView, TodoistAPIError> {
        self.request(with_query(resource, query_text(pairs)))
    }
}

/// A token that holds a character which may not stand in a header makes
/// no client, whatever the base: it is refused as invalid wherever the
/// base URL parses.
pub proof fn lemma_control_character_refused(base: Seq<char>, token: Seq<char>, at: int)
    requires
        0 <= at < token.len(),
        !header_char(token[at]),
    ensures
        ApiView::created_at(base, token) is Err,
        url_parsed(base) is Some ==> ApiView::created_at(base, token) == Err::<
            ApiView,
            TodoistAPIError,
        >(TodoistAPIError::InvalidToken),
{
    reveal_strlit("Bearer ");
    assert(bearer(token)[7 + at] == token[at]);
}

/// A token with a line break in it makes no client.
pub proof fn lemma_line_break_refused(token: Seq<char>)
    requires
        token.contains('\n'),
    ensures
        ApiView::created(token) is Err,
        url_parsed(BASE_URL@) is Some ==> ApiView::created(token) == Err::<
            ApiView,
            TodoistAPIError,
        >(TodoistAPIError::InvalidToken),
{
    let at = choose|i: int| 0 <= i < token.len() && token[i] == '\n';
    lemma_control_character_refused(BASE_URL@, token, at);
}

/// A listing without criteria is the plain request for the resource.
pub proof fn lemma_unfiltered_listing(client: ApiView, resource: Seq<char>)
    ensures
        client.listing(resource, Seq::empty()) == client.request(resource),
{
}

impl TodoistAPI {
    /// The client for `token`. Nothing is sent.
    pub fn new(token: &str) -> (r: Result<TodoistAPI, TodoistAPIError>)
        ensures
            result_view(r) == ApiView::created(token@),
    {
        TodoistAPI::with_base_url(BASE_URL, token)
    }

    /// The client for `token` at another address that serves the same
    /// API. Nothing is sent.
    pub fn with_base_url(base: &str, token: &str) -> (r: Result<TodoistAPI, TodoistAPIError>)
        ensures
            result_view(r) == ApiView::created_at(base@, token@),
    {
        let base_url = match parse_url(base) {
            Ok(url) => url,
            Err(_) => {
                return Err(TodoistAPIError::MalformedUrl);
            },
        };
        let mut authorization = "Bearer ".to_owned();
        authorization.append(token);
        match check_header_value(authorization.as_str()) {
            Ok(_) => Ok(TodoistAPI { base_url, authorization }),
            Err(_) => Err(TodoistAPIError::InvalidToken),
        }
    }

    fn request(&self, reference: &str) -> (r: Result<Request, TodoistAPIError>)
        ensures
            result_view(r) == self@.request(reference@),
    {
        match join_url(self.base_url.as_str(), reference) {
            Ok(url) => Ok(Request { url, authorization: self.authorization.clone() }),
            Err(_) => Err(TodoistAPIError::MalformedUrl),
        }
    }

    fn listing(&self, resource: &str, pairs: &Vec<(String, String)>) -> (r: Result<
        Request,
        TodoistAPIError,
    >)
        ensures
            result_view(r) == self@.listing(resource@, pairs.deep_view()),
    {
        let query = render_query(pairs);
        if query.as_str().is_empty() {
            self.request(resource)
        } else {
            let mut reference = resource.to_owned();
            reference.append("?");
            reference.append(query.as_str());
            proof {
                reveal_strlit("?");
                assert("?"@ =~= seq!['?']);
            }
            self.request(reference.as_str())
        }
    }

    /// The request that lists every project.
    pub fn get_projects(&self) -> (r: Result<Request, TodoistAPIError>)
        ensures
            result_view(r) == self@.request("projects"@),
    {
        self.request("projects")
    }

    /// The request for the project `id`.
    pub fn get_project(&self, id: u64) -> (r: Result<Request, TodoistAPIError>)
        ensures
            result_view(r) == self@.request("projects/"@ + decimal(id as nat)),
    {
        let mut reference = "projects/".to_owned();
        push_decimal(&mut reference, id);
        self.request(reference.as_str())
    }

    /// The request that lists the tasks that meet `data`.
    pub fn get_tasks(&self, data: TaskParams) -> (r: Result<Request, TodoistAPIError>)
        ensures
            result_view(r) == self@.listing("tasks"@, data@.pairs()),
    {
        let pairs = data.query_pairs();
        self.listing("tasks", &pairs)
    }

    /// The request that lists the sections that meet `data`.
    pub fn get_sections(&self, data: SectionParams) -> (r: Result<Request, TodoistAPIError>)
        ensures
            result_view(r) == self@.listing("sections"@, data.pairs()),
    {
        let pairs = data.query_pairs();
        self.listing("sections", &pairs)
    }

    /// The request that lists every label.
    pub fn get_labels(&self) -> (r: Result<Request, TodoistAPIError>)
        ensures
            result_view(r) == self@.request("labels"@),
    {
        self.request("labels")
    }
}

} // verus!
