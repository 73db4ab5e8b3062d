//! Requests to the backend and what can go wrong with them.

use crate::api::{UserRegistration, UserRegistrationView, UserUpdate, UserUpdateView};
use crate::text::{same_text, texts};
use vstd::prelude::*;
use vstd::string::*;

verus! {

/// The messages that the backend attaches to the fields of a rejected
/// submission, as texts.
pub type FieldErrors = Seq<(Seq<char>, Seq<Seq<char>>)>;

/// The views of a list of fields with their messages.
pub open spec fn field_errors(errors: Seq<(String, Vec<String>)>) -> FieldErrors {
    Seq::new(errors.len(), |i: int| (errors[i].0@, texts(errors[i].1@)))
}

/// The answer of the backend to a submission that it rejects: for each
/// field that it objects to, its messages. No field stands twice.
#[derive(Debug)]
pub struct ApiResponseErrors {
    errors: Vec<(String, Vec<String>)>,
}

impl View for ApiResponseErrors {
    type V = FieldErrors;

    closed spec fn view(&self) -> FieldErrors {
        field_errors(self.errors@)
    }
}

/// Whether `field` is among the first `n` of `errors`.
pub open spec fn names_field(errors: FieldErrors, field: Seq<char>) -> bool {
    exists|i: int| 0 <= i < errors.len() && (#[trigger] errors[i]).0 == field
}

/// Whether no field stands twice in `errors`.
pub open spec fn fields_distinct(errors: FieldErrors) -> bool {
    forall|i: int, j: int|
        0 <= i < j < errors.len() ==> (#[trigger] errors[i]).0 != (#[trigger] errors[j]).0
}

impl ApiResponseErrors {
    /// Whether no field stands twice.
    pub closed spec fn wf(&self) -> bool {
        fields_distinct(self@)
    }

    /// An answer that objects to nothing.
    pub fn new() -> (answer: ApiResponseErrors)
        ensures
            answer.wf(),
            answer@.len() == 0,
    {
        ApiResponseErrors { errors: Vec::new() }
    }

    /// Attaches `messages` to `field`. A field that already stands keeps its
    /// place and gets the new messages in place of the old; a new field
    /// comes last.
    pub fn insert(&mut self, field: String, messages: Vec<String>)
        requires
            old(self).wf(),
        ensures
            final(self).wf(),
            names_field(old(self)@, field@) ==> exists|i: int|
                0 <= i < old(self)@.len() && old(self)@[i].0 == field@ && final(self)@ == old(
                    self,
                )@.update(i, (field@, texts(messages@))),
            !names_field(old(self)@, field@) ==> final(self)@ == old(self)@.push(
                (field@, texts(messages@)),
            ),
    {
        let mut i: usize = 0;
        while i < self.errors.len()
            invariant
                i <= self.errors.len(),
                self.errors == old(self).errors,
                fields_distinct(self@),
                forall|k: int| 0 <= k < i ==> (#[trigger] self@[k]).0 != field@,
            decreases self.errors.len() - i,
        {
            if same_text(self.errors[i].0.as_str(), field.as_str()) {
                let ghost before = self@;
                self.errors.set(i, (field, messages));
                assert(self@ =~= before.update(i as int, (field@, texts(messages@))));
                assert(before[i as int].0 == field@);
                assert forall|a: int, b: int| 0 <= a < b < self@.len() implies (#[trigger] self@[a]).0
                    != (#[trigger] self@[b]).0 by {
                    assert(self@[a].0 == before[a].0);
                    assert(self@[b].0 == before[b].0);
                }
                return ;
            }
            i += 1;
        }
        let ghost before = self@;
        self.errors.push((field, messages));
        assert(self@ =~= before.push((field@, texts(messages@))));
        assert forall|a: int, b: int| 0 <= a < b < self@.len() implies (#[trigger] self@[a]).0
            != (#[trigger] self@[b]).0 by {
            assert(self@[a] == before[a]);
            if b < before.len() {
                assert(self@[b] == before[b]);
            }
        }
    }

    /// The fields with their messages.
    pub fn into_errors(self) -> (errors: Vec<(String, Vec<String>)>)
        ensures
            field_errors(errors@) == self@,
    {
        self.errors
    }
}

/// All that can go wrong with a request.
#[derive(Debug)]
pub enum Error {
    ConstructRequest,
    CantCreateHeaders,
    CantAppendHeaders,
    RequestFailure,
    MalformedResponse,
    FailedJson,
    FailedAwaitingJson,
    /// The answer could not be read as what was expected; `source` says
    /// why.
    DeserializeFailure { source: String },
    /// The request could not be written down; `source` says why.
    SerializeFailure { source: String },
    /// The backend rejected the submission.
    ResponseErrors { errors: Vec<(String, Vec<String>)> },
}

/// An error with its texts as sequences of characters.
pub enum ErrorView {
    ConstructRequest,
    CantCreateHeaders,
    CantAppendHeaders,
    RequestFailure,
    MalformedResponse,
    FailedJson,
    FailedAwaitingJson,
    DeserializeFailure { source: Seq<char> },
    SerializeFailure { source: Seq<char> },
    ResponseErrors { errors: FieldErrors },
}

impl View for Error {
    type V = ErrorView;

    open spec fn view(&self) -> ErrorView {
        match self {
            Error::ConstructRequest => ErrorView::ConstructRequest,
            Error::CantCreateHeaders => ErrorView::CantCreateHeaders,
            Error::CantAppendHeaders => ErrorView::CantAppendHeaders,
            Error::RequestFailure => ErrorView::RequestFailure,
            Error::MalformedResponse => ErrorView::MalformedResponse,
            Error::FailedJson => ErrorView::FailedJson,
            Error::FailedAwaitingJson => ErrorView::FailedAwaitingJson,
            Error::DeserializeFailure { source } => ErrorView::DeserializeFailure {
                source: source@,
            },
            Error::SerializeFailure { source } => ErrorView::SerializeFailure { source: source@ },
            Error::ResponseErrors { errors } => ErrorView::ResponseErrors {
                errors: field_errors(errors@),
            },
        }
    }
}

/// What an error says of itself.
pub open spec fn message_of(error: ErrorView) -> Seq<char> {
    match error {
        ErrorView::ConstructRequest => "could not construct request"@,
        ErrorView::CantCreateHeaders => "could not create request headers"@,
        ErrorView::CantAppendHeaders => "could not set request headers"@,
        ErrorView::RequestFailure => "request failure"@,
        ErrorView::MalformedResponse => "response was malformed"@,
        ErrorView::FailedJson => "response was not json"@,
        ErrorView::FailedAwaitingJson => "timed out awaiting json"@,
        ErrorView::DeserializeFailure { source } => "could not deserialize response json: "@
            + source,
        ErrorView::SerializeFailure { source } => "could not serialize request json: "@ + source,
        ErrorView::ResponseErrors { .. } => "ResponseErrors"@,
    }
}

/// One line for each message of a field: the field, a space, the message.
pub open spec fn lines_of_field(field: Seq<char>, messages: Seq<Seq<char>>) -> Seq<Seq<char>> {
    Seq::new(messages.len(), |i: int| field + " "@ + messages[i])
}

/// The lines of all fields, field after field.
pub open spec fn lines_of_fields(errors: FieldErrors) -> Seq<Seq<char>>
    decreases errors.len(),
{
    if errors.len() == 0 {
        Seq::<Seq<char>>::empty()
    } else {
        lines_of_fields(errors.drop_last()) + lines_of_field(errors.last().0, errors.last().1)
    }
}

/// The lines that an error shows in a list of errors: a rejected submission
/// shows one line for each message of each field, every other error the one
/// line that it says of itself.
pub open spec fn lines_of(error: ErrorView) -> Seq<Seq<char>> {
    match error {
        ErrorView::ResponseErrors { errors } => lines_of_fields(errors),
        _ => seq![message_of(error)],
    }
}

impl Error {
    /// What the error says of itself.
    pub fn message(&self) -> (text: String)
        ensures
            text@ == message_of(self@),
    {
        match self {
            Error::ConstructRequest => String::from_str("could not construct request"),
            Error::CantCreateHeaders => String::from_str("could not create request headers"),
            Error::CantAppendHeaders => String::from_str("could not set request headers"),
            Error::RequestFailure => String::from_str("request failure"),
            Error::MalformedResponse => String::from_str("response was malformed"),
            Error::FailedJson => String::from_str("response was not json"),
            Error::FailedAwaitingJson => String::from_str("timed out awaiting json"),
            Error::DeserializeFailure { source } => {
                let mut text = String::from_str("could not deserialize response json: ");
                text.append(source.as_str());
                text
            },
            Error::SerializeFailure { source } => {
                let mut text = String::from_str("could not serialize request json: ");
                text.append(source.as_str());
                text
            },
            Error::ResponseErrors { .. } => String::from_str("ResponseErrors"),
        }
    }

    /// The lines that the error shows in a list of errors.
    pub fn lines(&self) -> (lines: Vec<String>)
        ensures
            texts(lines@) == lines_of(self@),
    {
        match self {
            Error::ResponseErrors { errors } => {
                let mut lines: Vec<String> = Vec::new();
                let mut i: usize = 0;
                assert(field_errors(errors@).take(0) =~= Seq::empty());
                while i < errors.len()
                    invariant
                        i <= errors.len(),
                        texts(lines@) == lines_of_fields(field_errors(errors@).take(i as int)),
                    decreases errors.len() - i,
                {
                    let field = &errors[i].0;
                    let messages = &errors[i].1;
                    let ghost done = texts(lines@);
                    let mut j: usize = 0;
                    while j < messages.len()
                        invariant
                            j <= messages.len(),
                            texts(lines@) =~= done + lines_of_field(field@, texts(messages@)).take(
                                j as int,
                            ),
                        decreases messages.len() - j,
                    {
                        let ghost before = lines@;
                        let mut line = field.clone();
                        line.append(" ");
                        line.append(messages[j].as_str());
                        lines.push(line);
                        assert(texts(lines@) =~= texts(before).push(line@));
                        j += 1;
                    }
                    proof {
                        let all = field_errors(errors@);
                        let own = lines_of_field(field@, texts(messages@));
                        assert(own.take(own.len() as int) =~= own);
                        assert(all.take(i + 1).drop_last() =~= all.take(i as int));
                        assert(all.take(i + 1).last() == (field@, texts(messages@)));
                    }
                    i += 1;
                }
                assert(field_errors(errors@).take(i as int) =~= field_errors(errors@));
                lines
            },
            _ => {
                let mut lines: Vec<String> = Vec::new();
                let text = self.message();
                lines.push(text);
                assert(texts(lines@) =~= seq![text@]);
                lines
            },
        }
    }
}

impl From<Error> for Vec<String> {
    /// The lines that the error shows in a list of errors.
    fn from(error: Error) -> (lines: Vec<String>)
        ensures
            texts(lines@) == lines_of(error@),
    {
        error.lines()
    }
}

impl vstd::std_specs::convert::FromSpecImpl<Error> for Vec<String> {
    /// The conversion is stated over views, on `from` itself: two strings
    /// with the same characters need not be the same value.
    open spec fn obeys_from_spec() -> bool {
        false
    }

    open spec fn from_spec(error: Error) -> Vec<String> {
        arbitrary()
    }
}

/// What a request carries to the backend. Either is sent as the `user` of a
/// JSON object.
#[derive(Debug)]
pub enum Body {
    Registration(UserRegistration),
    Update(UserUpdate),
}

/// A body with its texts as sequences of characters.
pub enum BodyView {
    Registration(UserRegistrationView),
    Update(UserUpdateView),
}

impl View for Body {
    type V = BodyView;

    open spec fn view(&self) -> BodyView {
        match self {
            Body::Registration(user) => BodyView::Registration(user@),
            Body::Update(user) => BodyView::Update(user@),
        }
    }
}

/// The view of a body that may be absent.
pub open spec fn opt_body(o: Option<Body>) -> Option<BodyView> {
    match o {
        Some(body) => Some(body@),
        None => None,
    }
}

/// The views of a list of headers.
pub open spec fn header_texts(headers: Seq<(String, String)>) -> Seq<(Seq<char>, Seq<char>)> {
    Seq::new(headers.len(), |i: int| (headers[i].0@, headers[i].1@))
}

/// A request to the backend, ready to be sent across origins.
#[derive(Debug)]
pub struct Request {
    pub url: String,
    pub method: String,
    pub headers: Vec<(String, String)>,
    pub body: Option<Body>,
}

/// A request with its texts as sequences of characters.
pub struct RequestView {
    pub url: Seq<char>,
    pub method: Seq<char>,
    pub headers: Seq<(Seq<char>, Seq<char>)>,
    pub body: Option<BodyView>,
}

impl View for Request {
    type V = RequestView;

    open spec fn view(&self) -> RequestView {
        RequestView {
            url: self.url@,
            method: self.method@,
            headers: header_texts(self.headers@),
            body: opt_body(self.body),
        }
    }
}

/// The headers of every request: the content is JSON, and whoever holds a
/// token shows it.
pub open spec fn headers_for(o_auth: Option<Seq<char>>) -> Seq<(Seq<char>, Seq<char>)> {
    let content = ("Content-Type"@, "application/json; charset=utf-8"@);
    match o_auth {
        Some(token) => seq![content, ("Authorization"@, "Token "@ + token)],
        None => seq![content],
    }
}

/// The view of a borrowed text that may be absent.
pub open spec fn opt_str(o: Option<&str>) -> Option<Seq<char>> {
    match o {
        Some(s) => Some(s@),
        None => None,
    }
}

/// The headers of a request.
pub fn req_init(o_auth: Option<&str>) -> (headers: Vec<(String, String)>)
    ensures
        header_texts(headers@) == headers_for(opt_str(o_auth)),
{
    let mut headers: Vec<(String, String)> = Vec::new();
    headers.push(
        (String::from_str("Content-Type"), String::from_str("application/json; charset=utf-8")),
    );
    match o_auth {
        Some(token) => {
            let mut value = String::from_str("Token ");
            value.append(token);
            headers.push((String::from_str("Authorization"), value));
        },
        None => {},
    }
    assert(header_texts(headers@) =~= headers_for(opt_str(o_auth)));
    headers
}

/// The request that asks `url` with `method`, carrying `o_body` and showing
/// `o_auth`.
pub fn api(url: &str, method: &str, o_body: Option<Body>, o_auth: Option<&str>) -> (request:
    Request)
    ensures
        request@ == (RequestView {
            url: url@,
            method: method@,
            headers: headers_for(opt_str(o_auth)),
            body: opt_body(o_body),
        }),
{
    Request {
        url: String::from_str(url),
        method: String::from_str(method),
        headers: req_init(o_auth),
        body: o_body,
    }
}

/// What a request has brought, once its answer is read. `decoded` is the
/// answer read as what was asked for, or why it could not be read so;
/// `rejected` is the answer read as a rejection, where it is one.
///
/// An answer that reads as asked is the result. One that does not is a
/// rejection with its fields if it reads as one, and a failure to
/// deserialize otherwise.
pub fn response<T>(decoded: Result<T, String>, rejected: Option<ApiResponseErrors>) -> (result:
    Result<T, Error>)
    ensures
        match decoded {
            Ok(value) => result == Ok::<T, Error>(value),
            Err(source) => result is Err && result->Err_0@ == (match rejected {
                Some(answer) => ErrorView::ResponseErrors { errors: answer@ },
                None => ErrorView::DeserializeFailure { source: source@ },
            }),
        },
{
    match decoded {
        Ok(value) => Ok(value),
        Err(source) => match rejected {
            Some(answer) => Err(Error::ResponseErrors { errors: answer.into_errors() }),
            None => Err(Error::DeserializeFailure { source }),
        },
    }
}

} // verus!
