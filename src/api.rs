//! Write client: the answers of the write API and what they mean.
use vstd::prelude::*;
use crate::bridge::{opt_view, regex_group, regex_group_of};
use crate::text::{cat, same_text};

verus! {

/// Name of the message by which the store rejects a label that another entity
/// already holds.
pub const WIKIBASE_LABEL_CONFLICT: &'static str = "wikibase-validator-label-conflict";

/// The conflicting entity appears in a message parameter as `[[Property:P31|P31]]`;
/// the capture is its identifier.
pub const LABEL_CONFLICT_PATTERN: &'static str = "\\[\\[.+\\|(.+)\\]\\]";

/// Failures of the write client.
#[derive(Debug, Clone, PartialEq, Eq)]
pub enum ApiError {
    /// Creation refused because `id` already holds `label`.
    PropertyAlreadyExists { label: String, id: String },
    TooManyItems(String),
    EntityNotFound(String),
    /// The request could not be carried out.
    Transport(String),
    /// The answer was not the expected JSON.
    InvalidJson(String),
    GenericError(String),
}

impl ApiError {
    /// A line describing the error.
    pub fn message(&self) -> (r: String)
        ensures
            r@ == match self {
                ApiError::PropertyAlreadyExists { label, id } => label@ + " already exists, id = "@
                    + id@,
                ApiError::TooManyItems(l) => "Several items with label "@ + l@,
                ApiError::EntityNotFound(i) => "Cannot find entity "@ + i@,
                ApiError::Transport(m) => "error: "@ + m@,
                ApiError::InvalidJson(m) => "error: "@ + m@,
                ApiError::GenericError(m) => "error: "@ + m@,
            },
    {
        match self {
            ApiError::PropertyAlreadyExists { label, id } => {
                let s = cat(label.as_str(), " already exists, id = ");
                cat(s.as_str(), id.as_str())
            },
            ApiError::TooManyItems(l) => cat("Several items with label ", l.as_str()),
            ApiError::EntityNotFound(i) => cat("Cannot find entity ", i.as_str()),
            ApiError::Transport(m) => cat("error: ", m.as_str()),
            ApiError::InvalidJson(m) => cat("error: ", m.as_str()),
            ApiError::GenericError(m) => cat("error: ", m.as_str()),
        }
    }
}

/// A named message of an error answer, with its positional parameters.
#[derive(Debug, Clone)]
pub struct Message {
    pub name: String,
    pub parameters: Vec<String>,
}

/// The error part of an answer.
#[derive(Debug, Clone)]
pub struct Error {
    pub code: String,
    pub info: String,
    pub messages: Vec<Message>,
}

/// The entity an edit created or changed.
#[derive(Debug, Clone)]
pub struct InsertEntity {
    pub id: String,
}

/// An answer holds either an entity or an error.
#[derive(Debug, Clone)]
pub enum ApiResponseContent {
    Entity(InsertEntity),
    Error(Error),
}

/// An answer of the write API to an edit.
#[derive(Debug, Clone)]
pub struct ApiResponse {
    pub content: ApiResponseContent,
}

/// The text of the error made of an error answer.
pub open spec fn api_error_text(e: Error) -> Seq<char> {
    "Api error '"@ + e.code@ + "': "@ + e.info@ + " "@
}

impl ApiResponse {
    /// The store may answer an edit with success status and an error inside;
    /// such an answer becomes an error, any other is kept.
    pub fn error_for_status(self) -> (r: Result<ApiResponse, ApiError>)
        ensures
            self.content is Entity ==> r == Ok::<ApiResponse, ApiError>(self),
            self.content is Error ==> r is Err && r->Err_0 is GenericError
                && r->Err_0->GenericError_0@ == api_error_text(self.content->Error_0),
    {
        match &self.content {
            ApiResponseContent::Entity(_) => Ok(self),
            ApiResponseContent::Error(e) => {
                let s = cat("Api error '", e.code.as_str());
                let s = cat(s.as_str(), "': ");
                let s = cat(s.as_str(), e.info.as_str());
                let s = cat(s.as_str(), " ");
                Err(ApiError::GenericError(s))
            },
        }
    }
}

/// Index of the first message that reports a label conflict, if any.
pub open spec fn first_conflict(messages: Seq<Message>) -> Option<int>
    decreases messages.len(),
{
    if messages.len() == 0 {
        None
    } else {
        match first_conflict(messages.drop_last()) {
            Some(i) => Some(i),
            None => if messages.last().name@ == WIKIBASE_LABEL_CONFLICT@ {
                Some(messages.len() - 1)
            } else {
                None
            },
        }
    }
}

proof fn lemma_first_conflict_prefix(messages: Seq<Message>, i: int)
    requires
        0 <= i < messages.len(),
        first_conflict(messages.subrange(0, i)) is None,
    ensures
        first_conflict(messages.subrange(0, i + 1)) == (if messages[i].name@
            == WIKIBASE_LABEL_CONFLICT@ {
            Some(i)
        } else {
            None::<int>
        }),
{
    let p = messages.subrange(0, i + 1);
    assert(p.drop_last() =~= messages.subrange(0, i));
}

/// The identifier that a conflict message names: the capture of its last
/// parameter, if it has one.
pub open spec fn conflict_id_of(m: Message) -> Option<Seq<char>> {
    if m.parameters@.len() == 0 {
        None
    } else {
        regex_group_of(LABEL_CONFLICT_PATTERN@, m.parameters@.last()@, 1)
    }
}

/// What creating an entity labelled `label` returns when the store answered
/// `response`.
pub open spec fn create_outcome(response: ApiResponse, label: Seq<char>) -> Result<
    (Seq<char>, bool),
    Seq<char>,
> {
    match response.content {
        ApiResponseContent::Entity(e) => Ok((e.id@, true)),
        ApiResponseContent::Error(err) => match first_conflict(err.messages@) {
            Some(i) => match conflict_id_of(err.messages@[i]) {
                Some(id) => Ok((id, false)),
                None => Err("conflict while inserting: "@ + err.info@),
            },
            None => Err("Error while inserting: "@ + err.info@),
        },
    }
}

/// The identifier that a label conflict message cites, read from its last
/// parameter.
pub fn conflict_id(m: &Message) -> (r: Option<String>)
    ensures
        opt_view(r) == conflict_id_of(*m),
{
    let n = m.parameters.len();
    if n == 0 {
        None
    } else {
        regex_group(LABEL_CONFLICT_PATTERN, m.parameters[n - 1].as_str(), 1)
    }
}

/// The error for a creation of `label` refused by a label conflict whose
/// message cites `existing` (none when no identifier could be read): the
/// entity holding the label, or a generic error with the store's `info`.
pub fn conflict_error(label: &str, info: &str, existing: Option<String>) -> (r: ApiError)
    ensures
        match existing {
            Some(id) => r == ApiError::PropertyAlreadyExists { label: r->label, id }
                && r->label@ == label@,
            None => r is GenericError && r->GenericError_0@ == "conflict while inserting: "@
                + info@,
        },
{
    match existing {
        Some(id) => ApiError::PropertyAlreadyExists { label: label.to_owned(), id },
        None => ApiError::GenericError(cat("conflict while inserting: ", info)),
    }
}

/// Reads the answer to a creation of an entity labelled `label`: its
/// identifier; or, when another entity holds the label and the message names it,
/// `PropertyAlreadyExists` with that entity; or a generic error carrying the
/// store's text. No identifier is ever made up.
pub fn create_result(response: ApiResponse, label: &str) -> (r: Result<String, ApiError>)
    ensures
        match create_outcome(response, label@) {
            Ok((id, true)) => r is Ok && r->Ok_0@ == id,
            Ok((id, false)) => r is Err && r->Err_0 is PropertyAlreadyExists
                && r->Err_0->label@ == label@ && r->Err_0->id@ == id,
            Err(text) => r is Err && r->Err_0 is GenericError
                && r->Err_0->GenericError_0@ == text,
        },
{
    match &response.content {
        ApiResponseContent::Entity(entity) => Ok(entity.id.clone()),
        ApiResponseContent::Error(err) => {
            let mut i: usize = 0;
            let n = err.messages.len();
            while i < n
                invariant
                    response.content == ApiResponseContent::Error(*err),
                    n == err.messages@.len(),
                    i <= n,
                    first_conflict(err.messages@.subrange(0, i as int)) is None,
                decreases n - i,
            {
                proof {
                    lemma_first_conflict_prefix(err.messages@, i as int);
                }
                if same_text(err.messages[i].name.as_str(), WIKIBASE_LABEL_CONFLICT) {
                    proof {
                        lemma_first_conflict_in_prefix(err.messages@, i as int + 1);
                    }
                    assert(first_conflict(err.messages@) == Some(i as int));
                    let existing = conflict_id(&err.messages[i]);
                    return Err(conflict_error(label, err.info.as_str(), existing));
                }
                i = i + 1;
            }
            assert(err.messages@.subrange(0, n as int) =~= err.messages@);
            Err(ApiError::GenericError(cat("Error while inserting: ", err.info.as_str())))
        },
    }
}

/// A conflict found in a prefix is the first conflict of the whole list.
proof fn lemma_first_conflict_in_prefix(messages: Seq<Message>, j: int)
    requires
        0 <= j <= messages.len(),
    ensures
        first_conflict(messages.subrange(0, j)) is Some ==> first_conflict(messages)
            == first_conflict(messages.subrange(0, j)),
    decreases messages.len() - j,
{
    if j < messages.len() {
        lemma_first_conflict_in_prefix(messages, j + 1);
        let p = messages.subrange(0, j + 1);
        assert(p.drop_last() =~= messages.subrange(0, j));
    } else {
        assert(messages.subrange(0, j) =~= messages);
    }
}

/// The answer to a request for an edit token.
#[derive(Debug, Clone)]
pub struct Tokens {
    pub csrftoken: String,
}

#[derive(Debug, Clone)]
pub struct TokenQuery {
    pub tokens: Tokens,
}

#[derive(Debug, Clone)]
pub struct TokenResponse {
    pub query: TokenQuery,
}

/// An English label of an entity.
#[derive(Debug, Clone)]
pub struct Label {
    pub language: String,
    pub value: String,
}

/// One hit of a label search.
#[derive(Debug, Clone)]
pub struct SearchResultItem {
    pub id: String,
    pub label: String,
    pub url: String,
}

/// The answer to a label search.
#[derive(Debug, Clone)]
pub struct SearchResponse {
    pub search: Vec<SearchResultItem>,
}

/// A reference to an entity inside a claim.
#[derive(Debug, Clone)]
pub struct Value {
    pub id: String,
}

/// The answer to a creation.
#[derive(Debug, Clone)]
pub struct InsertResponse {
    pub entity: InsertEntity,
}

} // verus!
