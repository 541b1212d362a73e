//! The errors that a request can end in.

use vstd::prelude::*;

verus! {

/// The ways in which a request can fail.
#[derive(Clone, Copy, Debug, PartialEq, Eq, Structural)]
pub enum ErrorKind {
    /// The call to the table store failed.
    QueryFailed,
    /// A raw item does not have the shape of the record asked for.
    DeserializationFailed,
    /// Nothing matched where exactly one record was required.
    NotFound,
    /// More than one record matched where exactly one was required.
    MultipleMatches,
}

/// A failed request: its kind and the text shown to the caller.
#[derive(Clone, Debug, PartialEq, Eq)]
pub struct ApiError {
    pub kind: ErrorKind,
    pub message: String,
}

/// The mathematical value of an [`ApiError`].
pub ghost struct ApiErrorView {
    pub kind: ErrorKind,
    pub message: Seq<char>,
}

impl View for ApiError {
    type V = ApiErrorView;

    open spec fn view(&self) -> ApiErrorView {
        ApiErrorView { kind: self.kind, message: self.message@ }
    }
}

/// The error for an item that does not have the record's shape.
pub open spec fn deserialization_failed() -> ApiErrorView {
    ApiErrorView {
        kind: ErrorKind::DeserializationFailed,
        message: "Error deserializing data"@,
    }
}

/// The error for an empty result where one record was required.
pub open spec fn no_items() -> ApiErrorView {
    ApiErrorView { kind: ErrorKind::NotFound, message: "No items returned"@ }
}

/// The error for several records where one was required.
pub open spec fn too_many_items() -> ApiErrorView {
    ApiErrorView { kind: ErrorKind::MultipleMatches, message: "More than one item returned"@ }
}

/// The text of a failed store call: it names the partition key and the sort key,
/// or `no sk` where the query had no sort key.
pub open spec fn query_failed_message(pk: Seq<char>, sk: Option<Seq<char>>) -> Seq<char> {
    "Error querying DDB, "@ + pk + ", "@ + match sk {
        Some(sk) => sk,
        None => "no sk"@,
    }
}

/// The error for a failed store call on the given keys.
pub open spec fn query_failed(pk: Seq<char>, sk: Option<Seq<char>>) -> ApiErrorView {
    ApiErrorView { kind: ErrorKind::QueryFailed, message: query_failed_message(pk, sk) }
}

/// The error for a category handle that nothing in the store matches.
pub open spec fn category_not_found() -> ApiErrorView {
    ApiErrorView {
        kind: ErrorKind::NotFound,
        message: "Looks like this category doesn't exist"@,
    }
}

/// The error for a category handle that several stored records match.
pub open spec fn ambiguous_category() -> ApiErrorView {
    ApiErrorView {
        kind: ErrorKind::MultipleMatches,
        message: "More than one item found for this category"@,
    }
}

/// The view of an optional text.
pub open spec fn optional_text(text: Option<&str>) -> Option<Seq<char>> {
    match text {
        Some(text) => Some(text@),
        None => None,
    }
}

/// Whether `part` stands somewhere in `whole`, unbroken.
pub open spec fn occurs_in(part: Seq<char>, whole: Seq<char>) -> bool {
    exists|start: int|
        0 <= start && start + part.len() <= whole.len() && #[trigger] whole.subrange(
            start,
            start + part.len(),
        ) == part
}

/// The text of a failed store call carries both keys of the query.
pub proof fn lemma_query_failed_message_carries_keys(pk: Seq<char>, sk: Option<Seq<char>>)
    ensures
        occurs_in(pk, query_failed_message(pk, sk)),
        sk matches Some(sort_key) ==> occurs_in(sort_key, query_failed_message(pk, sk)),
        sk is None ==> occurs_in("no sk"@, query_failed_message(pk, sk)),
{
    let head = "Error querying DDB, "@;
    let comma = ", "@;
    let tail = match sk {
        Some(sk) => sk,
        None => "no sk"@,
    };
    let whole = query_failed_message(pk, sk);
    assert(whole == head + pk + comma + tail);
    let at_pk = head.len() as int;
    assert(whole.subrange(at_pk, at_pk + pk.len()) =~= pk);
    let at_tail = (head.len() + pk.len() + comma.len()) as int;
    assert(whole.subrange(at_tail, at_tail + tail.len()) =~= tail);
}

impl ApiError {
    /// An error of the given kind with the given text.
    pub fn new(kind: ErrorKind, message: &str) -> (e: ApiError)
        ensures
            e@ == (ApiErrorView { kind, message: message@ }),
    {
        ApiError { kind, message: message.to_owned() }
    }

    pub fn deserialization_failed() -> (e: ApiError)
        ensures
            e@ == deserialization_failed(),
    {
        ApiError::new(ErrorKind::DeserializationFailed, "Error deserializing data")
    }

    pub fn no_items() -> (e: ApiError)
        ensures
            e@ == no_items(),
    {
        ApiError::new(ErrorKind::NotFound, "No items returned")
    }

    /// The error for a failed store call on the given keys.
    pub fn query_failed(pk: &str, sk: Option<&str>) -> (e: ApiError)
        ensures
            e@ == query_failed(pk@, optional_text(sk)),
    {
        let mut message = "Error querying DDB, ".to_owned();
        message.append(pk);
        message.append(", ");
        match sk {
            Some(sk) => message.append(sk),
            None => message.append("no sk"),
        }
        ApiError { kind: ErrorKind::QueryFailed, message }
    }

    pub fn category_not_found() -> (e: ApiError)
        ensures
            e@ == category_not_found(),
    {
        ApiError::new(ErrorKind::NotFound, "Looks like this category doesn't exist")
    }

    pub fn ambiguous_category() -> (e: ApiError)
        ensures
            e@ == ambiguous_category(),
    {
        ApiError::new(ErrorKind::MultipleMatches, "More than one item found for this category")
    }

    pub fn too_many_items() -> (e: ApiError)
        ensures
            e@ == too_many_items(),
    {
        ApiError::new(ErrorKind::MultipleMatches, "More than one item returned")
    }
}

} // verus!
