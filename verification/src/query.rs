//! Key-condition queries: the requests put to the table store, and what comes of them.
//!
//! The hosting process sends each request and hands back what the store returned.

use crate::error::{optional_text, query_failed, ApiError};
use crate::item::ResultSet;
use vstd::prelude::*;

verus! {

/// The string that stands for one placeholder of a request's expressions.
#[derive(Clone, Debug, PartialEq, Eq)]
pub struct Substitution {
    /// The placeholder as the expressions write it, colon included.
    pub placeholder: String,
    /// The string attribute value put in its place.
    pub value: String,
}

/// The views of a list of substitutions: placeholder and value, in the same order.
pub open spec fn substitutions_of(list: Seq<Substitution>) -> Seq<(Seq<char>, Seq<char>)> {
    Seq::new(list.len(), |i: int| (list[i].placeholder@, list[i].value@))
}

/// One lookup in the table store.
#[derive(Clone, Debug, PartialEq, Eq)]
pub struct QueryRequest {
    /// The table to look in.
    pub table_name: String,
    /// The condition on the keys, with placeholders for the values.
    pub key_condition_expression: String,
    /// A condition on other attributes that the store applies to the matching items.
    pub filter_expression: Option<String>,
    /// The value for each placeholder, each placeholder once.
    pub expression_attribute_values: Vec<Substitution>,
}

/// The mathematical value of a [`QueryRequest`].
pub ghost struct QueryRequestView {
    pub table_name: Seq<char>,
    pub key_condition_expression: Seq<char>,
    pub filter_expression: Option<Seq<char>>,
    pub expression_attribute_values: Seq<(Seq<char>, Seq<char>)>,
}

impl View for QueryRequest {
    type V = QueryRequestView;

    open spec fn view(&self) -> QueryRequestView {
        QueryRequestView {
            table_name: self.table_name@,
            key_condition_expression: self.key_condition_expression@,
            filter_expression: match self.filter_expression {
                Some(filter) => Some(filter@),
                None => None,
            },
            expression_attribute_values: substitutions_of(self.expression_attribute_values@),
        }
    }
}

/// The lookup of the items whose partition key equals `pk` and, where `sk` is given,
/// whose sort key equals `sk`.
pub open spec fn key_query(
    table_name: Seq<char>,
    pk: Seq<char>,
    sk: Option<Seq<char>>,
) -> QueryRequestView {
    match sk {
        Some(sk) => QueryRequestView {
            table_name,
            key_condition_expression: "partition_key = :pk AND sort_key = :sk"@,
            filter_expression: None,
            expression_attribute_values: seq![(":pk"@, pk), (":sk"@, sk)],
        },
        None => QueryRequestView {
            table_name,
            key_condition_expression: "partition_key = :pk"@,
            filter_expression: None,
            expression_attribute_values: seq![(":pk"@, pk)],
        },
    }
}

/// The lookup of the category records whose sort key begins with `handle`.
pub open spec fn category_query(table_name: Seq<char>, handle: Seq<char>) -> QueryRequestView {
    QueryRequestView {
        table_name,
        key_condition_expression: "partition_key = :pk_val AND begins_with(sort_key, :sk_val)"@,
        filter_expression: None,
        expression_attribute_values: seq![(":pk_val"@, "CATEGORY"@), (":sk_val"@, handle)],
    }
}

/// The lookup of the product records whose `category` attribute equals `handle`.
pub open spec fn category_products_query(
    table_name: Seq<char>,
    handle: Seq<char>,
) -> QueryRequestView {
    QueryRequestView {
        table_name,
        key_condition_expression: "partition_key = :prod"@,
        filter_expression: Some("category = :category_name"@),
        expression_attribute_values: seq![(":prod"@, "PRODUCT"@), (":category_name"@, handle)],
    }
}

/// The substitution of `value` for `placeholder`.
fn substitute(placeholder: &str, value: &str) -> (substitution: Substitution)
    ensures
        substitution.placeholder@ == placeholder@,
        substitution.value@ == value@,
{
    Substitution { placeholder: placeholder.to_owned(), value: value.to_owned() }
}

/// Plans the one lookup that a key query makes: equality on the partition key and,
/// where a sort key is given, on the sort key.
pub fn plan_key_query(table_name: String, pk: &str, sk: Option<&str>) -> (request: QueryRequest)
    ensures
        request@ == key_query(table_name@, pk@, optional_text(sk)),
{
    let mut values: Vec<Substitution> = Vec::new();
    values.push(substitute(":pk", pk));
    match sk {
        Some(sk) => {
            values.push(substitute(":sk", sk));
            assert(substitutions_of(values@) =~= seq![(":pk"@, pk@), (":sk"@, sk@)]);
            QueryRequest {
                table_name,
                key_condition_expression: "partition_key = :pk AND sort_key = :sk".to_owned(),
                filter_expression: None,
                expression_attribute_values: values,
            }
        },
        None => {
            assert(substitutions_of(values@) =~= seq![(":pk"@, pk@)]);
            QueryRequest {
                table_name,
                key_condition_expression: "partition_key = :pk".to_owned(),
                filter_expression: None,
                expression_attribute_values: values,
            }
        },
    }
}

/// Settles a key query on `pk` and `sk` once the store has answered: `outcome` is what
/// the store returned, or `None` where the call failed.
///
/// A result set is passed on as it is. A failed call becomes a `QueryFailed` error whose
/// text names both keys.
pub fn query_ddb(pk: &str, sk: Option<&str>, outcome: Option<ResultSet>) -> (r: Result<
    ResultSet,
    ApiError,
>)
    ensures
        match outcome {
            Some(results) => r == Ok::<ResultSet, ApiError>(results),
            None => r matches Err(e) && e@ == query_failed(pk@, optional_text(sk)),
        },
{
    match outcome {
        Some(results) => Ok(results),
        None => Err(ApiError::query_failed(pk, sk)),
    }
}

/// Plans the lookup for one category: partition key `CATEGORY`, sort key beginning with
/// the handle.
pub fn plan_category_query(table_name: String, category_handle: &str) -> (request: QueryRequest)
    ensures
        request@ == category_query(table_name@, category_handle@),
{
    let mut values: Vec<Substitution> = Vec::new();
    values.push(substitute(":pk_val", "CATEGORY"));
    values.push(substitute(":sk_val", category_handle));
    assert(substitutions_of(values@) =~= seq![
        (":pk_val"@, "CATEGORY"@),
        (":sk_val"@, category_handle@),
    ]);
    QueryRequest {
        table_name,
        key_condition_expression: "partition_key = :pk_val AND begins_with(sort_key, :sk_val)".to_owned(),
        filter_expression: None,
        expression_attribute_values: values,
    }
}

/// Plans the lookup for the products of one category: partition key `PRODUCT`, filtered
/// by the store on the `category` attribute.
pub fn plan_category_products_query(table_name: String, category_handle: &str) -> (request:
    QueryRequest)
    ensures
        request@ == category_products_query(table_name@, category_handle@),
{
    let mut values: Vec<Substitution> = Vec::new();
    values.push(substitute(":prod", "PRODUCT"));
    values.push(substitute(":category_name", category_handle));
    assert(substitutions_of(values@) =~= seq![
        (":prod"@, "PRODUCT"@),
        (":category_name"@, category_handle@),
    ]);
    QueryRequest {
        table_name,
        key_condition_expression: "partition_key = :prod".to_owned(),
        filter_expression: Some("category = :category_name".to_owned()),
        expression_attribute_values: values,
    }
}

} // verus!
