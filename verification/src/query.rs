//! Queries: SQL text with the parameters bound to it, in call order.

use sqlx::sqlite::SqliteArguments;
use sqlx::Arguments;
use std::marker::PhantomData;
use vstd::prelude::*;

verus! {

/// `sqlx::sqlite::SqliteArguments`, the driver's list of bound values.
#[verifier::external_type_specification]
#[verifier::external_body]
pub struct ExSqliteArguments<'q>(SqliteArguments<'q>);

/// One value as the driver holds it for a placeholder.
pub enum Bound {
    Null,
    Int(i32),
    Int64(i64),
    Text(Seq<char>),
    Blob(Seq<u8>),
}

/// The values that a `SqliteArguments` holds, first bound first, each as the
/// variant of `SqliteArgumentValue` that holds it.
pub uninterp spec fn bound_values(arguments: SqliteArguments<'_>) -> Seq<Bound>;

/// `SqliteArguments::default`: arguments that hold nothing.
#[verifier::external_body]
fn no_arguments<'q>() -> (arguments: SqliteArguments<'q>)
    ensures
        bound_values(arguments) == Seq::<Bound>::empty(),
{
    SqliteArguments::default()
}

/// `Arguments::add` with an absent value: the driver appends its `Null`.
#[verifier::external_body]
fn add_null<'q>(arguments: &mut SqliteArguments<'q>)
    ensures
        bound_values(*final(arguments)) == bound_values(*old(arguments)).push(Bound::Null),
{
    Arguments::add(arguments, Option::<i64>::None)
}

/// `Arguments::add` with a `bool`: the driver appends it as a 32-bit integer,
/// 1 for true and 0 for false.
#[verifier::external_body]
fn add_bool<'q>(arguments: &mut SqliteArguments<'q>, value: bool)
    ensures
        bound_values(*final(arguments)) == bound_values(*old(arguments)).push(
            Bound::Int(
                if value {
                    1i32
                } else {
                    0i32
                },
            ),
        ),
{
    Arguments::add(arguments, value)
}

/// `Arguments::add` with an `i64`: the driver appends it as a 64-bit integer.
#[verifier::external_body]
fn add_int<'q>(arguments: &mut SqliteArguments<'q>, value: i64)
    ensures
        bound_values(*final(arguments)) == bound_values(*old(arguments)).push(
            Bound::Int64(value),
        ),
{
    Arguments::add(arguments, value)
}

/// `Arguments::add` with a `String`: the driver appends it as text.
#[verifier::external_body]
fn add_text<'q>(arguments: &mut SqliteArguments<'q>, value: String)
    ensures
        bound_values(*final(arguments)) == bound_values(*old(arguments)).push(
            Bound::Text(value@),
        ),
{
    Arguments::add(arguments, value)
}

/// `Arguments::add` with a `Vec<u8>`: the driver appends it as a blob.
#[verifier::external_body]
fn add_blob<'q>(arguments: &mut SqliteArguments<'q>, value: Vec<u8>)
    ensures
        bound_values(*final(arguments)) == bound_values(*old(arguments)).push(
            Bound::Blob(value@),
        ),
{
    Arguments::add(arguments, value)
}

/// A typed value to bind to a placeholder.
#[derive(Debug)]
pub enum Param {
    Null,
    Bool(bool),
    Int(i64),
    Text(String),
    Blob(Vec<u8>),
}

/// A [`Param`] with its text and bytes as sequences.
pub enum Value {
    Null,
    Bool(bool),
    Int(i64),
    Text(Seq<char>),
    Blob(Seq<u8>),
}

impl View for Param {
    type V = Value;

    open spec fn view(&self) -> Value {
        match self {
            Param::Null => Value::Null,
            Param::Bool(b) => Value::Bool(*b),
            Param::Int(n) => Value::Int(*n),
            Param::Text(s) => Value::Text(s@),
            Param::Blob(b) => Value::Blob(b@),
        }
    }
}

impl Value {
    /// How the driver holds this value.
    pub open spec fn bound(self) -> Bound {
        match self {
            Value::Null => Bound::Null,
            Value::Bool(b) => Bound::Int(
                if b {
                    1i32
                } else {
                    0i32
                },
            ),
            Value::Int(n) => Bound::Int64(n),
            Value::Text(s) => Bound::Text(s),
            Value::Blob(b) => Bound::Blob(b),
        }
    }
}

/// What is bound after each of `values` has been bound in turn behind `bound`.
pub open spec fn bind_each(bound: Seq<Bound>, values: Seq<Value>) -> Seq<Bound>
    decreases values.len(),
{
    if values.len() == 0 {
        bound
    } else {
        bind_each(bound, values.drop_last()).push(values.last().bound())
    }
}

/// Binding keeps the order of the calls: what was bound before stays in
/// front, and behind it each value stands at its own place.
pub proof fn lemma_bind_keeps_order(bound: Seq<Bound>, values: Seq<Value>)
    ensures
        bind_each(bound, values).len() == bound.len() + values.len(),
        forall|i: int| 0 <= i < bound.len() ==> bind_each(bound, values)[i] == bound[i],
        forall|i: int|
            0 <= i < values.len() ==> #[trigger] bind_each(bound, values)[bound.len() + i]
                == values[i].bound(),
    decreases values.len(),
{
    if values.len() > 0 {
        lemma_bind_keeps_order(bound, values.drop_last());
    }
}

/// Binding keeps the type and the content of a value: the driver holds two
/// values alike only if they are the same.
pub proof fn lemma_bound_is_faithful(a: Value, b: Value)
    requires
        a.bound() == b.bound(),
    ensures
        a == b,
{
}

/// SQL text and the parameters bound to it so far, for rows of type `O`.
pub struct Query<'q, O> {
    sql: &'q str,
    arguments: SqliteArguments<'q>,
    output: PhantomData<O>,
}

impl<'q, O> Query<'q, O> {
    /// The SQL text.
    pub closed spec fn sql(&self) -> Seq<char> {
        self.sql@
    }

    /// The parameters bound so far, first bound first.
    pub closed spec fn parameters(&self) -> Seq<Bound> {
        bound_values(self.arguments)
    }

    /// A query with nothing bound.
    pub fn new(sql: &'q str) -> (q: Self)
        ensures
            q.sql() == sql@,
            q.parameters() == Seq::<Bound>::empty(),
    {
        Query { sql, arguments: no_arguments(), output: PhantomData }
    }

    /// Binds one more parameter, behind those bound before. Whether the SQL
    /// text has a placeholder for it is not looked at.
    pub fn bind(self, param: Param) -> (q: Self)
        ensures
            q.sql() == self.sql(),
            q.parameters() == self.parameters().push(param@.bound()),
    {
        let mut arguments = self.arguments;
        match param {
            Param::Null => add_null(&mut arguments),
            Param::Bool(b) => add_bool(&mut arguments, b),
            Param::Int(n) => add_int(&mut arguments, n),
            Param::Text(s) => add_text(&mut arguments, s),
            Param::Blob(b) => add_blob(&mut arguments, b),
        }
        Query { sql: self.sql, arguments, output: PhantomData }
    }

    /// Gives up the query for execution: its SQL text and its arguments.
    pub fn into_parts(self) -> (parts: (&'q str, SqliteArguments<'q>))
        ensures
            parts.0@ == self.sql(),
            bound_values(parts.1) == self.parameters(),
    {
        (self.sql, self.arguments)
    }
}

} // verus!
