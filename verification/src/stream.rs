//! What follows a lease and a fetch, and the guard that streams rows once.

use crate::error::Error;
use crate::query::Query;
use sqlx::Error as StoreError;
use vstd::prelude::*;

verus! {

/// What a caller gets once the pool has answered: the connection, or the
/// failure to acquire one.
pub fn acquired<C>(lease: Result<C, StoreError>) -> (r: Result<C, Error>)
    ensures
        lease matches Ok(c) ==> r == Ok::<C, Error>(c),
        lease matches Err(e) ==> r == Err::<C, Error>(Error::Acquire(e)),
{
    match lease {
        Ok(c) => Ok(c),
        Err(e) => Err(Error::Acquire(e)),
    }
}

/// What a caller gets once the store has answered: what was fetched (no row,
/// one row, all rows, the next row of a stream), or the failure to fetch.
pub fn fetched<T>(rows: Result<T, StoreError>) -> (r: Result<T, Error>)
    ensures
        rows matches Ok(t) ==> r == Ok::<T, Error>(t),
        rows matches Err(e) ==> r == Err::<T, Error>(Error::Fetch(e)),
{
    match rows {
        Ok(t) => Ok(t),
        Err(e) => Err(Error::Fetch(e)),
    }
}

/// The two states of a stream guard.
pub enum State<'q, O> {
    /// The query is still to be run.
    Armed(Query<'q, O>),
    /// The query was handed out.
    Exhausted,
}

impl<'q, O> State<'q, O> {
    /// The one transition: what the caller gets when the rows are asked for.
    /// An armed guard gives its query, an exhausted one refuses; either way
    /// the guard is exhausted afterwards.
    pub open spec fn asked(self) -> (Self, Result<Query<'q, O>, Error>) {
        match self {
            State::Armed(query) => (State::Exhausted, Ok(query)),
            State::Exhausted => (State::Exhausted, Err(Error::StreamExhausted)),
        }
    }

    /// A guard streams once: asked twice, it gives its query the first time
    /// if it was armed, and the second time it refuses, whatever it was.
    /// Nothing is handed out to run for the second ask.
    pub proof fn lemma_streams_once(self)
        ensures
            self matches State::Armed(query) ==> self.asked().1 == Ok::<Query<'q, O>, Error>(
                query,
            ),
            self.asked().0.asked() == (
                State::<'q, O>::Exhausted,
                Err::<Query<'q, O>, Error>(Error::StreamExhausted),
            ),
    {
    }
}

/// A leased connection of type `C` and the query to run on it, which is
/// handed out once.
pub struct SelectStream<'q, C, O> {
    conn: C,
    state: State<'q, O>,
}

impl<'q, C, O> SelectStream<'q, C, O> {
    /// The leased connection.
    pub closed spec fn connection(&self) -> C {
        self.conn
    }

    pub closed spec fn state(&self) -> State<'q, O> {
        self.state
    }

    /// An armed guard over `conn` and `query`. The query is not run.
    pub fn new(conn: C, query: Query<'q, O>) -> (guard: Self)
        ensures
            guard.connection() == conn,
            guard.state() == State::Armed(query),
    {
        SelectStream { conn, state: State::Armed(query) }
    }

    /// The guard for `query` if the pool handed out a connection, else the
    /// failure to acquire one. The query is not run either way.
    pub fn open(lease: Result<C, StoreError>, query: Query<'q, O>) -> (r: Result<Self, Error>)
        ensures
            lease matches Ok(c) ==> (r matches Ok(guard) && guard.connection() == c
                && guard.state() == State::Armed(query)),
            lease matches Err(e) ==> r == Err::<Self, Error>(Error::Acquire(e)),
    {
        match lease {
            Ok(conn) => Ok(SelectStream { conn, state: State::Armed(query) }),
            Err(e) => Err(Error::Acquire(e)),
        }
    }

    pub fn is_armed(&self) -> (armed: bool)
        ensures
            armed == (self.state() is Armed),
    {
        match self.state {
            State::Armed(_) => true,
            State::Exhausted => false,
        }
    }

    /// Hands out the query to run on the leased connection. Only the first
    /// call gets it; every later one is refused. The lease is not touched.
    pub fn stream(&mut self) -> (r: Result<Query<'q, O>, Error>)
        ensures
            (final(self).state(), r) == old(self).state().asked(),
            final(self).connection() == old(self).connection(),
    {
        let mut state = State::Exhausted;
        std::mem::swap(&mut self.state, &mut state);
        match state {
            State::Armed(query) => Ok(query),
            State::Exhausted => Err(Error::StreamExhausted),
        }
    }

    /// The leased connection, to run the query on. The state stays.
    pub fn lease(&mut self) -> (conn: &mut C)
        ensures
            *conn == old(self).connection(),
            final(self).connection() == *final(conn),
            final(self).state() == old(self).state(),
    {
        &mut self.conn
    }

    /// Ends the lease: the connection goes back to the caller, and from there
    /// to the pool.
    pub fn release(self) -> (conn: C)
        ensures
            conn == self.connection(),
    {
        self.conn
    }
}

} // verus!
