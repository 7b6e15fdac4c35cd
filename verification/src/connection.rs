//! The discipline of one connection to a store: the mode it was opened in,
//! and whether a transaction is active on it.
//!
//! A connection tracks no data. It decides whether a requested operation may
//! go ahead; the owner of the store performs the operation only on `Ok`.

use vstd::prelude::*;
use crate::error::ErrorKind;

verus! {

/// How a connection was opened. Fixed for the connection's life.
#[derive(Clone, Copy, Debug, PartialEq, Eq, Structural)]
pub enum AccessMode {
    /// Stored data may be read and never changed.
    ReadOnly,
    /// Stored data may be read and changed.
    ReadWrite,
}

/// Whether a transaction is active on a connection.
#[derive(Clone, Copy, Debug, PartialEq, Eq, Structural)]
pub enum TransactionState {
    /// No transaction is active.
    Idle,
    /// A transaction was started and has not ended.
    InTransaction,
}

/// A request that the discipline rules on.
#[derive(Clone, Copy, Debug, PartialEq, Eq, Structural)]
pub enum Operation {
    /// Start a transaction.
    Begin,
    /// End the active transaction, keeping its changes.
    Commit,
    /// End the active transaction, dropping its changes.
    Rollback,
    /// Change stored data.
    Write,
}

impl Operation {
    /// Whether the operation ends the active transaction.
    pub open spec fn ends_transaction(self) -> bool {
        self is Commit || self is Rollback
    }
}

/// What is known of a connection at one moment.
#[derive(Clone, Copy, Debug, PartialEq, Eq, Structural)]
pub struct ConnectionState {
    pub mode: AccessMode,
    pub transaction: TransactionState,
}

impl ConnectionState {
    /// The state of a connection that was just opened.
    pub open spec fn initial(mode: AccessMode) -> ConnectionState {
        ConnectionState { mode, transaction: TransactionState::Idle }
    }

    /// The ruling on `op` in this state.
    pub open spec fn verdict(self, op: Operation) -> Result<(), ErrorKind> {
        match op {
            Operation::Begin => match self.transaction {
                TransactionState::Idle => Ok(()),
                TransactionState::InTransaction => Err(ErrorKind::TransactionInProgress),
            },
            Operation::Commit | Operation::Rollback => match self.transaction {
                TransactionState::InTransaction => Ok(()),
                TransactionState::Idle => Err(ErrorKind::NoTransaction),
            },
            Operation::Write => match self.mode {
                AccessMode::ReadWrite => Ok(()),
                AccessMode::ReadOnly => Err(ErrorKind::ReadOnly),
            },
        }
    }

    /// The state after `op` was requested: a refused request changes nothing,
    /// an accepted one moves the transaction state and nothing else.
    pub open spec fn after(self, op: Operation) -> ConnectionState {
        if self.verdict(op) is Err {
            self
        } else {
            match op {
                Operation::Begin => ConnectionState {
                    mode: self.mode,
                    transaction: TransactionState::InTransaction,
                },
                Operation::Commit | Operation::Rollback => ConnectionState {
                    mode: self.mode,
                    transaction: TransactionState::Idle,
                },
                Operation::Write => self,
            }
        }
    }

    /// The state after each of `ops` was requested in turn.
    pub open spec fn after_all(self, ops: Seq<Operation>) -> ConnectionState
        decreases ops.len(),
    {
        if ops.len() == 0 {
            self
        } else {
            self.after(ops[0]).after_all(ops.drop_first())
        }
    }
}

/// One connection to a store.
#[derive(Debug)]
pub struct Connection {
    state: ConnectionState,
}

impl View for Connection {
    type V = ConnectionState;

    closed spec fn view(&self) -> ConnectionState {
        self.state
    }
}

impl Connection {
    /// Opens a connection in `mode`, with no transaction active.
    pub fn new(mode: AccessMode) -> (c: Connection)
        ensures
            c@ == ConnectionState::initial(mode),
    {
        Connection { state: ConnectionState { mode, transaction: TransactionState::Idle } }
    }

    /// The mode and transaction state at this moment.
    pub fn state(&self) -> (s: ConnectionState)
        ensures
            s == self@,
    {
        self.state
    }

    /// Starts a transaction, unless one is active.
    pub fn begin_transaction(&mut self) -> (r: Result<(), ErrorKind>)
        ensures
            r == old(self)@.verdict(Operation::Begin),
            final(self)@ == old(self)@.after(Operation::Begin),
    {
        match self.state.transaction {
            TransactionState::Idle => {
                self.state.transaction = TransactionState::InTransaction;
                Ok(())
            },
            TransactionState::InTransaction => Err(ErrorKind::TransactionInProgress),
        }
    }

    /// Ends the active transaction and keeps its changes.
    pub fn commit(&mut self) -> (r: Result<(), ErrorKind>)
        ensures
            r == old(self)@.verdict(Operation::Commit),
            final(self)@ == old(self)@.after(Operation::Commit),
    {
        match self.state.transaction {
            TransactionState::InTransaction => {
                self.state.transaction = TransactionState::Idle;
                Ok(())
            },
            TransactionState::Idle => Err(ErrorKind::NoTransaction),
        }
    }

    /// Ends the active transaction and drops its changes.
    pub fn rollback(&mut self) -> (r: Result<(), ErrorKind>)
        ensures
            r == old(self)@.verdict(Operation::Rollback),
            final(self)@ == old(self)@.after(Operation::Rollback),
    {
        match self.state.transaction {
            TransactionState::InTransaction => {
                self.state.transaction = TransactionState::Idle;
                Ok(())
            },
            TransactionState::Idle => Err(ErrorKind::NoTransaction),
        }
    }

    /// Rules on a request to change stored data. The caller changes nothing
    /// unless this returns `Ok`.
    pub fn check_write(&self) -> (r: Result<(), ErrorKind>)
        ensures
            r == self@.verdict(Operation::Write),
            self@.after(Operation::Write) == self@,
    {
        match self.state.mode {
            AccessMode::ReadWrite => Ok(()),
            AccessMode::ReadOnly => Err(ErrorKind::ReadOnly),
        }
    }

    /// Rules on `op`, whichever it is, and moves the connection accordingly.
    pub fn request(&mut self, op: Operation) -> (r: Result<(), ErrorKind>)
        ensures
            r == old(self)@.verdict(op),
            final(self)@ == old(self)@.after(op),
    {
        match op {
            Operation::Begin => self.begin_transaction(),
            Operation::Commit => self.commit(),
            Operation::Rollback => self.rollback(),
            Operation::Write => self.check_write(),
        }
    }
}

/// No request changes the mode a connection was opened in, and a refused
/// request changes nothing at all. Every refusal is a discipline violation.
pub proof fn lemma_step(s: ConnectionState, op: Operation)
    ensures
        s.after(op).mode == s.mode,
        s.verdict(op) is Err ==> s.after(op) == s,
        s.verdict(op) matches Err(e) ==> e.is_discipline_violation(),
{
}

/// The mode a connection was opened in holds for its whole life.
pub proof fn lemma_mode_is_fixed(s: ConnectionState, ops: Seq<Operation>)
    ensures
        s.after_all(ops).mode == s.mode,
    decreases ops.len(),
{
    if ops.len() > 0 {
        lemma_mode_is_fixed(s.after(ops[0]), ops.drop_first());
    }
}

/// While no request ends the transaction, an active transaction stays
/// active.
pub proof fn lemma_transaction_stays_active(s: ConnectionState, ops: Seq<Operation>)
    requires
        s.transaction is InTransaction,
        forall|i: int| 0 <= i < ops.len() ==> !(#[trigger] ops[i]).ends_transaction(),
    ensures
        s.after_all(ops).transaction is InTransaction,
    decreases ops.len(),
{
    if ops.len() > 0 {
        let rest = ops.drop_first();
        assert forall|i: int| 0 <= i < rest.len() implies !(#[trigger] rest[i]).ends_transaction() by {
            assert(rest[i] == ops[i + 1]);
        }
        lemma_transaction_stays_active(s.after(ops[0]), rest);
    }
}

/// While no request starts a transaction, an idle connection stays idle.
pub proof fn lemma_connection_stays_idle(s: ConnectionState, ops: Seq<Operation>)
    requires
        s.transaction is Idle,
        forall|i: int| 0 <= i < ops.len() ==> !((#[trigger] ops[i]) is Begin),
    ensures
        s.after_all(ops).transaction is Idle,
    decreases ops.len(),
{
    if ops.len() > 0 {
        let rest = ops.drop_first();
        assert forall|i: int| 0 <= i < rest.len() implies !((#[trigger] rest[i]) is Begin) by {
            assert(rest[i] == ops[i + 1]);
        }
        lemma_connection_stays_idle(s.after(ops[0]), rest);
    }
}

/// A transaction requested after another, with no commit or rollback in
/// between, is refused as already in progress, whatever the state was before
/// the first request.
pub proof fn lemma_second_begin_refused(s: ConnectionState, between: Seq<Operation>)
    requires
        forall|i: int| 0 <= i < between.len() ==> !(#[trigger] between[i]).ends_transaction(),
    ensures
        s.after(Operation::Begin).after_all(between).verdict(Operation::Begin) matches Err(
            ErrorKind::TransactionInProgress,
        ),
{
    lemma_transaction_stays_active(s.after(Operation::Begin), between);
}

/// A commit or rollback with no transaction active is refused and changes
/// nothing: on a connection that was just opened or has just ended a
/// transaction, and after any requests since then that started none.
pub proof fn lemma_end_without_transaction_refused(
    s: ConnectionState,
    since: Seq<Operation>,
    end: Operation,
)
    requires
        s.transaction is Idle,
        forall|i: int| 0 <= i < since.len() ==> !((#[trigger] since[i]) is Begin),
        end.ends_transaction(),
    ensures
        s.after_all(since).verdict(end) matches Err(ErrorKind::NoTransaction),
        s.after_all(since).after(end) == s.after_all(since),
{
    lemma_connection_stays_idle(s, since);
}

/// On a connection opened read-only every request to change stored data is
/// refused as read-only and leaves the connection as it was, whatever was
/// requested before.
pub proof fn lemma_read_only_refuses_writes(s: ConnectionState, before: Seq<Operation>)
    requires
        s.mode is ReadOnly,
    ensures
        s.after_all(before).verdict(Operation::Write) matches Err(ErrorKind::ReadOnly),
        s.after_all(before).after(Operation::Write) == s.after_all(before),
{
    lemma_mode_is_fixed(s, before);
}

} // verus!
