//! Transaction scoping: which scope an operation runs in, and which scope a
//! commit or rollback may close.
//!
//! The executor does not talk to a database itself. Each operation says
//! what has to be done on the connection, and the caller reports back what
//! was opened.

use vstd::prelude::*;

verus! {

/// What the caller has to do on the connection for an operation of an
/// executor.
#[derive(Clone, Copy, Debug, PartialEq, Eq, Structural)]
pub enum ScopeAction {
    Nothing,
    BeginTransaction,
    BeginSavepoint,
    CommitTransaction,
    CommitSavepoint,
    RollbackTransaction,
    RollbackSavepoint,
}

/// Where statements run.
#[derive(Clone, Copy, Debug, PartialEq, Eq, Structural)]
pub enum Scope {
    /// Directly on the connection, outside any transaction.
    Connection,
    /// In the transaction that the executor opened on its connection.
    OwnTransaction,
    /// In the transaction that the caller handed in.
    CallerTransaction,
    /// In the savepoint that the executor opened in the caller's transaction.
    Savepoint,
}

/// A handle on a connection or on a transaction of the caller, with the
/// scope that the executor itself has opened on it, if any.
#[derive(Clone, Copy, Debug, PartialEq, Eq, Structural)]
pub enum DatabaseExecutor {
    /// On a bare connection; `tx` tells whether the executor has opened a
    /// transaction on it.
    Conn { tx: bool },
    /// In a transaction of the caller; `savepoint` tells whether the
    /// executor has opened a savepoint in it.
    Tx { savepoint: bool },
}

impl DatabaseExecutor {
    /// An executor on a bare connection.
    pub fn from_db() -> (e: DatabaseExecutor)
        ensures
            e == (DatabaseExecutor::Conn { tx: false }),
    {
        DatabaseExecutor::Conn { tx: false }
    }

    /// An executor in a transaction that the caller owns.
    pub fn from_tx() -> (e: DatabaseExecutor)
        ensures
            e == (DatabaseExecutor::Tx { savepoint: false }),
    {
        DatabaseExecutor::Tx { savepoint: false }
    }

    /// What `begin` asks for: a transaction, unless one is open already.
    pub open spec fn spec_begin(self) -> ScopeAction {
        match self {
            DatabaseExecutor::Conn { tx: false } => ScopeAction::BeginTransaction,
            _ => ScopeAction::Nothing,
        }
    }

    /// Enters a transaction. On a bare connection without a transaction
    /// the caller has to begin one; otherwise the one that is open is used.
    #[verifier::when_used_as_spec(spec_begin)]
    pub fn begin(self) -> (action: ScopeAction)
        ensures
            action == self.spec_begin(),
    {
        match self {
            DatabaseExecutor::Conn { tx: false } => ScopeAction::BeginTransaction,
            _ => ScopeAction::Nothing,
        }
    }

    /// What `save` asks for: on a connection the same as `begin`; in a
    /// transaction of the caller a savepoint.
    pub open spec fn spec_save(self) -> ScopeAction {
        match self {
            DatabaseExecutor::Conn { tx: false } => ScopeAction::BeginTransaction,
            DatabaseExecutor::Conn { tx: true } => ScopeAction::Nothing,
            DatabaseExecutor::Tx { .. } => ScopeAction::BeginSavepoint,
        }
    }

    /// Enters a nested scope.
    #[verifier::when_used_as_spec(spec_save)]
    pub fn save(self) -> (action: ScopeAction)
        ensures
            action == self.spec_save(),
    {
        match self {
            DatabaseExecutor::Conn { tx: false } => ScopeAction::BeginTransaction,
            DatabaseExecutor::Conn { tx: true } => ScopeAction::Nothing,
            DatabaseExecutor::Tx { .. } => ScopeAction::BeginSavepoint,
        }
    }

    /// The executor after the caller has done what `begin` or `save` asked
    /// for: a transaction begun on the connection, or a savepoint opened in
    /// the caller's transaction, is now the executor's own scope. Any other
    /// action leaves the executor as it is.
    pub open spec fn spec_opened(self, action: ScopeAction) -> DatabaseExecutor {
        match (self, action) {
            (DatabaseExecutor::Conn { .. }, ScopeAction::BeginTransaction) => DatabaseExecutor::Conn {
                tx: true,
            },
            (DatabaseExecutor::Tx { .. }, ScopeAction::BeginSavepoint) => DatabaseExecutor::Tx {
                savepoint: true,
            },
            _ => self,
        }
    }

    /// Records that the caller has done what `begin` or `save` asked for.
    /// Where the caller failed to do it, nothing is recorded.
    pub fn opened(&mut self, action: ScopeAction)
        ensures
            *final(self) == old(self).spec_opened(action),
    {
        match (*self, action) {
            (DatabaseExecutor::Conn { .. }, ScopeAction::BeginTransaction) => {
                *self = DatabaseExecutor::Conn { tx: true };
            },
            (DatabaseExecutor::Tx { .. }, ScopeAction::BeginSavepoint) => {
                *self = DatabaseExecutor::Tx { savepoint: true };
            },
            _ => {},
        }
    }

    /// What `commit` asks for: to commit the scope that the executor
    /// opened, if it opened one.
    pub open spec fn spec_commit(self) -> ScopeAction {
        match self {
            DatabaseExecutor::Conn { tx: true } => ScopeAction::CommitTransaction,
            DatabaseExecutor::Tx { savepoint: true } => ScopeAction::CommitSavepoint,
            _ => ScopeAction::Nothing,
        }
    }

    /// What `rollback` asks for: to roll back the scope that the executor
    /// opened, if it opened one.
    pub open spec fn spec_rollback(self) -> ScopeAction {
        match self {
            DatabaseExecutor::Conn { tx: true } => ScopeAction::RollbackTransaction,
            DatabaseExecutor::Tx { savepoint: true } => ScopeAction::RollbackSavepoint,
            _ => ScopeAction::Nothing,
        }
    }

    /// The executor after a commit or a rollback: its own scope is gone,
    /// whether or not the caller then succeeds in closing it.
    pub open spec fn spec_closed(self) -> DatabaseExecutor {
        match self {
            DatabaseExecutor::Conn { .. } => DatabaseExecutor::Conn { tx: false },
            DatabaseExecutor::Tx { .. } => DatabaseExecutor::Tx { savepoint: false },
        }
    }

    /// Gives up the scope that the executor opened and says what the caller
    /// has to commit.
    pub fn commit(&mut self) -> (action: ScopeAction)
        ensures
            action == old(self).spec_commit(),
            *final(self) == old(self).spec_closed(),
    {
        match *self {
            DatabaseExecutor::Conn { tx } => {
                *self = DatabaseExecutor::Conn { tx: false };
                if tx {
                    ScopeAction::CommitTransaction
                } else {
                    ScopeAction::Nothing
                }
            },
            DatabaseExecutor::Tx { savepoint } => {
                *self = DatabaseExecutor::Tx { savepoint: false };
                if savepoint {
                    ScopeAction::CommitSavepoint
                } else {
                    ScopeAction::Nothing
                }
            },
        }
    }

    /// Gives up the scope that the executor opened and says what the caller
    /// has to roll back.
    pub fn rollback(&mut self) -> (action: ScopeAction)
        ensures
            action == old(self).spec_rollback(),
            *final(self) == old(self).spec_closed(),
    {
        match *self {
            DatabaseExecutor::Conn { tx } => {
                *self = DatabaseExecutor::Conn { tx: false };
                if tx {
                    ScopeAction::RollbackTransaction
                } else {
                    ScopeAction::Nothing
                }
            },
            DatabaseExecutor::Tx { savepoint } => {
                *self = DatabaseExecutor::Tx { savepoint: false };
                if savepoint {
                    ScopeAction::RollbackSavepoint
                } else {
                    ScopeAction::Nothing
                }
            },
        }
    }

    /// The innermost scope that is open.
    pub open spec fn spec_scope(self) -> Scope {
        match self {
            DatabaseExecutor::Conn { tx: false } => Scope::Connection,
            DatabaseExecutor::Conn { tx: true } => Scope::OwnTransaction,
            DatabaseExecutor::Tx { savepoint: false } => Scope::CallerTransaction,
            DatabaseExecutor::Tx { savepoint: true } => Scope::Savepoint,
        }
    }

    /// Where statements run now.
    #[verifier::when_used_as_spec(spec_scope)]
    pub fn scope(self) -> (s: Scope)
        ensures
            s == self.spec_scope(),
    {
        match self {
            DatabaseExecutor::Conn { tx: false } => Scope::Connection,
            DatabaseExecutor::Conn { tx: true } => Scope::OwnTransaction,
            DatabaseExecutor::Tx { savepoint: false } => Scope::CallerTransaction,
            DatabaseExecutor::Tx { savepoint: true } => Scope::Savepoint,
        }
    }

    /// Whether the action closes a transaction, as opposed to a savepoint.
    pub open spec fn closes_transaction(action: ScopeAction) -> bool {
        action == ScopeAction::CommitTransaction || action == ScopeAction::RollbackTransaction
    }

    /// `begin` is idempotent: once the transaction it asked for is open,
    /// it asks for nothing, and statements run in a transaction.
    pub proof fn lemma_begin_is_idempotent(self)
        ensures
            self.spec_opened(self.spec_begin()).spec_begin() == ScopeAction::Nothing,
            self.spec_opened(self.spec_begin()).spec_scope() != Scope::Connection,
            self.spec_opened(self.spec_begin()).spec_opened(ScopeAction::Nothing)
                == self.spec_opened(self.spec_begin()),
    {
    }

    /// On a bare connection `save` is `begin`.
    pub proof fn lemma_save_on_connection_is_begin(self)
        requires
            self is Conn,
        ensures
            self.spec_save() == self.spec_begin(),
    {
    }

    /// An executor in a transaction of the caller never closes that
    /// transaction, whatever it has opened: its commit and its rollback
    /// close a savepoint at most, and it stays in the caller's transaction.
    pub proof fn lemma_caller_transaction_is_kept(self)
        requires
            self is Tx,
        ensures
            !Self::closes_transaction(self.spec_commit()),
            !Self::closes_transaction(self.spec_rollback()),
            self.spec_closed() is Tx,
            forall|action: ScopeAction| self.spec_opened(action) is Tx,
    {
    }

    /// A commit or rollback closes only a scope that the executor opened:
    /// on an executor that has opened nothing, and after a commit or
    /// rollback, both ask for nothing.
    pub proof fn lemma_closes_only_own_scope(self)
        ensures
            self.spec_closed().spec_commit() == ScopeAction::Nothing,
            self.spec_closed().spec_rollback() == ScopeAction::Nothing,
            (self == DatabaseExecutor::Conn { tx: false } || self == DatabaseExecutor::Tx {
                savepoint: false,
            }) ==> self.spec_commit() == ScopeAction::Nothing && self.spec_rollback()
                == ScopeAction::Nothing,
    {
    }
}

/// A transaction for one operation: the caller's, where the caller handed
/// one in, or one that the operation opened for itself.
#[derive(Clone, Copy, Debug, PartialEq, Eq, Structural)]
pub enum LocalTxn {
    /// The caller's transaction. The operation never closes it.
    Borrowed,
    /// The operation's own transaction; `open` until it is committed or
    /// rolled back.
    Owned { open: bool },
}

impl LocalTxn {
    /// What has to be done before an operation can run: begin a
    /// transaction, unless the caller handed one in.
    pub fn plan(has_txn: bool) -> (action: ScopeAction)
        ensures
            action == if has_txn {
                ScopeAction::Nothing
            } else {
                ScopeAction::BeginTransaction
            },
    {
        if has_txn {
            ScopeAction::Nothing
        } else {
            ScopeAction::BeginTransaction
        }
    }

    /// The transaction of an operation, once the caller has done what
    /// `plan` asked for.
    pub fn new(has_txn: bool) -> (t: LocalTxn)
        ensures
            t == if has_txn {
                LocalTxn::Borrowed
            } else {
                LocalTxn::Owned { open: true }
            },
    {
        if has_txn {
            LocalTxn::Borrowed
        } else {
            LocalTxn::Owned { open: true }
        }
    }

    /// Whether statements can still run in the transaction.
    pub open spec fn spec_is_open(self) -> bool {
        self != (LocalTxn::Owned { open: false })
    }

    /// Whether statements can still run in the transaction.
    #[verifier::when_used_as_spec(spec_is_open)]
    pub fn is_open(self) -> (r: bool)
        ensures
            r == self.spec_is_open(),
    {
        match self {
            LocalTxn::Owned { open: false } => false,
            _ => true,
        }
    }

    /// The scope in which statements run. The transaction must still be
    /// open.
    pub fn txn(self) -> (s: Scope)
        requires
            self.spec_is_open(),
        ensures
            s == match self {
                LocalTxn::Borrowed => Scope::CallerTransaction,
                LocalTxn::Owned { .. } => Scope::OwnTransaction,
            },
    {
        match self {
            LocalTxn::Borrowed => Scope::CallerTransaction,
            LocalTxn::Owned { .. } => Scope::OwnTransaction,
        }
    }

    /// The transaction after the operation gave it up: an owned one is
    /// closed, a borrowed one is untouched.
    pub open spec fn spec_closed(self) -> LocalTxn {
        match self {
            LocalTxn::Borrowed => LocalTxn::Borrowed,
            LocalTxn::Owned { .. } => LocalTxn::Owned { open: false },
        }
    }

    /// Whether the operation owns an open transaction.
    pub open spec fn owns_open(self) -> bool {
        self == (LocalTxn::Owned { open: true })
    }

    /// Says what the caller has to commit: the transaction, where the
    /// operation owns it and it is open; otherwise nothing.
    pub fn commit_if_owned(&mut self) -> (action: ScopeAction)
        ensures
            action == if old(self).owns_open() {
                ScopeAction::CommitTransaction
            } else {
                ScopeAction::Nothing
            },
            *final(self) == old(self).spec_closed(),
    {
        match *self {
            LocalTxn::Owned { open } => {
                *self = LocalTxn::Owned { open: false };
                if open {
                    ScopeAction::CommitTransaction
                } else {
                    ScopeAction::Nothing
                }
            },
            LocalTxn::Borrowed => ScopeAction::Nothing,
        }
    }

    /// Says what the caller has to roll back: the transaction, where the
    /// operation owns it and it is open; otherwise nothing.
    pub fn rollback_if_owned(&mut self) -> (action: ScopeAction)
        ensures
            action == if old(self).owns_open() {
                ScopeAction::RollbackTransaction
            } else {
                ScopeAction::Nothing
            },
            *final(self) == old(self).spec_closed(),
    {
        match *self {
            LocalTxn::Owned { open } => {
                *self = LocalTxn::Owned { open: false };
                if open {
                    ScopeAction::RollbackTransaction
                } else {
                    ScopeAction::Nothing
                }
            },
            LocalTxn::Borrowed => ScopeAction::Nothing,
        }
    }

    /// Whether the operation is left with an open transaction of its own.
    pub fn into_inner(self) -> (r: bool)
        ensures
            r == self.owns_open(),
    {
        match self {
            LocalTxn::Owned { open: true } => true,
            _ => false,
        }
    }
}

/// Whether a store handle stands on a connection or inside a transaction.
#[derive(Clone, Copy, Debug, PartialEq, Eq, Structural)]
pub enum StoreContext {
    Connection,
    Transaction,
}

/// A transaction operation that the context of a store handle forbids.
#[derive(Clone, Copy, Debug, PartialEq, Eq, Structural)]
pub enum ContextError {
    /// A transaction was to be entered from within a transaction.
    NestedTransaction,
    /// A commit was asked of a handle that is not in a transaction.
    CommitOutsideTransaction,
    /// A rollback was asked of a handle that is not in a transaction.
    RollbackOutsideTransaction,
}

impl ContextError {
    /// The text that describes the error to a person.
    pub open spec fn spec_message(self) -> Seq<char> {
        match self {
            ContextError::NestedTransaction => "Attempted to enter a transaction context from within an existing transaction context"@,
            ContextError::CommitOutsideTransaction => "Attempted to commit a transaction context while not in a transaction context"@,
            ContextError::RollbackOutsideTransaction => "Attempted to rollback a transaction context while not in a transaction context"@,
        }
    }

    /// Renders the error as text.
    pub fn message(self) -> (s: &'static str)
        ensures
            s@ == self.spec_message(),
    {
        match self {
            ContextError::NestedTransaction => "Attempted to enter a transaction context from within an existing transaction context",
            ContextError::CommitOutsideTransaction => "Attempted to commit a transaction context while not in a transaction context",
            ContextError::RollbackOutsideTransaction => "Attempted to rollback a transaction context while not in a transaction context",
        }
    }
}

impl StoreContext {
    /// Enters a transaction: allowed on a connection only, and the new
    /// handle stands in the transaction.
    pub fn begin(self) -> (r: Result<StoreContext, ContextError>)
        ensures
            r == match self {
                StoreContext::Connection => Ok::<StoreContext, ContextError>(
                    StoreContext::Transaction,
                ),
                StoreContext::Transaction => Err::<StoreContext, ContextError>(
                    ContextError::NestedTransaction,
                ),
            },
    {
        match self {
            StoreContext::Connection => Ok(StoreContext::Transaction),
            StoreContext::Transaction => Err(ContextError::NestedTransaction),
        }
    }

    /// Commits the transaction of the handle: allowed inside a transaction
    /// only.
    pub fn commit(self) -> (r: Result<ScopeAction, ContextError>)
        ensures
            r == match self {
                StoreContext::Transaction => Ok::<ScopeAction, ContextError>(
                    ScopeAction::CommitTransaction,
                ),
                StoreContext::Connection => Err::<ScopeAction, ContextError>(
                    ContextError::CommitOutsideTransaction,
                ),
            },
    {
        match self {
            StoreContext::Transaction => Ok(ScopeAction::CommitTransaction),
            StoreContext::Connection => Err(ContextError::CommitOutsideTransaction),
        }
    }

    /// Rolls back the transaction of the handle: allowed inside a
    /// transaction only.
    pub fn rollback(self) -> (r: Result<ScopeAction, ContextError>)
        ensures
            r == match self {
                StoreContext::Transaction => Ok::<ScopeAction, ContextError>(
                    ScopeAction::RollbackTransaction,
                ),
                StoreContext::Connection => Err::<ScopeAction, ContextError>(
                    ContextError::RollbackOutsideTransaction,
                ),
            },
    {
        match self {
            StoreContext::Transaction => Ok(ScopeAction::RollbackTransaction),
            StoreContext::Connection => Err(ContextError::RollbackOutsideTransaction),
        }
    }
}

} // verus!
