//! The record that two concurrent tasks write to under one lock.
//!
//! The lock belongs to the async driver. What it guards is defined here: the
//! record, the two writers with the constant each of them stores, and the
//! effect of one write. Since the lock admits one writer at a time, a run is
//! a sequence of writes, and the laws below speak of every such sequence.

use vstd::prelude::*;

verus! {

/// One of the two tasks that write to the shared record.
#[derive(Clone, Copy, Debug, PartialEq, Eq, Structural)]
pub enum Writer {
    First,
    Second,
}

impl Writer {
    /// The constant that this writer stores in the record.
    pub open spec fn constant(self) -> i32 {
        match self {
            Writer::First => 1,
            Writer::Second => 2,
        }
    }

    /// The constant that this writer stores in the record.
    #[verifier::when_used_as_spec(constant)]
    pub fn value(self) -> (value: i32)
        ensures
            value == self.constant(),
    {
        match self {
            Writer::First => 1,
            Writer::Second => 2,
        }
    }
}

/// The shared record: a single integer field.
#[derive(Clone, Copy, Debug, PartialEq, Eq, Structural)]
pub struct SharedRecord {
    pub field: i32,
}

impl SharedRecord {
    /// The record as it is before any task has touched it.
    pub open spec fn initial() -> SharedRecord {
        SharedRecord { field: 0 }
    }

    /// The record after `writer` has stored its constant in it.
    pub open spec fn written(self, writer: Writer) -> SharedRecord {
        SharedRecord { field: writer.constant() }
    }

    /// The record after the writes in `writes` have been applied to it, in
    /// the order in which the lock was granted.
    pub open spec fn replay(self, writes: Seq<Writer>) -> SharedRecord
        decreases writes.len(),
    {
        if writes.len() == 0 {
            self
        } else {
            self.replay(writes.drop_last()).written(writes.last())
        }
    }

    /// A record that no task has written to yet.
    pub fn new() -> (record: SharedRecord)
        ensures
            record == SharedRecord::initial(),
    {
        SharedRecord { field: 0 }
    }

    /// What a writer does while it holds the lock: store its constant.
    pub fn write(&mut self, writer: Writer)
        ensures
            *final(self) == old(self).written(writer),
    {
        self.field = writer.value();
    }
}

/// Whatever the record held at the start and in whatever order the writers
/// got the lock, once at least one of them has written the record holds the
/// constant of the writer that came last.
pub proof fn lemma_last_write_wins(start: SharedRecord, writes: Seq<Writer>)
    requires
        writes.len() > 0,
    ensures
        start.replay(writes).field == writes.last().constant(),
{
}

/// A run that starts from a fresh record and in which at least one writer got
/// the lock ends with one of the two writers' constants in the field: never a
/// third value, and never the initial one.
pub proof fn lemma_final_value_is_a_writers_constant(writes: Seq<Writer>)
    requires
        writes.len() > 0,
    ensures
        ({
            let end: i32 = SharedRecord::initial().replay(writes).field;
            &&& (end == Writer::First.constant() || end == Writer::Second.constant())
            &&& end != SharedRecord::initial().field
        }),
{
    lemma_last_write_wins(SharedRecord::initial(), writes);
}

} // verus!
