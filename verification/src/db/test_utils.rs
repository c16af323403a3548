//! A store that lives in memory, for trying the repository without a file.

use vstd::prelude::*;
use crate::db::{Database, DbError};
use crate::models::{DBState, DBStateView};

verus! {

/// A store that keeps the snapshot last written in memory. It never fails.
pub struct MockDB {
    last_written_state: DBState,
}

impl MockDB {
    /// A store that holds the empty snapshot.
    pub fn new() -> (db: Self)
        ensures
            db.snapshot() == DBStateView::empty(),
    {
        MockDB { last_written_state: DBState::new() }
    }
}

impl Database for MockDB {
    closed spec fn snapshot(&self) -> DBStateView {
        self.last_written_state@
    }

    open spec fn infallible() -> bool {
        true
    }

    fn read_db(&self) -> (r: Result<DBState, DbError>) {
        Ok(self.last_written_state.clone())
    }

    fn write_db(&mut self, db_state: &DBState) -> (r: Result<(), DbError>) {
        self.last_written_state = db_state.clone();
        Ok(())
    }
}

} // verus!
