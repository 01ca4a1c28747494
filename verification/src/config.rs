//! The configuration a page server runs with, as far as the registry reads it.

use vstd::prelude::*;

verus! {

/// The kinds of repository a page server can run on.
#[derive(Clone, Copy, Debug, PartialEq, Eq, Structural)]
pub enum RepositoryFormat {
    /// Pages are kept in memory only and are lost when the process ends.
    InMemory,
    /// Pages are kept in a persistent object store, a RocksDB database.
    RocksDb,
}

/// The settings of one page server process.
///
/// The registry reads `repository_format` and hands the whole record on to
/// the collaborators it builds; `params` holds what only they understand
/// (where the store lies on disk, for one).
#[derive(Debug)]
pub struct PageServerConf<P> {
    pub repository_format: RepositoryFormat,
    pub params: P,
}

} // verus!
