//! The repository a page server runs on, and how its kind is chosen.
//!
//! The repositories themselves, the redo manager they replay the log with and
//! the object store under the persistent one are built elsewhere. The selector
//! is handed the functions that build them and decides which are called, with
//! what, and what becomes of a failure. Its contract is stated over what those
//! functions promise of their own results.
//!
//! The type parameters have the same meaning throughout the crate:
//!
//! - `P`: what the configuration holds for the collaborators,
//! - `W`: the redo manager,
//! - `S`: the object store, and `E`: the error with which it fails to open,
//! - `M`: the repository in memory, and `O`: the repository on an object store,
//! - `FS`, `FM`, `FO` (and `FW` in `page_cache`): the functions that open the
//!   store and build the two repositories (and the redo manager).

use crate::config::PageServerConf;
use crate::config::RepositoryFormat;
use std::sync::Arc;
use vstd::prelude::*;

verus! {

/// The repository of a page server: one of the known kinds.
///
/// `M` is the repository that keeps its pages in memory, `O` the one that
/// keeps them in an object store. What either can do with pages is their own
/// business; the registry only builds one of them and hands it out.
#[derive(Debug, PartialEq, Eq)]
pub enum Repository<M, O> {
    InMemory(M),
    Object(O),
}

impl<M, O> Repository<M, O> {
    /// The kind of this repository.
    pub open spec fn format(&self) -> RepositoryFormat {
        match self {
            Repository::InMemory(_) => RepositoryFormat::InMemory,
            Repository::Object(_) => RepositoryFormat::RocksDb,
        }
    }

    /// The kind of this repository.
    pub fn repository_format(&self) -> (format: RepositoryFormat)
        ensures
            format == self.format(),
    {
        match self {
            Repository::InMemory(_) => RepositoryFormat::InMemory,
            Repository::Object(_) => RepositoryFormat::RocksDb,
        }
    }
}

/// Whether `select_repository` may be called with these collaborators: each
/// of them accepts what the selector will hand to it.
///
/// Only the collaborators of the configured kind are asked anything. The
/// object store is opened for `RocksDb` alone, and the repository on top of
/// it must accept every store that opening can return.
pub open spec fn can_select<P, W, S, E, M, O, FS, FM, FO>(
    conf: &'static PageServerConf<P>,
    walredo: Arc<W>,
    open_store: FS,
    new_inmemory: FM,
    new_object: FO,
) -> bool where
    FS: FnOnce(&'static PageServerConf<P>) -> Result<S, E>,
    FM: FnOnce(&'static PageServerConf<P>, Arc<W>) -> M,
    FO: FnOnce(&'static PageServerConf<P>, Arc<S>, Arc<W>) -> O,
 {
    match conf.repository_format {
        RepositoryFormat::InMemory => new_inmemory.requires((conf, walredo)),
        RepositoryFormat::RocksDb => {
            &&& open_store.requires((conf,))
            &&& forall|store: Arc<S>| #[trigger]
                open_store.ensures((conf,), Ok(*store)) ==> new_object.requires(
                    (conf, store, walredo),
                )
        },
    }
}

/// Whether `repo` is a repository that `new_object` may have built on a
/// store that `open_store` returned for `conf`.
pub open spec fn built_on_opened_store<P, W, S, E, O, FS, FO>(
    conf: &'static PageServerConf<P>,
    walredo: Arc<W>,
    open_store: FS,
    new_object: FO,
    repo: O,
) -> bool where
    FS: FnOnce(&'static PageServerConf<P>) -> Result<S, E>,
    FO: FnOnce(&'static PageServerConf<P>, Arc<S>, Arc<W>) -> O,
 {
    exists|store: Arc<S>|
        {
            &&& open_store.ensures((conf,), Ok(*store))
            &&& #[trigger] new_object.ensures((conf, store, walredo), repo)
        }
}

/// Whether `outcome` is a possible result of selecting a repository for
/// `conf`.
///
/// - `InMemory`: the outcome is the repository that `new_inmemory` built
///   from the configuration and the redo manager. There is no failure.
/// - `RocksDb`: either `open_store` returned a store and the outcome is the
///   repository that `new_object` built on it, or `open_store` failed and the
///   outcome is its error.
pub open spec fn selects<P, W, S, E, M, O, FS, FM, FO>(
    conf: &'static PageServerConf<P>,
    walredo: Arc<W>,
    open_store: FS,
    new_inmemory: FM,
    new_object: FO,
    outcome: Result<Repository<M, O>, E>,
) -> bool where
    FS: FnOnce(&'static PageServerConf<P>) -> Result<S, E>,
    FM: FnOnce(&'static PageServerConf<P>, Arc<W>) -> M,
    FO: FnOnce(&'static PageServerConf<P>, Arc<S>, Arc<W>) -> O,
 {
    match (conf.repository_format, outcome) {
        (RepositoryFormat::InMemory, Ok(Repository::InMemory(repo))) => new_inmemory.ensures(
            (conf, walredo),
            repo,
        ),
        (RepositoryFormat::RocksDb, Ok(Repository::Object(repo))) => built_on_opened_store(
            conf,
            walredo,
            open_store,
            new_object,
            repo,
        ),
        (RepositoryFormat::RocksDb, Err(error)) => open_store.ensures((conf,), Err(error)),
        _ => false,
    }
}

/// Builds the repository of the kind that `conf` names.
///
/// For `InMemory` the repository is built from the configuration and the redo
/// manager, and the object store is left alone. For `RocksDb` the object store
/// is opened first; if that fails, its error is returned and no repository is
/// built.
pub fn select_repository<P, W, S, E, M, O, FS, FM, FO>(
    conf: &'static PageServerConf<P>,
    walredo: Arc<W>,
    open_store: FS,
    new_inmemory: FM,
    new_object: FO,
) -> (outcome: Result<Repository<M, O>, E>) where
    FS: FnOnce(&'static PageServerConf<P>) -> Result<S, E>,
    FM: FnOnce(&'static PageServerConf<P>, Arc<W>) -> M,
    FO: FnOnce(&'static PageServerConf<P>, Arc<S>, Arc<W>) -> O,

    requires
        can_select(conf, walredo, open_store, new_inmemory, new_object),
    ensures
        selects(conf, walredo, open_store, new_inmemory, new_object, outcome),
{
    match conf.repository_format {
        RepositoryFormat::InMemory => Ok(Repository::InMemory(new_inmemory(conf, walredo))),
        RepositoryFormat::RocksDb => {
            match open_store(conf) {
                Ok(store) => {
                    let store = Arc::new(store);
                    Ok(Repository::Object(new_object(conf, store, walredo)))
                },
                Err(error) => Err(error),
            }
        },
    }
}

/// A repository that was selected for a configuration is of the kind that the
/// configuration names.
pub proof fn lemma_selected_kind_is_configured<P, W, S, E, M, O, FS, FM, FO>(
    conf: &'static PageServerConf<P>,
    walredo: Arc<W>,
    open_store: FS,
    new_inmemory: FM,
    new_object: FO,
    repo: Repository<M, O>,
) where
    FS: FnOnce(&'static PageServerConf<P>) -> Result<S, E>,
    FM: FnOnce(&'static PageServerConf<P>, Arc<W>) -> M,
    FO: FnOnce(&'static PageServerConf<P>, Arc<S>, Arc<W>) -> O,

    requires
        selects(conf, walredo, open_store, new_inmemory, new_object, Ok(repo)),
    ensures
        repo.format() == conf.repository_format,
{
}

/// Selecting fails for one reason only: the configuration asks for `RocksDb`
/// and the object store did not open. The error is the store's own.
pub proof fn lemma_selection_fails_on_store_only<P, W, S, E, M, O, FS, FM, FO>(
    conf: &'static PageServerConf<P>,
    walredo: Arc<W>,
    open_store: FS,
    new_inmemory: FM,
    new_object: FO,
    error: E,
) where
    FS: FnOnce(&'static PageServerConf<P>) -> Result<S, E>,
    FM: FnOnce(&'static PageServerConf<P>, Arc<W>) -> M,
    FO: FnOnce(&'static PageServerConf<P>, Arc<S>, Arc<W>) -> O,

    requires
        selects(
            conf,
            walredo,
            open_store,
            new_inmemory,
            new_object,
            Err::<Repository<M, O>, E>(error),
        ),
    ensures
        conf.repository_format == RepositoryFormat::RocksDb,
        open_store.ensures((conf,), Err(error)),
{
}

/// Where the object store cannot fail to open, selecting cannot fail: for
/// `InMemory` the store is not opened at all, and for `RocksDb` every way in
/// which `open_store` can return is a success.
pub proof fn lemma_selection_succeeds_when_store_opens<P, W, S, E, M, O, FS, FM, FO>(
    conf: &'static PageServerConf<P>,
    walredo: Arc<W>,
    open_store: FS,
    new_inmemory: FM,
    new_object: FO,
    outcome: Result<Repository<M, O>, E>,
) where
    FS: FnOnce(&'static PageServerConf<P>) -> Result<S, E>,
    FM: FnOnce(&'static PageServerConf<P>, Arc<W>) -> M,
    FO: FnOnce(&'static PageServerConf<P>, Arc<S>, Arc<W>) -> O,

    requires
        selects(conf, walredo, open_store, new_inmemory, new_object, outcome),
        conf.repository_format == RepositoryFormat::RocksDb ==> forall|opened: Result<S, E>|
            #[trigger] open_store.ensures((conf,), opened) ==> opened is Ok,
    ensures
        outcome is Ok,
{
}

} // verus!
