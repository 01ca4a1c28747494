//! The switchboard through which the page server reaches its repository.
//!
//! A page server manages one repository. It is built once, from the
//! configuration, and put into a slot; whoever serves a page afterwards takes a
//! shared handle to it out of the slot.
//!
//! The slot is a plain value here. The process keeps it wherever it keeps its
//! shared state, behind whatever lock it uses, and calls `init` and
//! `get_repository` while it holds that lock. The signatures say which access
//! each of them needs: `init` writes the slot and takes it exclusively,
//! `get_repository` only reads it, so that any number of readers can share it.
//! A handle, once taken, is used without the slot and without the lock.

use crate::config::PageServerConf;
use crate::config::RepositoryFormat;
use crate::repository::can_select;
use crate::repository::select_repository;
use crate::repository::selects;
use crate::repository::Repository;
use std::sync::Arc;
use vstd::prelude::*;

verus! {

/// The place of the one repository of a page server: empty until `init` has
/// built the repository, and holding a shared handle to it from then on.
pub struct RepositorySlot<M, O> {
    repo: Option<Arc<Repository<M, O>>>,
}

impl<M, O> View for RepositorySlot<M, O> {
    type V = Option<Repository<M, O>>;

    /// The repository in the slot, if there is one.
    closed spec fn view(&self) -> Option<Repository<M, O>> {
        match self.repo {
            Some(repo) => Some(*repo),
            None => None,
        }
    }
}

impl<M, O> RepositorySlot<M, O> {
    /// A slot that holds no repository yet.
    pub fn new() -> (slot: Self)
        ensures
            slot@ is None,
    {
        RepositorySlot { repo: None }
    }

    /// Whether `init` has put a repository into the slot.
    pub fn is_initialized(&self) -> (initialized: bool)
        ensures
            initialized == (self@ is Some),
    {
        self.repo.is_some()
    }
}

/// `Arc::clone` of std: a second handle to the value that `handle` points to.
///
/// Trusted: the new handle shares the allocation of the old one, so both stand
/// for the same value. Nothing is copied; the reference count is the only
/// thing that changes. (std ends the process rather than let that count
/// overflow, which takes more than `isize::MAX` handles that were never
/// dropped.)
#[verifier::external_body]
fn clone_handle<T>(handle: &Arc<T>) -> (shared: Arc<T>)
    ensures
        shared == *handle,
{
    Arc::clone(handle)
}

/// Whether `init` may be called with these collaborators: `new_walredo`
/// accepts the configuration, and whatever redo manager it returns, the
/// collaborators of the configured kind accept what follows from it.
pub open spec fn can_init<P, W, S, E, M, O, FW, FS, FM, FO>(
    conf: &'static PageServerConf<P>,
    new_walredo: FW,
    open_store: FS,
    new_inmemory: FM,
    new_object: FO,
) -> bool where
    FW: FnOnce(&'static PageServerConf<P>) -> W,
    FS: FnOnce(&'static PageServerConf<P>) -> Result<S, E>,
    FM: FnOnce(&'static PageServerConf<P>, Arc<W>) -> M,
    FO: FnOnce(&'static PageServerConf<P>, Arc<S>, Arc<W>) -> O,
 {
    &&& new_walredo.requires((conf,))
    &&& forall|walredo: Arc<W>|
        new_walredo.ensures((conf,), *walredo) ==> #[trigger] can_select(
            conf,
            walredo,
            open_store,
            new_inmemory,
            new_object,
        )
}

/// Whether `outcome` is a possible result of building the repository for
/// `conf`: `new_walredo` returned a redo manager, and with it the selection
/// came out as `outcome`.
pub open spec fn builds<P, W, S, E, M, O, FW, FS, FM, FO>(
    conf: &'static PageServerConf<P>,
    new_walredo: FW,
    open_store: FS,
    new_inmemory: FM,
    new_object: FO,
    outcome: Result<Repository<M, O>, E>,
) -> bool where
    FW: FnOnce(&'static PageServerConf<P>) -> W,
    FS: FnOnce(&'static PageServerConf<P>) -> Result<S, E>,
    FM: FnOnce(&'static PageServerConf<P>, Arc<W>) -> M,
    FO: FnOnce(&'static PageServerConf<P>, Arc<S>, Arc<W>) -> O,
 {
    exists|walredo: Arc<W>|
        {
            &&& new_walredo.ensures((conf,), *walredo)
            &&& #[trigger] selects(conf, walredo, open_store, new_inmemory, new_object, outcome)
        }
}

/// How a call of `init` ends: `res` is what it returns and `post` the slot it
/// leaves, given the slot `pre` that it found.
///
/// - On success the slot holds the repository that was built, whatever it
///   held before.
/// - On failure the slot is as it was, and the error is the one that stopped
///   the building.
pub open spec fn init_leaves<P, W, S, E, M, O, FW, FS, FM, FO>(
    pre: RepositorySlot<M, O>,
    conf: &'static PageServerConf<P>,
    new_walredo: FW,
    open_store: FS,
    new_inmemory: FM,
    new_object: FO,
    res: Result<(), E>,
    post: RepositorySlot<M, O>,
) -> bool where
    FW: FnOnce(&'static PageServerConf<P>) -> W,
    FS: FnOnce(&'static PageServerConf<P>) -> Result<S, E>,
    FM: FnOnce(&'static PageServerConf<P>, Arc<W>) -> M,
    FO: FnOnce(&'static PageServerConf<P>, Arc<S>, Arc<W>) -> O,
 {
    match res {
        Ok(()) => {
            &&& post@ is Some
            &&& builds(conf, new_walredo, open_store, new_inmemory, new_object, Ok(post@->0))
        },
        Err(error) => {
            &&& post == pre
            &&& builds(conf, new_walredo, open_store, new_inmemory, new_object, Err(error))
        },
    }
}

/// Builds the repository that `conf` asks for and puts it into the slot.
///
/// The redo manager is made first, then the repository of the configured
/// kind. Whatever the slot held before is replaced. If the object store of a
/// `RocksDb` repository cannot be opened, the error of the store is returned
/// and the slot stays as it was.
pub fn init<P, W, S, E, M, O, FW, FS, FM, FO>(
    slot: &mut RepositorySlot<M, O>,
    conf: &'static PageServerConf<P>,
    new_walredo: FW,
    open_store: FS,
    new_inmemory: FM,
    new_object: FO,
) -> (res: Result<(), E>) where
    FW: FnOnce(&'static PageServerConf<P>) -> W,
    FS: FnOnce(&'static PageServerConf<P>) -> Result<S, E>,
    FM: FnOnce(&'static PageServerConf<P>, Arc<W>) -> M,
    FO: FnOnce(&'static PageServerConf<P>, Arc<S>, Arc<W>) -> O,

    requires
        can_init(conf, new_walredo, open_store, new_inmemory, new_object),
    ensures
        init_leaves(
            *old(slot),
            conf,
            new_walredo,
            open_store,
            new_inmemory,
            new_object,
            res,
            *final(slot),
        ),
{
    let walredo = Arc::new(new_walredo(conf));
    match select_repository(conf, walredo, open_store, new_inmemory, new_object) {
        Ok(repo) => {
            slot.repo = Some(Arc::new(repo));
            Ok(())
        },
        Err(error) => Err(error),
    }
}

/// A shared handle to the repository in the slot.
///
/// The slot must hold a repository: `init` has to have succeeded on it.
pub fn get_repository<M, O>(slot: &RepositorySlot<M, O>) -> (repo: Arc<Repository<M, O>>)
    requires
        slot@ is Some,
    ensures
        slot@ == Some(*repo),
{
    clone_handle(slot.repo.as_ref().unwrap())
}

/// After `init` has succeeded, `get_repository` hands out the repository that
/// this `init` built, and it is of the kind that the configuration names.
pub proof fn lemma_init_then_get_matches_configuration<P, W, S, E, M, O, FW, FS, FM, FO>(
    pre: RepositorySlot<M, O>,
    conf: &'static PageServerConf<P>,
    new_walredo: FW,
    open_store: FS,
    new_inmemory: FM,
    new_object: FO,
    post: RepositorySlot<M, O>,
    handle: Arc<Repository<M, O>>,
) where
    FW: FnOnce(&'static PageServerConf<P>) -> W,
    FS: FnOnce(&'static PageServerConf<P>) -> Result<S, E>,
    FM: FnOnce(&'static PageServerConf<P>, Arc<W>) -> M,
    FO: FnOnce(&'static PageServerConf<P>, Arc<S>, Arc<W>) -> O,

    requires
        init_leaves(
            pre,
            conf,
            new_walredo,
            open_store,
            new_inmemory,
            new_object,
            Ok::<(), E>(()),
            post,
        ),
        post@ == Some(*handle),
    ensures
        handle.format() == conf.repository_format,
        builds(conf, new_walredo, open_store, new_inmemory, new_object, Ok::<_, E>(*handle)),
{
}

/// Two handles taken out of the same slot stand for the same repository.
pub proof fn lemma_get_repository_is_stable<M, O>(
    slot: RepositorySlot<M, O>,
    first: Arc<Repository<M, O>>,
    second: Arc<Repository<M, O>>,
)
    requires
        slot@ == Some(*first),
        slot@ == Some(*second),
    ensures
        first == second,
{
}

/// An empty slot hands out nothing: no handle is one that `get_repository`
/// could return for it.
pub proof fn lemma_empty_slot_has_no_handle<M, O>(
    slot: RepositorySlot<M, O>,
    handle: Arc<Repository<M, O>>,
)
    requires
        slot@ is None,
    ensures
        slot@ != Some(*handle),
{
}

/// An `init` that fails on an empty slot leaves it empty, and it fails only
/// because the object store of a `RocksDb` repository did not open.
pub proof fn lemma_failed_init_leaves_slot_empty<P, W, S, E, M, O, FW, FS, FM, FO>(
    pre: RepositorySlot<M, O>,
    conf: &'static PageServerConf<P>,
    new_walredo: FW,
    open_store: FS,
    new_inmemory: FM,
    new_object: FO,
    error: E,
    post: RepositorySlot<M, O>,
) where
    FW: FnOnce(&'static PageServerConf<P>) -> W,
    FS: FnOnce(&'static PageServerConf<P>) -> Result<S, E>,
    FM: FnOnce(&'static PageServerConf<P>, Arc<W>) -> M,
    FO: FnOnce(&'static PageServerConf<P>, Arc<S>, Arc<W>) -> O,

    requires
        pre@ is None,
        init_leaves(
            pre,
            conf,
            new_walredo,
            open_store,
            new_inmemory,
            new_object,
            Err::<(), E>(error),
            post,
        ),
    ensures
        post@ is None,
        conf.repository_format == RepositoryFormat::RocksDb,
        open_store.ensures((conf,), Err(error)),
{
}

/// Where the configuration asks for `RocksDb` and the object store cannot be
/// opened, `init` fails and the slot is as it was.
pub proof fn lemma_init_fails_when_store_does_not_open<P, W, S, E, M, O, FW, FS, FM, FO>(
    pre: RepositorySlot<M, O>,
    conf: &'static PageServerConf<P>,
    new_walredo: FW,
    open_store: FS,
    new_inmemory: FM,
    new_object: FO,
    res: Result<(), E>,
    post: RepositorySlot<M, O>,
) where
    FW: FnOnce(&'static PageServerConf<P>) -> W,
    FS: FnOnce(&'static PageServerConf<P>) -> Result<S, E>,
    FM: FnOnce(&'static PageServerConf<P>, Arc<W>) -> M,
    FO: FnOnce(&'static PageServerConf<P>, Arc<S>, Arc<W>) -> O,

    requires
        conf.repository_format == RepositoryFormat::RocksDb,
        forall|opened: Result<S, E>| #[trigger]
            open_store.ensures((conf,), opened) ==> opened is Err,
        init_leaves(pre, conf, new_walredo, open_store, new_inmemory, new_object, res, post),
    ensures
        res is Err,
        post == pre,
{
}

/// Where the object store cannot fail to open, `init` succeeds. For an
/// `InMemory` configuration that is always so.
pub proof fn lemma_init_succeeds_when_store_opens<P, W, S, E, M, O, FW, FS, FM, FO>(
    pre: RepositorySlot<M, O>,
    conf: &'static PageServerConf<P>,
    new_walredo: FW,
    open_store: FS,
    new_inmemory: FM,
    new_object: FO,
    res: Result<(), E>,
    post: RepositorySlot<M, O>,
) where
    FW: FnOnce(&'static PageServerConf<P>) -> W,
    FS: FnOnce(&'static PageServerConf<P>) -> Result<S, E>,
    FM: FnOnce(&'static PageServerConf<P>, Arc<W>) -> M,
    FO: FnOnce(&'static PageServerConf<P>, Arc<S>, Arc<W>) -> O,

    requires
        conf.repository_format == RepositoryFormat::RocksDb ==> forall|opened: Result<S, E>|
            #[trigger] open_store.ensures((conf,), opened) ==> opened is Ok,
        init_leaves(pre, conf, new_walredo, open_store, new_inmemory, new_object, res, post),
    ensures
        res is Ok,
        post@ is Some,
{
}

/// A slot that holds a repository holds one after every `init`, whether that
/// `init` succeeds or fails: the slot never goes back to empty.
pub proof fn lemma_init_keeps_slot_initialized<P, W, S, E, M, O, FW, FS, FM, FO>(
    pre: RepositorySlot<M, O>,
    conf: &'static PageServerConf<P>,
    new_walredo: FW,
    open_store: FS,
    new_inmemory: FM,
    new_object: FO,
    res: Result<(), E>,
    post: RepositorySlot<M, O>,
) where
    FW: FnOnce(&'static PageServerConf<P>) -> W,
    FS: FnOnce(&'static PageServerConf<P>) -> Result<S, E>,
    FM: FnOnce(&'static PageServerConf<P>, Arc<W>) -> M,
    FO: FnOnce(&'static PageServerConf<P>, Arc<S>, Arc<W>) -> O,

    requires
        pre@ is Some,
        init_leaves(pre, conf, new_walredo, open_store, new_inmemory, new_object, res, post),
    ensures
        post@ is Some,
{
}

/// The last `init` wins. After two of them, the second one successful, the
/// handle that `get_repository` hands out is to the repository that the second
/// built from its own configuration; what the first left in the slot plays no
/// part in it.
pub proof fn lemma_last_init_wins<P, W, S, E, M, O, FW, FS, FM, FO, GW, GS, GM, GO>(
    before: RepositorySlot<M, O>,
    first_conf: &'static PageServerConf<P>,
    first_walredo: FW,
    first_store: FS,
    first_inmemory: FM,
    first_object: FO,
    first_res: Result<(), E>,
    between: RepositorySlot<M, O>,
    second_conf: &'static PageServerConf<P>,
    second_walredo: GW,
    second_store: GS,
    second_inmemory: GM,
    second_object: GO,
    after: RepositorySlot<M, O>,
    handle: Arc<Repository<M, O>>,
) where
    FW: FnOnce(&'static PageServerConf<P>) -> W,
    FS: FnOnce(&'static PageServerConf<P>) -> Result<S, E>,
    FM: FnOnce(&'static PageServerConf<P>, Arc<W>) -> M,
    FO: FnOnce(&'static PageServerConf<P>, Arc<S>, Arc<W>) -> O,
    GW: FnOnce(&'static PageServerConf<P>) -> W,
    GS: FnOnce(&'static PageServerConf<P>) -> Result<S, E>,
    GM: FnOnce(&'static PageServerConf<P>, Arc<W>) -> M,
    GO: FnOnce(&'static PageServerConf<P>, Arc<S>, Arc<W>) -> O,

    requires
        init_leaves(
            before,
            first_conf,
            first_walredo,
            first_store,
            first_inmemory,
            first_object,
            first_res,
            between,
        ),
        init_leaves(
            between,
            second_conf,
            second_walredo,
            second_store,
            second_inmemory,
            second_object,
            Ok::<(), E>(()),
            after,
        ),
        after@ == Some(*handle),
    ensures
        handle.format() == second_conf.repository_format,
        builds(
            second_conf,
            second_walredo,
            second_store,
            second_inmemory,
            second_object,
            Ok::<_, E>(*handle),
        ),
{
    lemma_init_then_get_matches_configuration(
        between,
        second_conf,
        second_walredo,
        second_store,
        second_inmemory,
        second_object,
        after,
        handle,
    );
}

} // verus!
