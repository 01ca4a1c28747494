//! The registry on concrete collaborators: what `init` builds, what
//! `get_repository` hands out, and what a failure leaves behind.

use pageserver::config::PageServerConf;
use pageserver::config::RepositoryFormat;
use pageserver::page_cache::get_repository;
use pageserver::page_cache::init;
use pageserver::page_cache::RepositorySlot;
use pageserver::repository::Repository;
use std::cell::Cell;
use std::sync::Arc;

/// A redo manager that knows which configuration it was made for.
#[derive(Debug, PartialEq, Eq)]
struct Redo {
    workdir: &'static str,
}

/// An opened object store.
#[derive(Debug, PartialEq, Eq)]
struct Store {
    path: String,
}

/// Why a store did not open.
#[derive(Debug, PartialEq, Eq)]
struct OpenError {
    path: String,
}

/// The repository that keeps its pages in memory.
#[derive(Debug, PartialEq, Eq)]
struct Volatile {
    workdir: &'static str,
    redo: Arc<Redo>,
}

/// The repository that keeps its pages in an object store.
#[derive(Debug, PartialEq, Eq)]
struct Durable {
    workdir: &'static str,
    store: Arc<Store>,
    redo: Arc<Redo>,
}

type Conf = PageServerConf<&'static str>;

type Slot = RepositorySlot<Volatile, Durable>;

fn conf(repository_format: RepositoryFormat, workdir: &'static str) -> &'static Conf {
    Box::leak(Box::new(PageServerConf { repository_format, params: workdir }))
}

fn new_redo(conf: &'static Conf) -> Redo {
    Redo { workdir: conf.params }
}

/// Opens every store but the one under `/missing`.
fn open_store(conf: &'static Conf) -> Result<Store, OpenError> {
    if conf.params.starts_with("/missing") {
        Err(OpenError { path: format!("{}/rocksdb", conf.params) })
    } else {
        Ok(Store { path: format!("{}/rocksdb", conf.params) })
    }
}

fn new_volatile(conf: &'static Conf, redo: Arc<Redo>) -> Volatile {
    Volatile { workdir: conf.params, redo }
}

fn new_durable(conf: &'static Conf, store: Arc<Store>, redo: Arc<Redo>) -> Durable {
    Durable { workdir: conf.params, store, redo }
}

fn init_with(slot: &mut Slot, conf: &'static Conf) -> Result<(), OpenError> {
    init(slot, conf, new_redo, open_store, new_volatile, new_durable)
}

#[test]
fn new_slot_is_empty() {
    let slot = Slot::new();
    assert!(!slot.is_initialized());
}

#[test]
fn init_in_memory_then_get_returns_in_memory_repository() {
    let mut slot = Slot::new();
    let res = init_with(&mut slot, conf(RepositoryFormat::InMemory, "/data"));
    assert_eq!(res, Ok(()));
    assert!(slot.is_initialized());
    let repo = get_repository(&slot);
    assert_eq!(repo.repository_format(), RepositoryFormat::InMemory);
    assert_eq!(
        *repo,
        Repository::InMemory(Volatile { workdir: "/data", redo: Arc::new(Redo { workdir: "/data" }) })
    );
}

#[test]
fn init_rocksdb_then_get_returns_object_repository() {
    let mut slot = Slot::new();
    let res = init_with(&mut slot, conf(RepositoryFormat::RocksDb, "/data"));
    assert_eq!(res, Ok(()));
    assert!(slot.is_initialized());
    let repo = get_repository(&slot);
    assert_eq!(repo.repository_format(), RepositoryFormat::RocksDb);
    assert_eq!(
        *repo,
        Repository::Object(Durable {
            workdir: "/data",
            store: Arc::new(Store { path: "/data/rocksdb".to_string() }),
            redo: Arc::new(Redo { workdir: "/data" }),
        })
    );
}

#[test]
fn init_rocksdb_with_unopenable_store_fails_and_leaves_slot_empty() {
    let mut slot = Slot::new();
    let res = init_with(&mut slot, conf(RepositoryFormat::RocksDb, "/missing"));
    assert_eq!(res, Err(OpenError { path: "/missing/rocksdb".to_string() }));
    assert!(!slot.is_initialized());
}

#[test]
fn init_in_memory_does_not_open_the_store() {
    let opened = Cell::new(0u32);
    let mut slot = Slot::new();
    let res = init(
        &mut slot,
        conf(RepositoryFormat::InMemory, "/missing"),
        new_redo,
        |conf: &'static Conf| {
            opened.set(opened.get() + 1);
            open_store(conf)
        },
        new_volatile,
        new_durable,
    );
    assert_eq!(res, Ok(()));
    assert_eq!(opened.get(), 0);
    assert_eq!(get_repository(&slot).repository_format(), RepositoryFormat::InMemory);
}

#[test]
fn init_calls_each_collaborator_of_the_kind_once() {
    let redos = Cell::new(0u32);
    let opens = Cell::new(0u32);
    let volatiles = Cell::new(0u32);
    let durables = Cell::new(0u32);
    let mut slot = Slot::new();
    let res = init(
        &mut slot,
        conf(RepositoryFormat::RocksDb, "/srv"),
        |conf: &'static Conf| {
            redos.set(redos.get() + 1);
            new_redo(conf)
        },
        |conf: &'static Conf| {
            opens.set(opens.get() + 1);
            open_store(conf)
        },
        |conf: &'static Conf, redo: Arc<Redo>| {
            volatiles.set(volatiles.get() + 1);
            new_volatile(conf, redo)
        },
        |conf: &'static Conf, store: Arc<Store>, redo: Arc<Redo>| {
            durables.set(durables.get() + 1);
            new_durable(conf, store, redo)
        },
    );
    assert_eq!(res, Ok(()));
    assert_eq!((redos.get(), opens.get(), volatiles.get(), durables.get()), (1, 1, 0, 1));
}

#[test]
fn failed_init_builds_no_repository() {
    let volatiles = Cell::new(0u32);
    let durables = Cell::new(0u32);
    let mut slot = Slot::new();
    let res = init(
        &mut slot,
        conf(RepositoryFormat::RocksDb, "/missing/again"),
        new_redo,
        open_store,
        |conf: &'static Conf, redo: Arc<Redo>| {
            volatiles.set(volatiles.get() + 1);
            new_volatile(conf, redo)
        },
        |conf: &'static Conf, store: Arc<Store>, redo: Arc<Redo>| {
            durables.set(durables.get() + 1);
            new_durable(conf, store, redo)
        },
    );
    assert_eq!(res, Err(OpenError { path: "/missing/again/rocksdb".to_string() }));
    assert_eq!((volatiles.get(), durables.get()), (0, 0));
    assert!(!slot.is_initialized());
}

#[test]
fn get_repository_hands_out_the_same_instance() {
    let mut slot = Slot::new();
    assert_eq!(init_with(&mut slot, conf(RepositoryFormat::RocksDb, "/data")), Ok(()));
    let first = get_repository(&slot);
    let second = get_repository(&slot);
    let third = get_repository(&slot);
    assert!(Arc::ptr_eq(&first, &second));
    assert!(Arc::ptr_eq(&second, &third));
    assert_eq!(*first, *third);
}

#[test]
fn get_repository_shares_and_does_not_copy() {
    let mut slot = Slot::new();
    assert_eq!(init_with(&mut slot, conf(RepositoryFormat::InMemory, "/data")), Ok(()));
    let first = get_repository(&slot);
    // One handle in the slot, one here.
    assert_eq!(Arc::strong_count(&first), 2);
    let second = get_repository(&slot);
    assert_eq!(Arc::strong_count(&first), 3);
    drop(second);
    assert_eq!(Arc::strong_count(&first), 2);
    // The slot still holds its own handle.
    assert!(slot.is_initialized());
}

#[test]
fn repository_shares_the_redo_manager_it_was_given() {
    let mut slot = Slot::new();
    assert_eq!(init_with(&mut slot, conf(RepositoryFormat::RocksDb, "/data")), Ok(()));
    let repo = get_repository(&slot);
    match &*repo {
        Repository::Object(durable) => {
            assert_eq!(Arc::strong_count(&durable.redo), 1);
            assert_eq!(Arc::strong_count(&durable.store), 1);
            assert_eq!(durable.store.path, "/data/rocksdb");
        }
        Repository::InMemory(_) => panic!("a RocksDb configuration gave an in-memory repository"),
    }
}

#[test]
fn second_init_replaces_the_repository() {
    let mut slot = Slot::new();
    assert_eq!(init_with(&mut slot, conf(RepositoryFormat::InMemory, "/one")), Ok(()));
    let before = get_repository(&slot);
    assert_eq!(init_with(&mut slot, conf(RepositoryFormat::RocksDb, "/two")), Ok(()));
    let after = get_repository(&slot);
    assert!(!Arc::ptr_eq(&before, &after));
    assert_eq!(after.repository_format(), RepositoryFormat::RocksDb);
    match &*after {
        Repository::Object(durable) => assert_eq!(durable.workdir, "/two"),
        Repository::InMemory(_) => panic!("the second init did not replace the repository"),
    }
    // Whoever still holds the earlier handle keeps a working repository.
    assert_eq!(before.repository_format(), RepositoryFormat::InMemory);
    assert_eq!(Arc::strong_count(&before), 1);
    assert_eq!(
        *before,
        Repository::InMemory(Volatile { workdir: "/one", redo: Arc::new(Redo { workdir: "/one" }) })
    );
}

#[test]
fn second_init_of_the_same_kind_builds_a_new_instance() {
    let mut slot = Slot::new();
    let same = conf(RepositoryFormat::InMemory, "/data");
    assert_eq!(init_with(&mut slot, same), Ok(()));
    let before = get_repository(&slot);
    assert_eq!(init_with(&mut slot, same), Ok(()));
    let after = get_repository(&slot);
    assert_eq!(*before, *after);
    assert!(!Arc::ptr_eq(&before, &after));
}

#[test]
fn failed_init_keeps_the_repository_that_was_there() {
    let mut slot = Slot::new();
    assert_eq!(init_with(&mut slot, conf(RepositoryFormat::InMemory, "/one")), Ok(()));
    let before = get_repository(&slot);
    let res = init_with(&mut slot, conf(RepositoryFormat::RocksDb, "/missing"));
    assert_eq!(res, Err(OpenError { path: "/missing/rocksdb".to_string() }));
    assert!(slot.is_initialized());
    let after = get_repository(&slot);
    assert!(Arc::ptr_eq(&before, &after));
    assert_eq!(after.repository_format(), RepositoryFormat::InMemory);
}

#[test]
fn init_after_a_failure_succeeds() {
    let mut slot = Slot::new();
    assert!(init_with(&mut slot, conf(RepositoryFormat::RocksDb, "/missing")).is_err());
    assert!(!slot.is_initialized());
    assert_eq!(init_with(&mut slot, conf(RepositoryFormat::RocksDb, "/found")), Ok(()));
    assert!(slot.is_initialized());
    match &*get_repository(&slot) {
        Repository::Object(durable) => assert_eq!(durable.store.path, "/found/rocksdb"),
        Repository::InMemory(_) => panic!("a RocksDb configuration gave an in-memory repository"),
    }
}

#[test]
fn every_kind_gives_a_repository_of_that_kind() {
    for format in [RepositoryFormat::InMemory, RepositoryFormat::RocksDb] {
        let mut slot = Slot::new();
        assert_eq!(init_with(&mut slot, conf(format, "/data")), Ok(()));
        assert_eq!(get_repository(&slot).repository_format(), format);
    }
}

#[test]
fn slots_are_independent() {
    let mut one = Slot::new();
    let two = Slot::new();
    assert_eq!(init_with(&mut one, conf(RepositoryFormat::InMemory, "/one")), Ok(()));
    assert!(one.is_initialized());
    assert!(!two.is_initialized());
}
