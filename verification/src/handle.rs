//! The cached connection handle.

use crate::counter::NameCounter;
use crate::engine::{open_shared, OpenError};
use crate::names::{lemma_open_uris_differ, open_uri_spec, shared_name_spec};
use rusqlite::Connection;
use thread_local::ThreadLocal;
use vstd::prelude::*;

verus! {

/// `thread_local::ThreadLocal`, which keeps one value per thread.
///
/// Threads fill their slots behind a shared reference, at any time and from
/// any thread. What the collection holds is therefore no function of its
/// value as the verifier sees it, and no contract here speaks of it: a claim
/// that it is empty would go on being believed after a thread had filled a
/// slot.
#[verifier::external_type_specification]
#[verifier::external_body]
#[verifier::reject_recursive_types(T)]
pub struct ExThreadLocal<T: Send>(ThreadLocal<T>);

/// `ThreadLocal::new` creates a `ThreadLocal` in which no thread has a value.
/// The contract claims nothing of the result.
pub assume_specification<T: Send>[ ThreadLocal::<T>::new ]() -> ThreadLocal<T>;

/// `ThreadLocal::clear` drops the values of all threads and leaves the
/// collection as `new` makes it. The contract claims nothing of the result.
pub assume_specification<T: Send>[ ThreadLocal::<T>::clear ](cache: &mut ThreadLocal<T>);

/// `ThreadLocal::get_or_try` returns the calling thread's value if it has
/// one. Otherwise it calls `create` once: a value that `create` returns is
/// stored for the thread and returned, an error is handed on and nothing is
/// stored. The contract claims that `create` may be called, and that an error
/// is one that `create` returned. Of a value it claims nothing, since the
/// value may have been stored by an earlier call.
pub assume_specification<T: Send, F, E>[ ThreadLocal::<T>::get_or_try ](
    cache: &ThreadLocal<T>,
    create: F,
) -> (r: Result<&T, E>) where F: FnOnce() -> Result<T, E>
    requires
        create.requires(()),
    ensures
        r matches Err(e) ==> create.ensures((), Err(e)),
;

/// A handle on the shared in-memory database of one logical name.
///
/// The handle can be shared between threads. Each thread that uses it gets
/// a connection of its own, opened on first use and kept for later uses.
/// Two handles with the same name reach the same database, through
/// connections that they do not share.
pub struct SyncSqliteConnection {
    connection: ThreadLocal<Connection>,
    name: String,
}

impl View for SyncSqliteConnection {
    type V = Seq<char>;

    /// A handle stands for its logical name.
    closed spec fn view(&self) -> Seq<char> {
        self.name@
    }
}

impl SyncSqliteConnection {
    /// A handle on a new database, under a fresh name taken from `names`.
    /// No thread has a connection yet.
    pub fn new(names: &NameCounter) -> (handle: Self)
        ensures
            exists|n: u64| handle@ == #[trigger] shared_name_spec(n),
    {
        SyncSqliteConnection { connection: ThreadLocal::new(), name: names.next_name() }
    }

    /// A handle on the database called `name`, which may or may not be in
    /// use already. No thread has a connection yet.
    pub fn open(name: String) -> (handle: Self)
        ensures
            handle@ == name@,
    {
        SyncSqliteConnection { connection: ThreadLocal::new(), name }
    }

    /// The logical name of the database.
    pub fn name(&self) -> (name: &String)
        ensures
            name@ == self@,
    {
        &self.name
    }

    /// The calling thread's connection to the database. The first call on a
    /// thread opens the connection on the URI of the handle's name; later
    /// calls on that thread return the same connection.
    ///
    /// If the engine cannot open the connection, nothing is kept for the
    /// thread, and the error holds the URI that was refused.
    pub fn force(&self) -> (r: Result<&Connection, OpenError>)
        ensures
            r matches Err(e) ==> e.uri@ == open_uri_spec(self@),
    {
        let name = self.name.as_str();
        let open = || -> (opened: Result<Connection, OpenError>)
            ensures
                opened matches Err(e) ==> e.uri@ == open_uri_spec(name@),
            {
                open_shared(name)
            };
        self.connection.get_or_try(open)
    }
}

/// Two handles reach the same database exactly if their names are equal:
/// the connections of both are then opened on one URI, and on different URIs
/// otherwise.
pub proof fn lemma_same_name_same_uri(first: SyncSqliteConnection, second: SyncSqliteConnection)
    ensures
        first@ == second@ <==> open_uri_spec(first@) == open_uri_spec(second@),
{
    lemma_open_uris_differ(first@, second@);
}

impl Clone for SyncSqliteConnection {
    /// A second handle on the same database. It shares no connection with
    /// `self`: every thread opens a new one on first use.
    fn clone(&self) -> (handle: Self)
        ensures
            handle@ == self@,
    {
        SyncSqliteConnection::open(self.name.clone())
    }

    /// Makes `self` a handle on the database of `source`. All connections
    /// that `self` kept are dropped, whichever thread opened them.
    fn clone_from(&mut self, source: &Self)
        ensures
            final(self)@ == source@,
    {
        self.name = source.name.clone();
        self.connection.clear();
    }
}

} // verus!
