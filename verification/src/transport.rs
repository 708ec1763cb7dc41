//! The table of stores that messages are routed over.

use std::collections::hash_map::Entry;
use std::collections::HashMap;

use tempfile::TempDir;
use vstd::prelude::*;

use crate::components::Components;
use crate::error::TransportError;
use crate::temp_dir::path_text;

verus! {

/// What every sender of a cluster shares: where snapshots of each store live,
/// and how each running store is reached.
pub struct ChannelTransportCore<K: Components> {
    pub(crate) snap_paths: HashMap<u64, (K::SnapManager, TempDir)>,
    pub(crate) routers: HashMap<u64, K::Router>,
}

/// The transport of a cluster whose nodes live in one process.
pub struct ChannelTransport<K: Components> {
    pub(crate) core: ChannelTransportCore<K>,
}

/// The mathematical content of a [`ChannelTransport`].
#[verifier::ext_equal]
pub struct TransportView<K: Components> {
    pub snap_paths: Map<u64, (K::SnapManager, TempDir)>,
    pub routers: Map<u64, K::Router>,
}

impl<K: Components> View for ChannelTransport<K> {
    type V = TransportView<K>;

    open(crate) spec fn view(&self) -> TransportView<K> {
        TransportView { snap_paths: self.core.snap_paths@, routers: self.core.routers@ }
    }
}

impl<K: Components> TransportView<K> {
    /// A transport that knows no store.
    pub open spec fn empty() -> Self {
        TransportView { snap_paths: Map::empty(), routers: Map::empty() }
    }

    /// The transport in which `store` is reached through `router`.
    pub open spec fn put_router(self, store: u64, router: K::Router) -> Self {
        TransportView { routers: self.routers.insert(store, router), ..self }
    }

    /// The text of the path of the snapshot directory of `store`.
    pub open spec fn snap_dir(self, store: u64) -> Option<Seq<char>> {
        if self.snap_paths.contains_key(store) {
            crate::temp_dir::temp_dir_path(self.snap_paths[store].1)
        } else {
            None
        }
    }
}

impl<K: Components> ChannelTransport<K> {
    /// A transport that knows no store yet.
    pub fn new() -> (t: ChannelTransport<K>)
        ensures
            t@ == TransportView::<K>::empty(),
    {
        ChannelTransport {
            core: ChannelTransportCore { snap_paths: HashMap::new(), routers: HashMap::new() },
        }
    }

    /// Whether messages wait for a flush: they never do, each one is handed
    /// over at once.
    pub fn need_flush(&self) -> (b: bool)
        ensures
            !b,
    {
        false
    }

    /// Does nothing: no message ever waits.
    pub fn flush(&mut self)
        ensures
            *final(self) == *old(self),
    {
    }

    /// The snapshot manager of `store`.
    pub fn snap_mgr(&self, store: u64) -> (mgr: Option<&K::SnapManager>)
        ensures
            match mgr {
                Some(m) => self@.snap_paths.contains_key(store) && *m == self@.snap_paths[store].0,
                None => !self@.snap_paths.contains_key(store),
            },
    {
        match self.core.snap_paths.get(&store) {
            Some(entry) => Some(&entry.0),
            None => None,
        }
    }

    /// The directory that holds the snapshots of `store`.
    ///
    /// The store has to have a directory, and its path has to be valid UTF-8;
    /// [`find_snap_dir`](Self::find_snap_dir) tests both.
    pub fn get_snap_dir(&self, store: u64) -> (path: String)
        requires
            self@.snap_dir(store) is Some,
        ensures
            self@.snap_dir(store) == Some(path@),
            crate::temp_dir::temp_dir_path(self@.snap_paths[store].1) == Some(path@),
    {
        path_text(&self.core.snap_paths.get(&store).unwrap().1).unwrap()
    }

    /// The directory that holds the snapshots of `store`, if the store has one
    /// and its path is valid UTF-8.
    pub fn find_snap_dir(&self, store: u64) -> (path: Option<String>)
        ensures
            match path {
                Some(text) => self@.snap_dir(store) == Some(text@),
                None => self@.snap_dir(store) is None,
            },
            path is Some <==> {
                &&& self@.snap_paths.contains_key(store)
                &&& crate::temp_dir::temp_dir_path(self@.snap_paths[store].1) is Some
            },
            path matches Some(text) ==> crate::temp_dir::temp_dir_path(
                self@.snap_paths[store].1,
            ) == Some(text@),
    {
        match self.core.snap_paths.get(&store) {
            Some(entry) => path_text(&entry.1),
            None => None,
        }
    }

    /// The router of `store`.
    pub fn router(&self, store: u64) -> (router: Option<&K::Router>)
        ensures
            match router {
                Some(r) => self@.routers.contains_key(store) && *r == self@.routers[store],
                None => !self@.routers.contains_key(store),
            },
    {
        self.core.routers.get(&store)
    }

    /// The router of `store`, to act on in place.
    pub fn router_mut(&mut self, store: u64) -> (router: Option<&mut K::Router>)
        ensures
            match router {
                Some(r) => {
                    &&& old(self)@.routers.contains_key(store)
                    &&& *r == old(self)@.routers[store]
                    &&& final(self)@ == old(self)@.put_router(store, *final(r))
                },
                None => {
                    &&& !old(self)@.routers.contains_key(store)
                    &&& final(self)@ == old(self)@
                },
            },
    {
        match self.core.routers.entry(store) {
            Entry::Occupied(entry) => Some(entry.into_mut()),
            Entry::Vacant(_) => None,
        }
    }

    /// A router of its own for a command to `store`: an error where the store
    /// has none.
    pub fn command_router(&self, store: u64) -> (router: Result<K::Router, TransportError>)
        ensures
            match router {
                Ok(r) => self@.routers.contains_key(store) && cloned(self@.routers[store], r),
                Err(e) => {
                    &&& !self@.routers.contains_key(store)
                    &&& e == (TransportError::MissingSender { store })
                },
            },
    {
        match self.core.routers.get(&store) {
            Some(router) => Ok(router.clone()),
            None => Err(TransportError::MissingSender { store }),
        }
    }

    /// The router that serves a read on `store`: an error where the store has
    /// none.
    pub fn read_router(&mut self, store: u64) -> (router: Result<&mut K::Router, TransportError>)
        ensures
            match router {
                Ok(r) => {
                    &&& old(self)@.routers.contains_key(store)
                    &&& *r == old(self)@.routers[store]
                    &&& final(self)@ == old(self)@.put_router(store, *final(r))
                },
                Err(e) => {
                    &&& !old(self)@.routers.contains_key(store)
                    &&& e == (TransportError::MissingSender { store })
                    &&& final(self)@ == old(self)@
                },
            },
    {
        match self.router_mut(store) {
            Some(router) => Ok(router),
            None => Err(TransportError::MissingSender { store }),
        }
    }
}

impl<K: Components> Default for ChannelTransport<K> {
    fn default() -> (t: ChannelTransport<K>)
        ensures
            t@ == TransportView::<K>::empty(),
    {
        ChannelTransport::new()
    }
}

/// A new transport knows no store: none has a snapshot directory or a router.
pub proof fn law_new_transport_knows_no_store<K: Components>(store: u64)
    ensures
        !TransportView::<K>::empty().snap_paths.contains_key(store),
        !TransportView::<K>::empty().routers.contains_key(store),
{
}

/// The snapshot directory of a store is the one that is kept for it, whatever the id
/// of the store is and whatever else the transport knows. A store that nothing is
/// kept for has none.
pub proof fn law_snap_dir_is_the_one_kept<K: Components>(t: TransportView<K>, store: u64)
    ensures
        t.snap_paths.contains_key(store) ==> t.snap_dir(store) == crate::temp_dir::temp_dir_path(
            t.snap_paths[store].1,
        ),
        !t.snap_paths.contains_key(store) ==> t.snap_dir(store) is None,
{
}

/// A router that is put in place is found under its store. Every other store is
/// reached as before, and no snapshot directory changes.
pub proof fn law_router_is_found_where_it_was_put<K: Components>(
    t: TransportView<K>,
    store: u64,
    router: K::Router,
    other: u64,
)
    ensures
        t.put_router(store, router).routers.contains_key(store),
        t.put_router(store, router).routers[store] == router,
        other != store ==> {
            &&& t.put_router(store, router).routers.contains_key(other)
                == t.routers.contains_key(other)
            &&& t.put_router(store, router).routers[other] == t.routers[other]
        },
        t.put_router(store, router).snap_paths == t.snap_paths,
{
}

} // verus!
