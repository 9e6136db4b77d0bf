//! The start of the service: the directory of the state database, and the
//! restoration of an earlier state.
use crate::service::EVMCoreService;
use vstd::prelude::*;

verus! {

/// A path, as the segments that are to be joined.
#[derive(Debug, PartialEq, Eq)]
pub struct Segments(pub Vec<String>);

impl View for Segments {
    type V = Seq<Seq<char>>;

    open spec fn view(&self) -> Seq<Seq<char>> {
        self.0@.map_values(|segment: String| segment@)
    }
}

/// The setup of the state database's directory on its way.
#[derive(Debug, PartialEq, Eq)]
pub enum VsdbSetup {
    /// Waits for the data directory of the node.
    GetDatadir,
    /// Waits to be told whether the directory is there.
    CheckDir(Segments),
    /// Waits for the directory to be made.
    CreateDir(Segments),
    /// Waits for the directory to be made the base of the state database.
    SetBaseDir(Segments),
    /// The state database knows its directory.
    Done,
}

/// An answer that a [`VsdbSetup`] waits for.
#[derive(Debug, PartialEq, Eq)]
pub enum VsdbEvent {
    Datadir(String),
    Exists(bool),
    Created,
    BaseDirSet,
}

/// Begins the setup of the state database's directory.
pub fn init_vsdb() -> (r: VsdbSetup)
    ensures
        r == VsdbSetup::GetDatadir,
{
    VsdbSetup::GetDatadir
}

impl VsdbSetup {
    /// Whether the setup stands at `next` after an answer. The directory `evm`
    /// below the data directory is made only where it is not there, and `.vsdb`
    /// below that is the base of the state database. An answer that the setup
    /// does not wait for changes nothing.
    pub open spec fn leads_to(self, event: VsdbEvent, next: Self) -> bool {
        match (self, event) {
            (VsdbSetup::GetDatadir, VsdbEvent::Datadir(datadir)) => {
                next matches VsdbSetup::CheckDir(dir) && dir@ == seq![datadir@, "evm"@]
            },
            (VsdbSetup::CheckDir(dir), VsdbEvent::Exists(false)) => {
                next == VsdbSetup::CreateDir(dir)
            },
            (VsdbSetup::CheckDir(dir), VsdbEvent::Exists(true)) => {
                next matches VsdbSetup::SetBaseDir(base) && base@ == dir@.push(".vsdb"@)
            },
            (VsdbSetup::CreateDir(dir), VsdbEvent::Created) => {
                next matches VsdbSetup::SetBaseDir(base) && base@ == dir@.push(".vsdb"@)
            },
            (VsdbSetup::SetBaseDir(base), VsdbEvent::BaseDirSet) => next == VsdbSetup::Done,
            _ => next == self,
        }
    }

    /// Takes an answer.
    pub fn step(self, event: VsdbEvent) -> (r: Self)
        ensures
            self.leads_to(event, r),
    {
        match (self, event) {
            (VsdbSetup::GetDatadir, VsdbEvent::Datadir(datadir)) => {
                let mut segments: Vec<String> = Vec::new();
                segments.push(datadir);
                segments.push("evm".to_owned());
                let dir = Segments(segments);
                assert(dir@ =~= seq![datadir@, "evm"@]);
                VsdbSetup::CheckDir(dir)
            },
            (VsdbSetup::CheckDir(dir), VsdbEvent::Exists(false)) => VsdbSetup::CreateDir(dir),
            (VsdbSetup::CheckDir(dir), VsdbEvent::Exists(true)) => VsdbSetup::SetBaseDir(
                vsdb_dir(dir),
            ),
            (VsdbSetup::CreateDir(dir), VsdbEvent::Created) => VsdbSetup::SetBaseDir(vsdb_dir(dir)),
            (VsdbSetup::SetBaseDir(_), VsdbEvent::BaseDirSet) => VsdbSetup::Done,
            (setup, _) => setup,
        }
    }
}

/// The directory of the state database in the directory of the EVM.
fn vsdb_dir(evm_dir: Segments) -> (r: Segments)
    ensures
        r@ == evm_dir@.push(".vsdb"@),
{
    let mut segments = evm_dir.0;
    segments.push(".vsdb".to_owned());
    let dir = Segments(segments);
    assert(dir@ =~= evm_dir@.push(".vsdb"@));
    dir
}

/// The restoration of a service on its way.
#[derive(Debug, PartialEq, Eq)]
pub enum Restoration<Q, T, S> {
    /// Waits for what the setup of the state database's directory waits for.
    Vsdb { setup: VsdbSetup, storage: S },
    /// Waits for new, empty queues and for the trie store as it was saved.
    OpenStores { storage: S },
    /// The service is there.
    Done(EVMCoreService<Q, T, S>),
}

/// An answer that a [`Restoration`] waits for.
#[derive(Debug, PartialEq, Eq)]
pub enum RestorationEvent<Q, T> {
    Vsdb(VsdbEvent),
    Stores { tx_queues: Q, trie_store: T },
}

impl<Q, T, S> Restoration<Q, T, S> {
    /// Whether the restoration stands at `next` after an answer. An answer that it
    /// does not wait for changes nothing.
    pub open spec fn leads_to(self, event: RestorationEvent<Q, T>, next: Self) -> bool {
        match (self, event) {
            (Restoration::Vsdb { setup, storage }, RestorationEvent::Vsdb(e)) => match next {
                Restoration::Vsdb { setup: ahead, storage: kept } => {
                    &&& setup.leads_to(e, ahead)
                    &&& ahead != VsdbSetup::Done
                    &&& kept == storage
                },
                Restoration::OpenStores { storage: kept } => {
                    &&& setup.leads_to(e, VsdbSetup::Done)
                    &&& kept == storage
                },
                Restoration::Done(_) => false,
            },
            (
                Restoration::OpenStores { storage },
                RestorationEvent::Stores { tx_queues, trie_store },
            ) => next == Restoration::Done(EVMCoreService { tx_queues, trie_store, storage }),
            _ => next == self,
        }
    }

    /// Takes an answer.
    pub fn step(self, event: RestorationEvent<Q, T>) -> (r: Self)
        ensures
            self.leads_to(event, r),
    {
        match (self, event) {
            (
                Restoration::Vsdb { setup, storage },
                RestorationEvent::Vsdb(e),
            ) => match setup.step(e) {
                VsdbSetup::Done => Restoration::OpenStores { storage },
                setup => Restoration::Vsdb { setup, storage },
            },
            (
                Restoration::OpenStores { storage },
                RestorationEvent::Stores { tx_queues, trie_store },
            ) => Restoration::Done(EVMCoreService { tx_queues, trie_store, storage }),
            (restoration, _) => restoration,
        }
    }
}

/// An order to the state trie store.
#[derive(Clone, Copy, Debug, PartialEq, Eq)]
pub enum TrieCommand {
    /// Write the trie to disk.
    Flush,
}

/// An order to the state trie store on its way. `E` is the store's own error.
#[derive(Debug, PartialEq, Eq)]
pub enum TrieOperation<E> {
    /// Waits for the order to be carried out.
    Issue(TrieCommand),
    /// The operation has ended.
    Done(Result<(), E>),
}

impl<E> TrieOperation<E> {
    /// Where the operation stands after the store's answer, which is the result as
    /// it is.
    pub open spec fn after(self, reply: Result<(), E>) -> Self {
        match self {
            TrieOperation::Issue(_) => TrieOperation::Done(reply),
            TrieOperation::Done(_) => self,
        }
    }

    /// Takes the store's answer.
    pub fn step(self, reply: Result<(), E>) -> (r: Self)
        ensures
            r == self.after(reply),
    {
        match self {
            TrieOperation::Issue(_) => TrieOperation::Done(reply),
            done => done,
        }
    }
}

impl<Q, T, S> EVMCoreService<Q, T, S> {
    /// Brings back a service on the state that was saved.
    pub fn restore(storage: S) -> (r: Restoration<Q, T, S>)
        ensures
            r == (Restoration::<Q, T, S>::Vsdb { setup: VsdbSetup::GetDatadir, storage }),
    {
        Restoration::Vsdb { setup: init_vsdb(), storage }
    }

    /// Writes the state trie to disk. The answer of the trie store to the order is
    /// the result.
    pub fn flush<E>(&self) -> (r: TrieOperation<E>)
        ensures
            r == TrieOperation::<E>::Issue(TrieCommand::Flush),
            forall|reply: Result<(), E>| #[trigger]
                r.after(reply) == TrieOperation::<E>::Done(reply),
    {
        TrieOperation::Issue(TrieCommand::Flush)
    }
}

} // verus!
