//! The sessions: EVM instances that the service keeps between requests, each
//! under an id that the client presents again.

use crate::bundle::BundleSequencer;
use crate::errors::{Rejection, StateNotFound};
use crate::simulation::{
    SimulationRequest, StatefulSimulationEndResponse, StatefulSimulationResponse,
};
use vstd::prelude::*;

verus! {

/// `dashmap::DashMap`, a hash map. The verifier sees nothing inside it: what
/// it holds is told by `index_entries`.
#[verifier::external_type_specification]
#[verifier::external_body]
#[verifier::reject_recursive_types(K)]
#[verifier::reject_recursive_types(V)]
#[verifier::reject_recursive_types(S)]
pub struct ExDashMap<K, V, S>(dashmap::DashMap<K, V, S>);

/// What the index holds: for each session id the place of its entry.
pub uninterp spec fn index_entries(index: dashmap::DashMap<u128, usize>) -> Map<u128, usize>;

/// `dashmap::DashMap::new`: a map that holds nothing.
#[verifier::external_body]
fn index_new() -> (fresh: dashmap::DashMap<u128, usize>)
    ensures
        forall|id: u128| !index_entries(fresh).contains_key(id),
{
    dashmap::DashMap::new()
}

/// `dashmap::DashMap::insert`: afterwards the key has the value, whether or
/// not it had one before, and every other key is as it was.
#[verifier::external_body]
fn index_insert(index: &mut dashmap::DashMap<u128, usize>, id: u128, place: usize)
    ensures
        index_entries(*final(index)) == index_entries(*old(index)).insert(id, place),
{
    index.insert(id, place);
}

/// `dashmap::DashMap::get`: the value of the key, if it has one.
#[verifier::external_body]
fn index_get(index: &dashmap::DashMap<u128, usize>, id: u128) -> (place: Option<usize>)
    ensures
        place == if index_entries(*index).contains_key(id) {
            Some(index_entries(*index)[id])
        } else {
            None
        },
{
    index.get(&id).map(|entry| *entry.value())
}

/// `dashmap::DashMap::remove`: afterwards the key has no value and every
/// other key is as it was; the value that the key had comes back.
#[verifier::external_body]
fn index_remove(index: &mut dashmap::DashMap<u128, usize>, id: u128) -> (place: Option<usize>)
    ensures
        index_entries(*final(index)) == index_entries(*old(index)).remove(id),
        place == if index_entries(*old(index)).contains_key(id) {
            Some(index_entries(*old(index))[id])
        } else {
            None
        },
{
    index.remove(&id).map(|entry| entry.1)
}

/// The id is a UUID of version 4: the version field holds 4 and the variant
/// field the bits `10`; the other 122 bits are free.
pub open spec fn is_v4_uuid(id: u128) -> bool {
    (id as nat / 0x1000_0000_0000_0000_0000) % 16 == 4 && (id as nat / 0x4000_0000_0000_0000) % 4
        == 2
}

/// `uuid::Uuid::new_v4` and `uuid::Uuid::as_u128`: a random UUID of version 4
/// as a number. Nothing is known of the random bits.
#[verifier::external_body]
fn new_session_id() -> (id: u128)
    ensures
        is_v4_uuid(id),
{
    uuid::Uuid::new_v4().as_u128()
}

/// The sessions of the service. `H` is what stands for a session's EVM: a
/// handle that gives one user at a time access to it.
///
/// The entries lie densely in a vector; the index leads from an id to the
/// place of its entry.
pub struct SharedSimulationState<H> {
    index: dashmap::DashMap<u128, usize>,
    entries: Vec<(u128, H)>,
}

/// What a lookup finds in the given sessions.
pub open spec fn lookup_spec<H>(sessions: Map<u128, H>, id: u128) -> Result<H, Rejection> {
    if sessions.contains_key(id) {
        Ok(sessions[id])
    } else {
        Err(Rejection::StateNotFound(StateNotFound()))
    }
}

/// What the release of a session leaves of the given sessions, and its answer.
pub open spec fn delete_spec<H>(sessions: Map<u128, H>, id: u128) -> (
    Map<u128, H>,
    Result<StatefulSimulationEndResponse, Rejection>,
) {
    if sessions.contains_key(id) {
        (sessions.remove(id), Ok(StatefulSimulationEndResponse { success: true }))
    } else {
        (sessions, Err(Rejection::StateNotFound(StateNotFound())))
    }
}

impl<H> SharedSimulationState<H> {
    /// The sessions: for each id that is live, its handle.
    pub closed spec fn view(&self) -> Map<u128, H> {
        Map::new(
            |id: u128| index_entries(self.index).contains_key(id),
            |id: u128| self.entries@[index_entries(self.index)[id] as int].1,
        )
    }

    /// The index and the entries agree: each id of the index leads to the
    /// entry with that id, and each entry is reached from its id.
    pub closed spec fn well_formed(&self) -> bool {
        &&& forall|id: u128| #[trigger]
            index_entries(self.index).contains_key(id) ==> index_entries(self.index)[id]
                < self.entries@.len() && self.entries@[index_entries(self.index)[id] as int].0
                == id
        &&& forall|i: int|
            0 <= i < self.entries@.len() ==> index_entries(self.index).contains_key(
                (#[trigger] self.entries@[i]).0,
            ) && index_entries(self.index)[self.entries@[i].0] == i
    }

    /// No session.
    pub fn new() -> (state: Self)
        ensures
            state.well_formed(),
            state@ == Map::<u128, H>::empty(),
    {
        let state = SharedSimulationState { index: index_new(), entries: Vec::new() };
        assert(state@ =~= Map::<u128, H>::empty());
        state
    }

    /// Puts `evm` under `id`. A session that had the id before is replaced.
    pub fn insert(&mut self, id: u128, evm: H)
        requires
            old(self).well_formed(),
        ensures
            final(self).well_formed(),
            final(self)@ == old(self)@.insert(id, evm),
    {
        match index_get(&self.index, id) {
            Some(place) => {
                self.entries.set(place, (id, evm));
            },
            None => {
                let place: usize = self.entries.len();
                self.entries.push((id, evm));
                index_insert(&mut self.index, id, place);
            },
        }
        assert(self@ =~= old(self)@.insert(id, evm));
    }

    /// Opens a session for `evm` under a fresh random id and returns the id.
    pub fn create(&mut self, evm: H) -> (response: StatefulSimulationResponse)
        requires
            old(self).well_formed(),
        ensures
            final(self).well_formed(),
            is_v4_uuid(response.stateful_simulation_id),
            final(self)@ == old(self)@.insert(response.stateful_simulation_id, evm),
    {
        let id = new_session_id();
        self.insert(id, evm);
        StatefulSimulationResponse { stateful_simulation_id: id }
    }

    /// The handle of the session `id`. While the reference is held no session
    /// can be released.
    pub fn lookup(&self, id: u128) -> (r: Result<&H, Rejection>)
        requires
            self.well_formed(),
        ensures
            match lookup_spec(self@, id) {
                Ok(evm) => r == Ok::<&H, Rejection>(&evm),
                Err(e) => r == Err::<&H, Rejection>(e),
            },
    {
        match index_get(&self.index, id) {
            Some(place) => Ok(&self.entries[place].1),
            None => Err(Rejection::StateNotFound(StateNotFound())),
        }
    }

    /// Releases the session `id`.
    pub fn delete(&mut self, id: u128) -> (r: Result<StatefulSimulationEndResponse, Rejection>)
        requires
            old(self).well_formed(),
        ensures
            final(self).well_formed(),
            (final(self)@, r) == delete_spec(old(self)@, id),
    {
        match index_remove(&mut self.index, id) {
            Some(place) => {
                let _ = self.entries.swap_remove(place);
                if place < self.entries.len() {
                    let moved: u128 = self.entries[place].0;
                    index_insert(&mut self.index, moved, place);
                }
                assert(self@ =~= old(self)@.remove(id));
                Ok(StatefulSimulationEndResponse { success: true })
            },
            None => {
                assert(self@ =~= old(self)@);
                Err(Rejection::StateNotFound(StateNotFound()))
            },
        }
    }
}

/// Releases the session `param`.
pub fn simulate_stateful_end<H>(param: u128, state: &mut SharedSimulationState<H>) -> (r: Result<
    StatefulSimulationEndResponse,
    Rejection,
>)
    requires
        old(state).well_formed(),
    ensures
        final(state).well_formed(),
        (final(state)@, r) == delete_spec(old(state)@, param),
{
    state.delete(param)
}

/// Plans a bundle on the session `param`: the handle of its EVM, the chain
/// that the EVM must be on, and the sequencer that the items pass one by one.
pub fn simulate_stateful<'a, H>(
    param: u128,
    transactions: &Vec<SimulationRequest>,
    state: &'a SharedSimulationState<H>,
) -> (r: Result<(&'a H, u64, BundleSequencer), Rejection>)
    requires
        state.well_formed(),
        transactions@.len() > 0,
    ensures
        match lookup_spec(state@, param) {
            Ok(evm) => r == Ok::<(&H, u64, BundleSequencer), Rejection>(
                (
                    &evm,
                    transactions@[0].chain_id,
                    BundleSequencer {
                        first_chain_id: transactions@[0].chain_id,
                        first_block_number: transactions@[0].block_number,
                        stateful: true,
                    },
                ),
            ),
            Err(e) => r == Err::<(&H, u64, BundleSequencer), Rejection>(e),
        },
{
    let evm = match state.lookup(param) {
        Ok(evm) => evm,
        Err(e) => {
            return Err(e);
        },
    };
    let sequencer = BundleSequencer::new(transactions, true);
    Ok((evm, sequencer.first_chain_id, sequencer))
}

/// A session that was released is gone: the release answers with success,
/// and after it both a lookup and a second release find no session.
pub proof fn lemma_released_session_is_gone<H>(sessions: Map<u128, H>, id: u128)
    requires
        sessions.contains_key(id),
    ensures
        delete_spec(sessions, id).1 == Ok::<StatefulSimulationEndResponse, Rejection>(
            StatefulSimulationEndResponse { success: true },
        ),
        lookup_spec(delete_spec(sessions, id).0, id) == Err::<H, Rejection>(
            Rejection::StateNotFound(StateNotFound()),
        ),
        delete_spec(delete_spec(sessions, id).0, id).1 == Err::<
            StatefulSimulationEndResponse,
            Rejection,
        >(Rejection::StateNotFound(StateNotFound())),
{
}

/// The release of one session leaves every other session as it was.
pub proof fn lemma_release_keeps_others<H>(sessions: Map<u128, H>, id: u128, other: u128)
    requires
        other != id,
    ensures
        lookup_spec(delete_spec(sessions, id).0, other) == lookup_spec(sessions, other),
{
}

} // verus!
