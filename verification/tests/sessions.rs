use transaction_simulator::bundle::BundleSequencer;
use transaction_simulator::errors::{Rejection, StateNotFound};
use transaction_simulator::sessions::{simulate_stateful, simulate_stateful_end, SharedSimulationState};
use transaction_simulator::simulation::{SimulationRequest, StatefulSimulationEndResponse};
use transaction_simulator::types::Address;

fn not_found<T>() -> Result<T, Rejection> {
    Err(Rejection::StateNotFound(StateNotFound()))
}

fn item(chain_id: u64, block_number: Option<u64>) -> SimulationRequest {
    SimulationRequest {
        chain_id,
        from: Address([1; 20]),
        to: Address([2; 20]),
        data: None,
        gas_limit: 5000000,
        value: None,
        access_list: None,
        block_number,
        state_overrides: None,
        format_trace: None,
    }
}

#[test]
fn stateful_session_round_trip() {
    let mut state: SharedSimulationState<String> = SharedSimulationState::new();
    let id = state.create("evm".to_string()).stateful_simulation_id;
    assert_eq!(state.lookup(id), Ok(&"evm".to_string()));
    assert_eq!(
        simulate_stateful_end(id, &mut state),
        Ok(StatefulSimulationEndResponse { success: true })
    );
    assert_eq!(simulate_stateful_end(id, &mut state), not_found());
    assert_eq!(state.lookup(id), not_found());
}

#[test]
fn session_ids_are_v4_uuids() {
    let mut state: SharedSimulationState<u8> = SharedSimulationState::new();
    let mut seen = Vec::new();
    for i in 0..64 {
        let id = state.create(i).stateful_simulation_id;
        assert_eq!((id >> 76) & 0xf, 4, "version of {:032x}", id);
        assert_eq!((id >> 62) & 0x3, 2, "variant of {:032x}", id);
        assert_eq!(uuid::Uuid::from_u128(id).get_version_num(), 4);
        assert!(!seen.contains(&id));
        seen.push(id);
    }
    for (i, id) in seen.iter().enumerate() {
        assert_eq!(state.lookup(*id), Ok(&(i as u8)));
    }
}

#[test]
fn lookup_of_an_unknown_session() {
    let mut state: SharedSimulationState<u8> = SharedSimulationState::new();
    assert_eq!(state.lookup(0), not_found());
    state.insert(1, 10);
    assert_eq!(state.lookup(0), not_found());
    assert_eq!(state.lookup(1), Ok(&10));
    assert_eq!(state.delete(0), not_found());
    assert_eq!(state.lookup(1), Ok(&10));
}

#[test]
fn insert_replaces_the_session_of_an_id() {
    let mut state: SharedSimulationState<u8> = SharedSimulationState::new();
    state.insert(1, 10);
    state.insert(2, 20);
    state.insert(1, 11);
    assert_eq!(state.lookup(1), Ok(&11));
    assert_eq!(state.lookup(2), Ok(&20));
    assert_eq!(state.delete(1), Ok(StatefulSimulationEndResponse { success: true }));
    assert_eq!(state.lookup(1), not_found());
    assert_eq!(state.lookup(2), Ok(&20));
}

#[test]
fn release_keeps_the_other_sessions() {
    let mut state: SharedSimulationState<u128> = SharedSimulationState::new();
    for id in 0..20u128 {
        state.insert(id, id * 100);
    }
    // the first, one in the middle, the last, then the rest in turn
    for id in [0u128, 7, 19, 1, 18, 2, 17, 3, 16, 4, 15, 5, 14, 6, 13, 8, 12, 9, 11, 10] {
        assert_eq!(state.delete(id), Ok(StatefulSimulationEndResponse { success: true }));
        assert_eq!(state.delete(id), not_found());
        for other in 0..20u128 {
            match state.lookup(other) {
                Ok(value) => assert_eq!(*value, other * 100),
                Err(e) => assert_eq!(e, Rejection::StateNotFound(StateNotFound())),
            }
        }
        assert_eq!(state.lookup(id), not_found());
    }
    for id in 0..20u128 {
        assert_eq!(state.lookup(id), not_found());
    }
}

#[test]
fn released_id_can_be_taken_again() {
    let mut state: SharedSimulationState<u8> = SharedSimulationState::new();
    state.insert(5, 1);
    state.insert(6, 2);
    assert!(state.delete(5).is_ok());
    state.insert(5, 3);
    assert_eq!(state.lookup(5), Ok(&3));
    assert_eq!(state.lookup(6), Ok(&2));
}

#[test]
fn bundle_on_a_session() {
    let mut state: SharedSimulationState<&str> = SharedSimulationState::new();
    let id = state.create("evm").stateful_simulation_id;
    let items = vec![item(1, Some(16968595)), item(1, Some(16968596))];
    assert_eq!(
        simulate_stateful(id, &items, &state),
        Ok((
            &"evm",
            1,
            BundleSequencer {
                first_chain_id: 1,
                first_block_number: Some(16968595),
                stateful: true
            }
        ))
    );
    assert_eq!(simulate_stateful(id ^ 1, &items, &state), not_found());
    assert!(state.delete(id).is_ok());
    assert_eq!(simulate_stateful(id, &items, &state), not_found());
}
