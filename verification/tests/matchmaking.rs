use steamworks::callback::{CallbackHandle, Delivery, Payload};
use steamworks::friends::{persona_state_change, PersonaStateChange};
use steamworks::matchmaking::{
    create_lobby_outcome, create_lobby_result, lobby_list_count, lobby_list_outcome,
    lobby_list_result, LobbyCreated, LobbyId, LobbyMatchList,
};
use steamworks::{SteamError, SteamId};

fn delivery(payload: Option<Payload>, io_failure: bool) -> Delivery {
    Delivery { handle: CallbackHandle(1), payload, io_failure }
}

#[test]
fn created_lobby_gives_its_id() {
    let answer = LobbyCreated { result: 1, lobby_steam_id: 123456789 };
    assert_eq!(create_lobby_result(&answer, false), Ok(LobbyId(123456789)));
}

#[test]
fn transport_failure_wins_over_any_payload() {
    let answers = [
        LobbyCreated { result: 1, lobby_steam_id: 123456789 },
        LobbyCreated { result: 2, lobby_steam_id: 0 },
        LobbyCreated { result: 4, lobby_steam_id: 5 },
        LobbyCreated { result: -1, lobby_steam_id: u64::MAX },
    ];
    for answer in answers {
        assert_eq!(create_lobby_result(&answer, true), Err(SteamError::TransportFailure));
    }
    for count in [0, 1, 50, u32::MAX] {
        let list = LobbyMatchList { lobbies_matching: count };
        assert_eq!(lobby_list_count(&list, true), Err(SteamError::TransportFailure));
    }
}

#[test]
fn rejected_lobby_gives_the_failure_code() {
    let answer = LobbyCreated { result: 16, lobby_steam_id: 0 };
    assert_eq!(create_lobby_result(&answer, false), Err(SteamError::ApplicationFailure(16)));
    let answer = LobbyCreated { result: 2, lobby_steam_id: 777 };
    assert_eq!(create_lobby_result(&answer, false), Err(SteamError::ApplicationFailure(2)));
    let answer = LobbyCreated { result: 112, lobby_steam_id: 777 };
    assert_eq!(create_lobby_result(&answer, false), Err(SteamError::ApplicationFailure(112)));
}

#[test]
fn rejected_lobby_with_an_unknown_code_is_kept() {
    let answer = LobbyCreated { result: 4, lobby_steam_id: 1 };
    assert_eq!(create_lobby_result(&answer, false), Err(SteamError::Unknown(4)));
    let answer = LobbyCreated { result: 0, lobby_steam_id: 1 };
    assert_eq!(create_lobby_result(&answer, false), Err(SteamError::Unknown(0)));
    let answer = LobbyCreated { result: 113, lobby_steam_id: 1 };
    assert_eq!(create_lobby_result(&answer, false), Err(SteamError::Unknown(113)));
}

#[test]
fn failure_code_and_fields_survive_the_buffer() {
    let answer = LobbyCreated { result: 25, lobby_steam_id: 987654321012345678 };
    let decoded = LobbyCreated::decode(&answer.encode()).unwrap();
    assert_eq!(decoded.result, 25);
    assert_eq!(decoded.lobby_steam_id, 987654321012345678);
    assert_eq!(create_lobby_result(&decoded, false), Err(SteamError::ApplicationFailure(25)));
}

#[test]
fn lobby_list_count_is_the_number_of_matches() {
    assert_eq!(lobby_list_count(&LobbyMatchList { lobbies_matching: 0 }, false), Ok(0));
    assert_eq!(lobby_list_count(&LobbyMatchList { lobbies_matching: 3 }, false), Ok(3));
    assert_eq!(
        lobby_list_count(&LobbyMatchList { lobbies_matching: u32::MAX }, false),
        Ok(u32::MAX)
    );
}

#[test]
fn lobby_list_result_wraps_each_id_in_order() {
    assert_eq!(lobby_list_result(&vec![]), vec![]);
    assert_eq!(
        lobby_list_result(&vec![30, 10, 20, 10]),
        vec![LobbyId(30), LobbyId(10), LobbyId(20), LobbyId(10)]
    );
    assert_eq!(lobby_list_result(&vec![u64::MAX]), vec![LobbyId(u64::MAX)]);
}

#[test]
fn create_lobby_outcome_of_a_completed_delivery() {
    let ok = Payload::LobbyCreated(LobbyCreated { result: 1, lobby_steam_id: 5 });
    assert_eq!(create_lobby_outcome(&delivery(Some(ok), false)), Some(Ok(LobbyId(5))));
    let rejected = Payload::LobbyCreated(LobbyCreated { result: 15, lobby_steam_id: 5 });
    assert_eq!(
        create_lobby_outcome(&delivery(Some(rejected), false)),
        Some(Err(SteamError::ApplicationFailure(15)))
    );
}

#[test]
fn create_lobby_outcome_after_transport_failure() {
    let ok = Payload::LobbyCreated(LobbyCreated { result: 1, lobby_steam_id: 5 });
    let other = Payload::LobbyMatchList(LobbyMatchList { lobbies_matching: 5 });
    for payload in [Some(ok), Some(other), None] {
        assert_eq!(
            create_lobby_outcome(&delivery(payload, true)),
            Some(Err(SteamError::TransportFailure))
        );
    }
}

#[test]
fn create_lobby_outcome_without_a_lobby_answer() {
    let other = Payload::LobbyMatchList(LobbyMatchList { lobbies_matching: 5 });
    assert_eq!(create_lobby_outcome(&delivery(Some(other), false)), None);
    assert_eq!(create_lobby_outcome(&delivery(None, false)), None);
}

#[test]
fn lobby_list_outcome_of_a_delivery() {
    let list = Payload::LobbyMatchList(LobbyMatchList { lobbies_matching: 12 });
    let other = Payload::LobbyCreated(LobbyCreated { result: 1, lobby_steam_id: 5 });
    assert_eq!(lobby_list_outcome(&delivery(Some(list), false)), Some(Ok(12)));
    assert_eq!(lobby_list_outcome(&delivery(Some(other), false)), None);
    assert_eq!(lobby_list_outcome(&delivery(None, false)), None);
    for payload in [Some(list), Some(other), None] {
        assert_eq!(
            lobby_list_outcome(&delivery(payload, true)),
            Some(Err(SteamError::TransportFailure))
        );
    }
}

#[test]
fn persona_state_change_of_a_delivery() {
    let change = PersonaStateChange { user: SteamId(76561198174976054), flags: 3 };
    let other = Payload::LobbyMatchList(LobbyMatchList { lobbies_matching: 12 });
    assert_eq!(
        persona_state_change(&delivery(Some(Payload::PersonaStateChange(change)), false)),
        Some(change)
    );
    assert_eq!(persona_state_change(&delivery(Some(other), false)), None);
    assert_eq!(persona_state_change(&delivery(None, false)), None);
}
