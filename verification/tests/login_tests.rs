use silkroad_core::charselect::{
    create_character_from, from_character, handle_character_created, handle_characters_loaded,
    handle_charselect_packet, handle_name_checked, send_spawn, CharacterSelect, CharselectTask,
};
use silkroad_core::chardata::{group_items_by_character, Character, CharacterItem};
use silkroad_core::entity::GameEntity;
use silkroad_core::itemdata::{parse_i64, parse_item_row, parse_u32, parse_u64, split_columns, ParseError};
use silkroad_core::login::{
    hash_password, prepare_registration, registration_outcome, set_gm_outcome, try_login,
    try_login_passcode, LoginDbResult, LoginResult, RegistrationResult, SetGmResult,
};
use silkroad_core::messages::{
    CharacterListAction, CharacterListContent, CharacterListRequestAction, CharacterListResult,
    ClientPacket, ServerPacket,
};
use silkroad_core::objects::{ObjectItem, ObjectType};
use silkroad_core::position::Position;
use silkroad_core::region::Region;

#[test]
fn login_accepts_the_right_password() {
    let hash = hash_password("opensesame").expect("hashing succeeds");
    let row = LoginDbResult { id: 7, password: hash, passcode: None };
    assert_eq!(try_login(Some(&row), "opensesame"), LoginResult::Success(7));
    assert_eq!(
        try_login(Some(&row), "wrong password"),
        LoginResult::InvalidCredentials
    );
    assert_eq!(try_login(None, "opensesame"), LoginResult::InvalidCredentials);
}

#[test]
fn login_with_stored_passcode_demands_it() {
    let hash = hash_password("opensesame").expect("hashing succeeds");
    let row = LoginDbResult { id: 7, password: hash.clone(), passcode: Some("1234".to_string()) };
    assert_eq!(try_login(Some(&row), "opensesame"), LoginResult::MissingPasscode);
    // the passcode path selects the row by passcode and checks the password
    assert_eq!(
        try_login_passcode(Some((7, &hash)), "opensesame"),
        LoginResult::Success(7)
    );
    assert_eq!(
        try_login_passcode(Some((7, &hash)), "nope"),
        LoginResult::InvalidCredentials
    );
    assert_eq!(try_login_passcode(None, "opensesame"), LoginResult::InvalidCredentials);
}

#[test]
fn registration_hashes_or_refuses() {
    assert_eq!(
        prepare_registration(true, "pw"),
        Err(RegistrationResult::UsernameTaken)
    );
    let hash = prepare_registration(false, "pw").expect("a free name gets a hash");
    assert_ne!(hash, "pw");
    assert_eq!(registration_outcome(true), RegistrationResult::Success);
    assert_eq!(registration_outcome(false), RegistrationResult::DatabaseError);
}

#[test]
fn gm_toggle_outcomes() {
    assert_eq!(set_gm_outcome(false, true), SetGmResult::UserNotFound);
    assert_eq!(set_gm_outcome(true, true), SetGmResult::Success);
    assert_eq!(set_gm_outcome(true, false), SetGmResult::DatabaseError);
}

#[test]
fn created_character_starts_with_the_fixed_stats() {
    let character = create_character_from(3, 1, "Aria".to_string(), 1907, 68, 11, 12, 13, 14);
    let data = &character.character_data;
    assert_eq!(data.user_id, 3);
    assert_eq!(data.charname, "Aria");
    assert_eq!(data.level, 1);
    assert_eq!(data.strength, 20);
    assert_eq!(data.intelligence, 20);
    assert_eq!(data.current_hp, 200);
    assert_eq!(data.gold, 5_000_000);
    assert_eq!(data.region, 24998);
    assert!(data.beginner_mark);
    assert!(!data.gm);
    assert_eq!(character.items.len(), 4);
    assert_eq!(character.items[0].item_obj_id, 11);
    assert_eq!(character.items[0].slot, 1);
    assert_eq!(character.items[1].slot, 4);
    assert_eq!(character.items[2].slot, 5);
    assert_eq!(character.items[3].slot, 6);
}

fn loaded_state() -> CharacterSelect {
    let mut state = CharacterSelect::new();
    let character = create_character_from(3, 1, "Aria".to_string(), 1907, 68, 11, 12, 13, 14);
    state.characters = Some(vec![character]);
    state
}

#[test]
fn charselect_list_request_starts_one_task() {
    let mut state = CharacterSelect::new();
    let packet = ClientPacket::CharacterListRequest { action: CharacterListRequestAction::List };
    let outcome = handle_charselect_packet(&mut state, &packet, 3, 1, 60, 40);
    assert_eq!(outcome.tasks, vec![CharselectTask::LoadCharacters]);
    assert!(state.character_receiver);
    // a second request while the first is pending starts nothing
    let outcome = handle_charselect_packet(&mut state, &packet, 3, 1, 60, 40);
    assert!(outcome.tasks.is_empty());
}

#[test]
fn charselect_join_picks_the_named_character() {
    let mut state = loaded_state();
    let packet = ClientPacket::CharacterJoinRequest { character_name: "Aria".to_string() };
    let outcome = handle_charselect_packet(&mut state, &packet, 3, 1, 60, 40);
    assert_eq!(outcome.join, Some(0));
    assert_eq!(outcome.messages.len(), 1);
    let packet = ClientPacket::CharacterJoinRequest { character_name: "Nobody".to_string() };
    let outcome = handle_charselect_packet(&mut state, &packet, 3, 1, 60, 40);
    assert_eq!(outcome.join, None);
    assert!(outcome.messages.is_empty());
}

#[test]
fn charselect_join_before_load_is_refused() {
    let mut state = CharacterSelect::new();
    let packet = ClientPacket::CharacterJoinRequest { character_name: "Aria".to_string() };
    let outcome = handle_charselect_packet(&mut state, &packet, 3, 1, 60, 40);
    assert_eq!(outcome.join, None);
    assert_eq!(outcome.messages.len(), 1);
}

#[test]
fn charselect_poll_handlers_answer_and_clear() {
    let mut state = CharacterSelect::new();
    state.character_receiver = true;
    let character = create_character_from(3, 1, "Aria".to_string(), 1907, 68, 11, 12, 13, 14);
    let msgs = handle_characters_loaded(&mut state, Some(vec![character]));
    assert_eq!(msgs.len(), 1);
    assert!(!state.character_receiver);
    assert!(state.characters.is_some());
    state.character_name_check = true;
    let msgs = handle_name_checked(&mut state, Some(false));
    assert!(!state.character_name_check);
    match &msgs[0] {
        ServerPacket::CharacterListResponse(response) => {
            assert_eq!(response.action, CharacterListAction::CheckName);
            assert!(matches!(response.result, CharacterListResult::Refused { .. }));
        }
        other => panic!("unexpected message: {:?}", other),
    }
    state.character_create = true;
    let msgs = handle_character_created(&mut state, true);
    assert_eq!(msgs.len(), 1);
    assert!(!state.character_create);
}

#[test]
fn character_list_entry_mirrors_the_row() {
    let character = create_character_from(3, 1, "Aria".to_string(), 1907, 68, 11, 12, 13, 14);
    let entry = from_character(&character);
    assert_eq!(entry.ref_id, 1907);
    assert_eq!(entry.name, "Aria");
    assert_eq!(entry.level, 1);
    assert_eq!(entry.hp, 200);
    assert_eq!(entry.last_logout, 0);
    assert_eq!(entry.equipped_items.len(), 4);
    assert_eq!(entry.equipped_items[3].ref_id, 14);
}

#[test]
fn spawn_messages_wrap_the_payload() {
    let character = create_character_from(3, 1, "Aria".to_string(), 1907, 68, 11, 12, 13, 14);
    let entity = GameEntity { ref_id: 1907, unique_id: 42 };
    let position = Position {
        region: Region::new(24998),
        x_tenths: 7390,
        y_tenths: 375,
        z_tenths: 17570,
        heading: 0,
    };
    let msgs = send_spawn(&entity, &character.character_data, &character.items, &position, 80, 777);
    assert_eq!(msgs.len(), 3);
    assert_eq!(msgs[0], ServerPacket::CharacterSpawnStart);
    assert_eq!(msgs[2], ServerPacket::CharacterSpawnEnd);
    match &msgs[1] {
        ServerPacket::CharacterSpawn(spawn) => {
            assert_eq!(spawn.time, 777);
            assert_eq!(spawn.unique_id, 42);
            assert_eq!(spawn.gold, 5_000_000);
            assert_eq!(spawn.max_level_cap, 80);
            assert_eq!(spawn.inventory_size, 45);
            assert_eq!(spawn.inventory_items.len(), 4);
            assert_eq!(spawn.name, "Aria");
            assert_eq!(spawn.position.region, 24998);
        }
        other => panic!("unexpected payload: {:?}", other),
    }
}

#[test]
fn items_group_by_their_character() {
    let item = |character_id: i32, obj: i32| CharacterItem {
        id: 0,
        character_id,
        item_obj_id: obj,
        upgrade_level: 0,
        variance: None,
        slot: 1,
        amount: 1,
    };
    let items = vec![item(1, 10), item(2, 20), item(1, 11), item(3, 30)];
    let groups = group_items_by_character(&items, &vec![1, 2]);
    assert_eq!(groups.len(), 2);
    assert_eq!(groups[0].0, 1);
    assert_eq!(groups[0].1.len(), 2);
    assert_eq!(groups[0].1[0].item_obj_id, 10);
    assert_eq!(groups[0].1[1].item_obj_id, 11);
    assert_eq!(groups[1].0, 2);
    assert_eq!(groups[1].1.len(), 1);
}

#[test]
fn decimal_parsers_accept_digits_only() {
    assert_eq!(parse_u64(b"0"), Ok(0));
    assert_eq!(parse_u64(b"1234567890"), Ok(1_234_567_890));
    assert_eq!(parse_u64(b"18446744073709551615"), Ok(u64::MAX));
    assert!(parse_u64(b"18446744073709551616").is_err());
    assert!(parse_u64(b"").is_err());
    assert!(parse_u64(b"12a").is_err());
    assert_eq!(parse_u32(b"4294967295"), Ok(u32::MAX));
    assert!(parse_u32(b"4294967296").is_err());
    assert_eq!(parse_i64(b"-42"), Ok(-42));
    assert_eq!(parse_i64(b"42"), Ok(42));
}

#[test]
fn rows_split_on_tabs() {
    let columns = split_columns(b"a\tbb\t\tc");
    let columns: Vec<&[u8]> = columns.iter().map(|c| c.as_slice()).collect();
    assert_eq!(columns, vec![b"a" as &[u8], b"bb", b"", b"c"]);
    let single = split_columns(b"abc");
    assert_eq!(single.len(), 1);
    assert_eq!(single[0].as_slice(), b"abc");
}

#[test]
fn item_rows_parse_their_columns() {
    // a sparse row: every column empty except the ones the core reads
    let mut columns: Vec<Vec<u8>> = (0..120).map(|_| Vec::new()).collect();
    columns[1] = b"1907".to_vec();
    columns[26] = b"150".to_vec();
    columns[33] = b"12".to_vec();
    columns[57] = b"50".to_vec();
    columns[58] = b"2".to_vec();
    columns[94] = b"0".to_vec();
    columns[95] = b"10".to_vec();
    columns[97] = b"20".to_vec();
    columns[100] = b"0".to_vec();
    columns[102] = b"0".to_vec();
    columns[105] = b"150".to_vec();
    columns[107] = b"250".to_vec();
    columns[109] = b"0".to_vec();
    columns[111] = b"0".to_vec();
    columns[113] = b"30".to_vec();
    columns[116] = b"5".to_vec();
    let parsed = parse_item_row(&columns, ObjectType::Item(ObjectItem::Gold)).expect("row parses");
    assert_eq!(parsed.ref_id, 1907);
    assert_eq!(parsed.price, 150);
    assert_eq!(parsed.required_level, Some(12));
    assert_eq!(parsed.max_stack_size, 50);
    assert_eq!(parsed.physical_attack_power_lower, 10);
    assert_eq!(parsed.physical_attack_power_upper, 20);
    assert_eq!(parsed.physical_reinforce_lower, 150);
    assert_eq!(parsed.physical_reinforce_upper, 250);
    assert_eq!(parsed.attack_rate, 30);
    assert_eq!(parsed.critical, 5);
    // a truncated row is refused with the missing column
    let short: Vec<Vec<u8>> = (0..20).map(|_| b"1".to_vec()).collect();
    assert_eq!(
        parse_item_row(&short, ObjectType::Item(ObjectItem::Gold)),
        Err(ParseError::MissingColumn(26))
    );
}
