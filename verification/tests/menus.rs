use arena::states::ui::new_game::GameType;
use arena::states::ui::new_game::NewGameState;
use arena::states::ui::new_game::NewGameTransition;
use arena::states::ui::notify::ButtonAction;
use arena::states::ui::notify::NotifyState;
use arena::states::ui::EntityRef;
use arena::states::ui::UiInput;
use arena::states::ui::UiState;
use arena::states::ui::VisibilityUpdate;
use arena::systems::net::message::PeerAddress;

fn entity(id: u32) -> EntityRef {
    EntityRef { id, generation: 1 }
}

fn server() -> PeerAddress {
    PeerAddress { is_ipv6: false, ip: 0x0a00_0001, port: 7777, flowinfo: 0, scope_id: 0 }
}

fn started_menu() -> NewGameState {
    let mut menu = NewGameState::new();
    let shown = menu.on_start(
        Some(entity(1)),
        Some(entity(2)),
        Some(entity(3)),
        Some(entity(4)),
        Some(entity(5)),
    );
    assert_eq!(shown, VisibilityUpdate { root: Some(entity(1)), visible: true, show_cursor: true });
    menu
}

#[test]
fn address_text_and_its_errors() {
    assert_eq!(
        NewGameState::parse_input_address(Some("10.0.0.1".to_string()), Some("7777".to_string())),
        Ok("10.0.0.1:7777".to_string())
    );
    assert_eq!(
        NewGameState::parse_input_address(None, Some("7777".to_string())),
        Err("No IP specified".to_string())
    );
    assert_eq!(
        NewGameState::parse_input_address(Some("10.0.0.1".to_string()), None),
        Err("No port specified".to_string())
    );
}

#[test]
fn port_text_and_its_errors() {
    assert_eq!(NewGameState::parse_input_port(Some("7777".to_string())), Ok(7777));
    assert_eq!(NewGameState::parse_input_port(Some("+80".to_string())), Ok(80));
    assert_eq!(NewGameState::parse_input_port(Some("065535".to_string())), Ok(65535));
    assert_eq!(NewGameState::parse_input_port(Some("65536".to_string())), Err("Wrong port".to_string()));
    assert_eq!(NewGameState::parse_input_port(Some("".to_string())), Err("Wrong port".to_string()));
    assert_eq!(NewGameState::parse_input_port(Some("-1".to_string())), Err("Wrong port".to_string()));
    assert_eq!(NewGameState::parse_input_port(Some("80a".to_string())), Err("Wrong port".to_string()));
    assert_eq!(NewGameState::parse_input_port(None), Err("No prot specified".to_string()));
}

#[test]
fn new_game_buttons() {
    let menu = started_menu();
    let ok_address: Result<PeerAddress, String> = Ok(server());
    let ok_port: Result<u16, String> = Ok(7777);
    assert_eq!(
        menu.handle_event(UiInput::Escape, ok_address.clone(), ok_port.clone()),
        (NewGameTransition::Pop, vec![])
    );
    assert_eq!(
        menu.handle_event(UiInput::Click(entity(2)), ok_address.clone(), ok_port.clone()),
        (NewGameTransition::Start(GameType::Single), vec![])
    );
    assert_eq!(
        menu.handle_event(UiInput::Click(entity(3)), ok_address.clone(), ok_port.clone()),
        (NewGameTransition::Start(GameType::Join(server())), vec![])
    );
    assert_eq!(
        menu.handle_event(UiInput::Click(entity(4)), ok_address.clone(), ok_port.clone()),
        (NewGameTransition::Start(GameType::Host(7777)), vec![])
    );
    assert_eq!(
        menu.handle_event(UiInput::Click(entity(5)), ok_address.clone(), ok_port.clone()),
        (NewGameTransition::Pop, vec![])
    );
    assert_eq!(
        menu.handle_event(UiInput::Click(entity(9)), ok_address.clone(), ok_port.clone()),
        (NewGameTransition::Stay, vec![])
    );
    assert_eq!(
        menu.handle_event(UiInput::Other, ok_address, ok_port),
        (NewGameTransition::Stay, vec![])
    );
}

#[test]
fn new_game_reports_unreadable_inputs() {
    let menu = started_menu();
    assert_eq!(
        menu.handle_event(
            UiInput::Click(entity(3)),
            Err("Wrong address".to_string()),
            Ok(1)
        ),
        (NewGameTransition::Stay, vec!["Wrong address".to_string()])
    );
    assert_eq!(
        menu.handle_event(UiInput::Click(entity(4)), Ok(server()), Err("Wrong port".to_string())),
        (NewGameTransition::Stay, vec!["Wrong port".to_string()])
    );
}

#[test]
fn new_game_after_stop() {
    let mut menu = started_menu();
    assert_eq!(
        menu.on_pause(),
        VisibilityUpdate { root: Some(entity(1)), visible: false, show_cursor: false }
    );
    assert_eq!(
        menu.on_resume(),
        VisibilityUpdate { root: Some(entity(1)), visible: true, show_cursor: true }
    );
    assert_eq!(
        menu.on_stop(),
        VisibilityUpdate { root: Some(entity(1)), visible: false, show_cursor: false }
    );
    assert_eq!(menu.get_root(), Some(entity(1)));
    assert_eq!(
        menu.handle_event(UiInput::Click(entity(2)), Ok(server()), Ok(1)),
        (NewGameTransition::Stay, vec![])
    );
}

#[test]
fn menu_without_root_only_shows_the_cursor() {
    let menu = NewGameState::new();
    assert_eq!(menu.on_resume(), VisibilityUpdate { root: None, visible: true, show_cursor: true });
}

#[test]
fn error_notification() {
    let mut note: NotifyState<u8> = NotifyState::new_as_error("Error", "It broke".to_string());
    let (texts, shown) = note.on_start(Some(entity(1)), Some(entity(2)), Some(entity(3)));
    assert_eq!(shown, VisibilityUpdate { root: Some(entity(1)), visible: true, show_cursor: true });
    assert_eq!(texts, note.label_texts());
    assert_eq!(
        texts,
        vec![
            ("notify.title".to_string(), "Error".to_string()),
            ("notify.details".to_string(), "It broke".to_string()),
            ("notify.button_1_btn_txt".to_string(), "".to_string()),
            ("notify.button_2_btn_txt".to_string(), "OK".to_string()),
        ]
    );
    assert_eq!(note.handle_event(UiInput::Click(entity(2))), None);
    assert_eq!(note.handle_event(UiInput::Click(entity(3))), Some(ButtonAction::Pop));
    assert_eq!(note.handle_event(UiInput::Escape), Some(ButtonAction::Pop));
    assert_eq!(note.handle_event(UiInput::Other), None);
}

#[test]
fn confirm_notification() {
    let mut note: NotifyState<u8> = NotifyState::new_as_confirm("Quit?", "Quit".to_string(), 7);
    let (texts, _) = note.on_start(Some(entity(1)), Some(entity(2)), Some(entity(3)));
    assert_eq!(texts[0], ("notify.title".to_string(), "Quit?".to_string()));
    assert_eq!(texts[2].1, "Quit".to_string());
    assert_eq!(texts[3].1, "Cancel".to_string());
    assert_eq!(texts[1].1, "".to_string());
    assert_eq!(note.handle_event(UiInput::Click(entity(2))), Some(ButtonAction::Run(7)));
    assert_eq!(note.handle_event(UiInput::Click(entity(3))), Some(ButtonAction::Pop));
    assert_eq!(note.handle_event(UiInput::Click(entity(1))), None);
    assert_eq!(
        note.on_stop(),
        VisibilityUpdate { root: Some(entity(1)), visible: false, show_cursor: false }
    );
    assert_eq!(note.handle_event(UiInput::Click(entity(2))), None);
    assert_eq!(note.handle_event(UiInput::Escape), Some(ButtonAction::Pop));
}

#[test]
fn plain_notification_with_missing_texts() {
    let note: NotifyState<u8> = NotifyState::new("Hello", None, Some("A".to_string()), None, None, None);
    let texts = note.label_texts();
    assert_eq!(texts[0].1, "Hello".to_string());
    assert_eq!(texts[1].1, "".to_string());
    assert_eq!(texts[2].1, "A".to_string());
    assert_eq!(texts[3].1, "".to_string());
    assert_eq!(note.get_root(), None);
    assert_eq!(note.set_visibility(false), VisibilityUpdate { root: None, visible: false, show_cursor: false });
}

#[test]
fn port_signs_and_spaces() {
    assert_eq!(NewGameState::parse_input_port(Some("+".to_string())), Err("Wrong port".to_string()));
    assert_eq!(NewGameState::parse_input_port(Some("++1".to_string())), Err("Wrong port".to_string()));
    assert_eq!(NewGameState::parse_input_port(Some(" 80".to_string())), Err("Wrong port".to_string()));
    assert_eq!(NewGameState::parse_input_port(Some("99999999999".to_string())), Err("Wrong port".to_string()));
    assert_eq!(NewGameState::parse_input_port(Some("0".to_string())), Ok(0));
}
