use kagibako::input::{map_key, Action, KeyCode, Modifiers};
use kagibako::render::ViewMode;

fn no_mods() -> Modifiers {
    Modifiers::default()
}

#[test]
fn normal_mode_j_moves_down() {
    let action = map_key(&KeyCode::Char('j'), true, &no_mods(), &None, &ViewMode::ItemList);
    assert_eq!(action, Action::Down);
}

#[test]
fn normal_mode_k_moves_up() {
    let action = map_key(&KeyCode::Char('k'), true, &no_mods(), &None, &ViewMode::ItemList);
    assert_eq!(action, Action::Up);
}

#[test]
fn normal_mode_enter_selects() {
    let action = map_key(&KeyCode::Enter, true, &no_mods(), &None, &ViewMode::VaultList);
    assert_eq!(action, Action::Select);
}

#[test]
fn normal_mode_p_copies_password() {
    let action = map_key(&KeyCode::Char('p'), true, &no_mods(), &None, &ViewMode::ItemList);
    assert_eq!(action, Action::CopyPassword);
}

#[test]
fn normal_mode_slash_enters_search() {
    let action = map_key(&KeyCode::Char('/'), true, &no_mods(), &None, &ViewMode::ItemList);
    assert_eq!(action, Action::EnterSearch);
}

#[test]
fn normal_mode_q_quits() {
    let action = map_key(&KeyCode::Char('q'), true, &no_mods(), &None, &ViewMode::ItemList);
    assert_eq!(action, Action::Quit);
}

#[test]
fn detail_mode_escape_goes_back() {
    let action = map_key(&KeyCode::Escape, true, &no_mods(), &None, &ViewMode::ItemDetail);
    assert_eq!(action, Action::Back);
}

#[test]
fn detail_mode_h_toggles_hidden() {
    let action = map_key(&KeyCode::Char('H'), true, &no_mods(), &None, &ViewMode::ItemDetail);
    assert_eq!(action, Action::ToggleHidden);
}

#[test]
fn detail_mode_y_copies_field() {
    let action = map_key(&KeyCode::Char('y'), true, &no_mods(), &None, &ViewMode::ItemDetail);
    assert_eq!(action, Action::CopyField);
}

#[test]
fn detail_mode_p_copies_password() {
    let action = map_key(&KeyCode::Char('p'), true, &no_mods(), &None, &ViewMode::ItemDetail);
    assert_eq!(action, Action::CopyPassword);
}

#[test]
fn detail_mode_t_copies_totp() {
    let action = map_key(&KeyCode::Char('t'), true, &no_mods(), &None, &ViewMode::ItemDetail);
    assert_eq!(action, Action::CopyTotp);
}

#[test]
fn search_mode_escape_goes_back() {
    let action = map_key(&KeyCode::Escape, true, &no_mods(), &None, &ViewMode::Search);
    assert_eq!(action, Action::Back);
}

#[test]
fn search_mode_text_input() {
    let action = map_key(
        &KeyCode::Char('a'),
        true,
        &no_mods(),
        &Some("a".into()),
        &ViewMode::Search,
    );
    assert_eq!(action, Action::SearchInput('a'));
}

#[test]
fn search_mode_backspace() {
    let action = map_key(&KeyCode::Backspace, true, &no_mods(), &None, &ViewMode::Search);
    assert_eq!(action, Action::SearchBackspace);
}

#[test]
fn search_mode_enter_submits() {
    let action = map_key(&KeyCode::Enter, true, &no_mods(), &None, &ViewMode::Search);
    assert_eq!(action, Action::SearchSubmit);
}

#[test]
fn search_mode_arrow_navigates() {
    let down = map_key(&KeyCode::Down, true, &no_mods(), &None, &ViewMode::Search);
    assert_eq!(down, Action::Down);
    let up = map_key(&KeyCode::Up, true, &no_mods(), &None, &ViewMode::Search);
    assert_eq!(up, Action::Up);
}

#[test]
fn key_release_is_noop() {
    let action = map_key(&KeyCode::Char('j'), false, &no_mods(), &None, &ViewMode::ItemList);
    assert_eq!(action, Action::NoAction);
}

#[test]
fn tab_switches_vault() {
    let action = map_key(&KeyCode::Tab, true, &no_mods(), &None, &ViewMode::ItemList);
    assert_eq!(action, Action::NextVault);
}

#[test]
fn detail_mode_enter_copies_field() {
    let action = map_key(&KeyCode::Enter, true, &no_mods(), &None, &ViewMode::ItemDetail);
    assert_eq!(action, Action::CopyField);
}

#[test]
fn release_is_noop_in_every_mode() {
    for mode in [ViewMode::VaultList, ViewMode::ItemList, ViewMode::ItemDetail, ViewMode::Search] {
        for key in [KeyCode::Enter, KeyCode::Escape, KeyCode::Char('q'), KeyCode::Tab] {
            assert_eq!(map_key(&key, false, &no_mods(), &Some("q".into()), &mode), Action::NoAction);
        }
    }
}

#[test]
fn search_mode_letters_are_text_not_commands() {
    let q = map_key(&KeyCode::Char('q'), true, &no_mods(), &Some("q".into()), &ViewMode::Search);
    assert_eq!(q, Action::SearchInput('q'));
    let bare = map_key(&KeyCode::Char('q'), true, &no_mods(), &None, &ViewMode::Search);
    assert_eq!(bare, Action::SearchInput('q'));
    let other = map_key(&KeyCode::Tab, true, &no_mods(), &None, &ViewMode::Search);
    assert_eq!(other, Action::NoAction);
    let typed = map_key(&KeyCode::Other, true, &no_mods(), &Some("xy".into()), &ViewMode::Search);
    assert_eq!(typed, Action::SearchInput('x'));
}

#[test]
fn unbound_keys_do_nothing() {
    let a = map_key(&KeyCode::F(5), true, &no_mods(), &None, &ViewMode::ItemList);
    assert_eq!(a, Action::NoAction);
    let b = map_key(&KeyCode::Char('z'), true, &no_mods(), &None, &ViewMode::ItemDetail);
    assert_eq!(b, Action::NoAction);
}
