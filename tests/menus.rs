use vara_signer::apdu::{handle_apdu, Ins};
use vara_signer::app::{App, MainMenu};
use vara_signer::get_public_key::{GetPublicKey, GetPublicKeyMenu};
use vara_signer::menu::MenuAction;
use vara_signer::settings::{Settings, SettingsMenu};

#[test]
fn main_menu_cycles_both_ways() {
    let mut app = App::new(Ok((0, 1, 0)));
    let order = [MainMenu::AppReady, MainMenu::Version, MainMenu::Settings(false), MainMenu::Quit];
    for i in 0..8 {
        assert_eq!(app.menu, order[i % 4]);
        app.next();
    }
    for i in 0..8 {
        assert_eq!(app.menu, order[(8 - i) % 4]);
        app.prev();
    }
}

#[test]
fn main_menu_actions() {
    let mut app = App::new(Ok((0, 1, 0)));
    assert_eq!(app.action(), MenuAction::Nothing);
    app.prev();
    assert_eq!(app.menu, MainMenu::Quit);
    assert_eq!(app.action(), MenuAction::Exit);
    app.prev();
    assert_eq!(app.action(), MenuAction::Update);
    assert_eq!(app.menu, MainMenu::Settings(true));
    assert_eq!(app.action(), MenuAction::Update);
    assert!(app.settings.debug_mode);
    app.next();
    assert_eq!(app.settings.menu, SettingsMenu::Back);
    assert_eq!(app.menu, MainMenu::Settings(true));
    assert_eq!(app.action(), MenuAction::Update);
    assert_eq!(app.menu, MainMenu::Settings(false));
    assert_eq!(app.settings.menu, SettingsMenu::DebugMode);
    assert!(app.settings.debug_mode);
}

#[test]
fn settings_toggle_and_exit() {
    let mut s = Settings::default();
    assert_eq!(s.action(), MenuAction::Update);
    assert!(s.debug_mode);
    s.prev();
    assert_eq!(s.menu, SettingsMenu::Back);
    s.next();
    assert_eq!(s.menu, SettingsMenu::DebugMode);
    s.next();
    assert_eq!(s.action(), MenuAction::Exit);
    assert_eq!(s.menu, SettingsMenu::DebugMode);
    assert!(s.debug_mode);
}

#[test]
fn review_steps_and_decisions() {
    let mut g = GetPublicKey::new(&[0u8; 32]);
    assert_eq!(g.menu, GetPublicKeyMenu::Review);
    assert_eq!(g.action(), MenuAction::Nothing);
    g.next();
    assert_eq!(g.menu, GetPublicKeyMenu::PublicKey);
    g.next();
    assert_eq!(g.action(), MenuAction::Accept);
    g.next();
    assert_eq!(g.action(), MenuAction::Decline);
    assert_eq!(g.menu, GetPublicKeyMenu::Review);
    g.prev();
    assert_eq!(g.menu, GetPublicKeyMenu::Decline);
    let d = GetPublicKey::default();
    assert_eq!(d.key_hex, [0u8; 66]);
}

#[test]
fn legacy_instruction_codes() {
    assert_eq!(Ins::from(2), Ins::GetPubkey);
    assert_eq!(Ins::from(3), Ins::Sign);
    assert_eq!(Ins::from(4), Ins::Menu);
    assert_eq!(Ins::from(0xff), Ins::Exit);
    assert_eq!(handle_apdu(Ins::Sign), Ok(()));
}

#[test]
fn two_text_lines_are_centred() {
    assert_eq!(vara_signer::menu::stack_rows(64, &[12, 12]), Some(vec![19, 33]));
}

#[test]
fn icon_and_two_lines_are_centred() {
    assert_eq!(vara_signer::menu::stack_rows(64, &[14, 12, 12]), Some(vec![11, 27, 41]));
    assert_eq!(vara_signer::menu::stack_rows(64, &[12]), Some(vec![26]));
    assert_eq!(vara_signer::menu::stack_rows(64, &[]), Some(vec![]));
}

#[test]
fn block_taller_than_screen_has_no_rows() {
    assert_eq!(vara_signer::menu::stack_rows(32, &[12, 12, 12]), None);
    assert_eq!(vara_signer::menu::stack_rows(24, &[12, 12]), None);
    assert_eq!(vara_signer::menu::stack_rows(26, &[12, 12]), Some(vec![0, 14]));
    assert_eq!(vara_signer::menu::stack_rows(usize::MAX, &[usize::MAX, 1]), None);
}
