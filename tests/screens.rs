use spaceout::anim::{animate_base, AnimationConfig};
use spaceout::flow::{
    DisplayQuality, GameFlow, GameState, MenuButtonAction, MenuState, Settings, Volume, SPLASH_US,
};
use spaceout::hud::{bar_fill, button_shade, weapons_level, Press, Shade};
use spaceout::starfield::{
    parallax_starfield, place_star, spawn_starfield, STARS_PER_LAYER, STAR_LAYERS, STAR_SPREAD,
};
use spaceout::craft::FULL;
use spaceout::geometry::{Point, UNIT};

#[test]
fn splash_opens_menu_after_one_second_exactly_once() {
    let mut flow = GameFlow::new();
    assert_eq!(flow.state, GameState::Splash);
    assert_eq!(flow.menu, MenuState::Disabled);
    let mut opened = 0;
    for _ in 0..999 {
        if flow.countdown(1_000) {
            opened += 1;
        }
    }
    assert!(flow.countdown(999) == false);
    assert_eq!(flow.state, GameState::Splash);
    assert_eq!(flow.splash_us, 999_999);
    if flow.countdown(1) {
        opened += 1;
    }
    assert_eq!(flow.state, GameState::Menu);
    assert_eq!(flow.menu, MenuState::Main);
    for _ in 0..10 {
        if flow.countdown(500_000) {
            opened += 1;
        }
    }
    assert_eq!(opened, 1);
    assert_eq!(flow.menu, MenuState::Main);
}

#[test]
fn splash_in_one_long_frame() {
    let mut flow = GameFlow::new();
    assert!(flow.countdown(SPLASH_US * 5));
    assert_eq!(flow.state, GameState::Menu);
    let mut early = GameFlow::new();
    assert!(!early.countdown(SPLASH_US - 1));
    assert_eq!(early.state, GameState::Splash);
}

fn menu() -> GameFlow {
    let mut flow = GameFlow::new();
    flow.countdown(SPLASH_US);
    flow
}

#[test]
fn menu_moves_follow_the_buttons() {
    let mut flow = menu();
    assert!(!flow.menu_action(MenuButtonAction::Settings));
    assert_eq!(flow.menu, MenuState::Settings);
    flow.menu_action(MenuButtonAction::SettingsDisplay);
    assert_eq!(flow.menu, MenuState::SettingsDisplay);
    flow.menu_action(MenuButtonAction::BackToSettings);
    assert_eq!(flow.menu, MenuState::Settings);
    flow.menu_action(MenuButtonAction::SettingsSound);
    assert_eq!(flow.menu, MenuState::SettingsSound);
    flow.menu_action(MenuButtonAction::BackToMainMenu);
    assert_eq!(flow.menu, MenuState::SettingsSound);
    flow.menu_action(MenuButtonAction::BackToSettings);
    flow.menu_action(MenuButtonAction::BackToMainMenu);
    assert_eq!(flow.menu, MenuState::Main);
    assert_eq!(flow.state, GameState::Menu);
    flow.menu_action(MenuButtonAction::Play);
    assert_eq!(flow.state, GameState::Space);
    assert_eq!(flow.menu, MenuState::Disabled);
    assert!(!flow.menu_action(MenuButtonAction::Quit));
    assert_eq!(flow.state, GameState::Space);
}

#[test]
fn quit_only_from_the_main_menu() {
    let mut flow = menu();
    let before = flow;
    assert!(flow.menu_action(MenuButtonAction::Quit));
    assert_eq!(flow, before);
    flow.menu_action(MenuButtonAction::Settings);
    assert!(!flow.menu_action(MenuButtonAction::Quit));
    let mut splash = GameFlow::new();
    assert!(!splash.menu_action(MenuButtonAction::Play));
    assert_eq!(splash.state, GameState::Splash);
}

#[test]
fn docking_needs_play_and_a_body_in_reach() {
    let mut flow = menu();
    assert!(!flow.confirm_dock(true));
    assert_eq!(flow.state, GameState::Menu);
    flow.menu_action(MenuButtonAction::Play);
    assert!(!flow.confirm_dock(false));
    assert_eq!(flow.state, GameState::Space);
    assert!(flow.confirm_dock(true));
    assert_eq!(flow.state, GameState::Docked);
}

#[test]
fn settings_select_and_refuse() {
    let mut s = Settings::new();
    assert_eq!(s.quality, DisplayQuality::Medium);
    assert_eq!(s.volume, Volume(7));
    assert!(!s.select_quality(DisplayQuality::Medium));
    assert!(s.select_quality(DisplayQuality::High));
    assert_eq!(s.quality, DisplayQuality::High);
    assert!(s.select_volume(Volume(0)));
    assert!(!s.select_volume(Volume(0)));
    assert!(s.select_volume(Volume(9)));
    assert!(!s.select_volume(Volume(10)));
    assert_eq!(s.volume, Volume(9));
}

#[test]
fn starfield_is_scattered_over_three_layers() {
    let stars = spawn_starfield();
    assert_eq!(stars.len(), STAR_LAYERS * STARS_PER_LAYER);
    for (i, s) in stars.iter().enumerate() {
        assert_eq!(s.layer, i / STARS_PER_LAYER);
        assert!(-STAR_SPREAD <= s.base_pos.x && s.base_pos.x < STAR_SPREAD);
        assert!(-STAR_SPREAD <= s.base_pos.y && s.base_pos.y < STAR_SPREAD);
        assert_eq!(s.pos, s.base_pos);
        let depth = s.layer as u64 + 1;
        assert!(1000 * depth <= s.size && s.size < 3000 * depth);
    }
    let lowest = stars.iter().filter(|s| s.base_pos.x == -STAR_SPREAD).count();
    assert!(lowest < stars.len());
    let first = stars[0].base_pos;
    assert!(stars.iter().any(|s| s.base_pos != first));
}

#[test]
fn a_star_is_made_from_its_draws() {
    let s = place_star(2, -5, 1_999_999_999, 2_500);
    assert_eq!(s.layer, 2);
    assert_eq!(s.base_pos, Point::new(-5, 1_999_999_999));
    assert_eq!(s.pos, s.base_pos);
    assert_eq!(s.size, 7_500);
    let t = place_star(0, 0, 0, 1_000);
    assert_eq!(t.size, 1_000);
}

#[test]
fn parallax_moves_each_layer_by_its_share() {
    let mut stars = spawn_starfield();
    let craft = Point::from_units(1000, -10);
    parallax_starfield(&mut stars, craft);
    for s in stars.iter() {
        let share = [800i64, 500, 200][s.layer];
        assert_eq!(s.pos.x, s.base_pos.x + 1000 * UNIT * share / 1000);
        assert_eq!(s.pos.y, s.base_pos.y - 10 * UNIT * share / 1000);
    }
}

#[test]
fn animation_steps_and_wraps() {
    let mut cfg = AnimationConfig::new(0, 2, 24);
    assert_eq!(cfg.frame_timer.period_us, 208_333);
    let mut index = 0usize;
    animate_base(&mut cfg, &mut index, 100_000);
    assert_eq!(index, 0);
    animate_base(&mut cfg, &mut index, 108_333);
    assert_eq!(index, 1);
    assert_eq!(cfg.frame_timer.elapsed_us, 0);
    animate_base(&mut cfg, &mut index, 208_333 * 3 + 5);
    assert_eq!(index, 2);
    assert_eq!(cfg.frame_timer.elapsed_us, 5);
    animate_base(&mut cfg, &mut index, 208_330);
    assert_eq!(index, 0);
}

#[test]
fn gauges_and_shades() {
    assert_eq!(bar_fill(FULL / 2, 110), 55);
    assert_eq!(bar_fill(FULL * 3, 110), 110);
    assert_eq!(bar_fill(0, 110), 0);
    assert_eq!(weapons_level(1), FULL / 10);
    assert_eq!(bar_fill(weapons_level(12), 100), 100);
    assert_eq!(button_shade(Press::Pressed, false), Shade::Pressed);
    assert_eq!(button_shade(Press::Idle, true), Shade::Pressed);
    assert_eq!(button_shade(Press::Hovered, true), Shade::HoveredSelected);
    assert_eq!(button_shade(Press::Hovered, false), Shade::Hovered);
    assert_eq!(button_shade(Press::Idle, false), Shade::Normal);
}
