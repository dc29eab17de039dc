//! The screens of the game and the moves between them: a splash screen
//! that gives way to the menu after a second, the menu with its nested
//! screens, active play in space, and docking.
use vstd::prelude::*;

verus! {

/// How long the splash screen stays: one second, in microseconds.
pub const SPLASH_US: u64 = 1_000_000;

/// The top-level screen.
#[derive(Clone, Copy, Debug, PartialEq, Eq, Structural)]
pub enum GameState {
    Splash,
    Menu,
    Space,
    Docked,
}

/// The menu's own screen; `Disabled` whenever the menu is not shown.
#[derive(Clone, Copy, Debug, PartialEq, Eq, Structural)]
pub enum MenuState {
    Main,
    Settings,
    SettingsDisplay,
    SettingsSound,
    Disabled,
}

/// What a menu button asks for.
#[derive(Clone, Copy, Debug, PartialEq, Eq, Structural)]
pub enum MenuButtonAction {
    Play,
    Settings,
    SettingsDisplay,
    SettingsSound,
    BackToMainMenu,
    BackToSettings,
    Quit,
}

/// Where the game is: its screen, the menu's screen, and the time spent
/// on the splash screen.
#[derive(Clone, Copy, Debug, PartialEq, Eq, Structural)]
pub struct GameFlow {
    pub state: GameState,
    pub menu: MenuState,
    pub splash_us: u64,
}

impl GameFlow {
    /// The menu has a screen exactly while it is shown, and the splash
    /// screen is left as soon as its time is up.
    pub open spec fn wf(self) -> bool {
        &&& (self.state == GameState::Menu) == (self.menu != MenuState::Disabled)
        &&& (self.state == GameState::Splash ==> self.splash_us < SPLASH_US)
    }

    /// The flow the game starts with.
    pub open spec fn start() -> GameFlow {
        GameFlow { state: GameState::Splash, menu: MenuState::Disabled, splash_us: 0 }
    }

    /// The game as it starts: on the splash screen, no time spent.
    pub fn new() -> (r: GameFlow)
        ensures
            r.wf(),
            r == GameFlow::start(),
    {
        GameFlow { state: GameState::Splash, menu: MenuState::Disabled, splash_us: 0 }
    }
}

/// The flow after `dt` more microseconds: on the splash screen the time
/// adds up, and once it reaches `SPLASH_US` the main menu opens.
pub open spec fn counted_down(f: GameFlow, dt: int) -> GameFlow {
    if f.state == GameState::Splash {
        if f.splash_us + dt >= SPLASH_US {
            GameFlow { state: GameState::Menu, menu: MenuState::Main, splash_us: SPLASH_US }
        } else {
            GameFlow { splash_us: (f.splash_us + dt) as u64, ..f }
        }
    } else {
        f
    }
}

/// The menu's screen after pressing `a` on screen `m`, if `a` is one of
/// that screen's buttons and moves within the menu.
pub open spec fn menu_move(m: MenuState, a: MenuButtonAction) -> Option<MenuState> {
    match (m, a) {
        (MenuState::Main, MenuButtonAction::Settings) => Some(MenuState::Settings),
        (MenuState::Settings, MenuButtonAction::SettingsDisplay) => Some(MenuState::SettingsDisplay),
        (MenuState::Settings, MenuButtonAction::SettingsSound) => Some(MenuState::SettingsSound),
        (MenuState::Settings, MenuButtonAction::BackToMainMenu) => Some(MenuState::Main),
        (MenuState::SettingsDisplay, MenuButtonAction::BackToSettings) => Some(MenuState::Settings),
        (MenuState::SettingsSound, MenuButtonAction::BackToSettings) => Some(MenuState::Settings),
        _ => None,
    }
}

/// The flow after pressing `a`. Play on the main menu starts active play;
/// a button that the screen shown does not have changes nothing.
pub open spec fn pressed(f: GameFlow, a: MenuButtonAction) -> GameFlow {
    if f.state != GameState::Menu {
        f
    } else if f.menu == MenuState::Main && a == MenuButtonAction::Play {
        GameFlow { state: GameState::Space, menu: MenuState::Disabled, ..f }
    } else {
        match menu_move(f.menu, a) {
            Some(m) => GameFlow { menu: m, ..f },
            None => f,
        }
    }
}

/// Quit pressed on the main menu: the game is to end.
pub open spec fn quits(f: GameFlow, a: MenuButtonAction) -> bool {
    f.state == GameState::Menu && f.menu == MenuState::Main && a == MenuButtonAction::Quit
}

/// The flow after a docking request, granted in active play when a body is
/// in docking reach.
pub open spec fn docked(f: GameFlow, in_reach: bool) -> GameFlow {
    if f.state == GameState::Space && in_reach {
        GameFlow { state: GameState::Docked, ..f }
    } else {
        f
    }
}

impl GameFlow {
    /// Lets `dt_us` microseconds pass; true when this opened the menu.
    pub fn countdown(&mut self, dt_us: u64) -> (opened: bool)
        requires
            old(self).wf(),
        ensures
            *final(self) == counted_down(*old(self), dt_us as int),
            opened == (old(self).state == GameState::Splash && final(self).state == GameState::Menu),
            final(self).wf(),
    {
        match self.state {
            GameState::Splash => {
                if dt_us >= SPLASH_US - self.splash_us {
                    *self = GameFlow {
                        state: GameState::Menu,
                        menu: MenuState::Main,
                        splash_us: SPLASH_US,
                    };
                    true
                } else {
                    self.splash_us = self.splash_us + dt_us;
                    false
                }
            },
            _ => false,
        }
    }

    /// Carries out a menu button; true when it asks the game to end.
    pub fn menu_action(&mut self, action: MenuButtonAction) -> (quit: bool)
        requires
            old(self).wf(),
        ensures
            *final(self) == pressed(*old(self), action),
            quit == quits(*old(self), action),
            final(self).wf(),
    {
        match self.state {
            GameState::Menu => {},
            _ => {
                return false;
            },
        }
        let next: Option<MenuState> = match (self.menu, action) {
            (MenuState::Main, MenuButtonAction::Play) => {
                self.state = GameState::Space;
                self.menu = MenuState::Disabled;
                return false;
            },
            (MenuState::Main, MenuButtonAction::Quit) => {
                return true;
            },
            (MenuState::Main, MenuButtonAction::Settings) => Some(MenuState::Settings),
            (MenuState::Settings, MenuButtonAction::SettingsDisplay) => Some(
                MenuState::SettingsDisplay,
            ),
            (MenuState::Settings, MenuButtonAction::SettingsSound) => Some(
                MenuState::SettingsSound,
            ),
            (MenuState::Settings, MenuButtonAction::BackToMainMenu) => Some(MenuState::Main),
            (MenuState::SettingsDisplay, MenuButtonAction::BackToSettings) => Some(
                MenuState::Settings,
            ),
            (MenuState::SettingsSound, MenuButtonAction::BackToSettings) => Some(
                MenuState::Settings,
            ),
            _ => None,
        };
        match next {
            Some(m) => {
                self.menu = m;
            },
            None => {},
        }
        false
    }

    /// Docks when in active play with a body in docking reach; true when it
    /// did.
    pub fn confirm_dock(&mut self, in_reach: bool) -> (done: bool)
        requires
            old(self).wf(),
        ensures
            *final(self) == docked(*old(self), in_reach),
            done == (old(self).state == GameState::Space && in_reach),
            final(self).wf(),
    {
        match self.state {
            GameState::Space => {
                if in_reach {
                    self.state = GameState::Docked;
                    true
                } else {
                    false
                }
            },
            _ => false,
        }
    }
}

/// Picture quality offered on the display settings screen.
#[derive(Clone, Copy, Debug, PartialEq, Eq, Structural)]
pub enum DisplayQuality {
    Low,
    Medium,
    High,
}

/// Sound volume, from 0 to `MAX_VOLUME`.
#[derive(Clone, Copy, Debug, PartialEq, Eq, Structural)]
pub struct Volume(pub u32);

/// The loudest volume a button offers.
pub const MAX_VOLUME: u32 = 9;

/// The values chosen on the settings screens.
#[derive(Clone, Copy, Debug, PartialEq, Eq, Structural)]
pub struct Settings {
    pub quality: DisplayQuality,
    pub volume: Volume,
}

impl Settings {
    pub open spec fn wf(self) -> bool {
        self.volume.0 <= MAX_VOLUME
    }

    /// Medium quality, volume 7.
    pub fn new() -> (r: Settings)
        ensures
            r.wf(),
            r.quality == DisplayQuality::Medium,
            r.volume == Volume(7),
    {
        Settings { quality: DisplayQuality::Medium, volume: Volume(7) }
    }

    /// Selects a quality; true when it differs from the one held.
    pub fn select_quality(&mut self, quality: DisplayQuality) -> (changed: bool)
        requires
            old(self).wf(),
        ensures
            changed == (quality != old(self).quality),
            *final(self) == (Settings { quality, ..*old(self) }),
            final(self).wf(),
    {
        let changed = match (self.quality, quality) {
            (DisplayQuality::Low, DisplayQuality::Low) => false,
            (DisplayQuality::Medium, DisplayQuality::Medium) => false,
            (DisplayQuality::High, DisplayQuality::High) => false,
            _ => true,
        };
        self.quality = quality;
        changed
    }

    /// Selects a volume of at most `MAX_VOLUME`; true when it differs from
    /// the one held. A louder volume is refused and changes nothing.
    pub fn select_volume(&mut self, volume: Volume) -> (changed: bool)
        requires
            old(self).wf(),
        ensures
            changed == (volume.0 <= MAX_VOLUME && volume != old(self).volume),
            *final(self) == (if volume.0 <= MAX_VOLUME {
                Settings { volume, ..*old(self) }
            } else {
                *old(self)
            }),
            final(self).wf(),
    {
        if volume.0 > MAX_VOLUME {
            return false;
        }
        let changed = volume.0 != self.volume.0;
        self.volume = volume;
        changed
    }
}

} // verus!
