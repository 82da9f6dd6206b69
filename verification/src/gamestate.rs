use vstd::prelude::*;

verus! {

/// The top-level screens of the game. `NoScreen` marks "no screen pending".
#[derive(Clone, Copy, Debug, PartialEq, Eq, Structural)]
pub enum GameState {
    MainMenu,
    Loading,
    OverMenu,
    Home,
    InGame,
    Stop,
    NoScreen,
}

/// Sub-screens of the lobby.
#[derive(Clone, Copy, Debug, PartialEq, Eq, Structural)]
pub enum HomeState {
    Running,
    Pause,
    Reloading,
}

/// Pages of the lobby's character menu.
#[derive(Clone, Copy, Debug, PartialEq, Eq, Structural)]
pub enum ReloadingState {
    Settings,
    Atlas,
    Room,
}

/// The character whose profile the character menu shows.
#[derive(Clone, Copy, Debug, PartialEq, Eq, Structural)]
pub enum PlayerMessageState {
    Shiroko,
    Arisu,
    Utaha,
    NoOne,
}

/// Sub-screens of a run.
#[derive(Clone, Copy, Debug, PartialEq, Eq, Structural)]
pub enum InGameState {
    Running,
    Pause,
    ChoosingBuff,
    GameOver,
}

impl GameState {
    /// The game starts on the title screen.
    pub fn default() -> (s: GameState)
        ensures
            s == GameState::MainMenu,
    {
        GameState::MainMenu
    }
}

impl HomeState {
    pub fn default() -> (s: HomeState)
        ensures
            s == HomeState::Running,
    {
        HomeState::Running
    }
}

impl ReloadingState {
    pub fn default() -> (s: ReloadingState)
        ensures
            s == ReloadingState::Settings,
    {
        ReloadingState::Settings
    }
}

impl PlayerMessageState {
    pub fn default() -> (s: PlayerMessageState)
        ensures
            s == PlayerMessageState::Shiroko,
    {
        PlayerMessageState::Shiroko
    }
}

impl InGameState {
    pub fn default() -> (s: InGameState)
        ensures
            s == InGameState::Running,
    {
        InGameState::Running
    }
}

/// Escape in the lobby: it pauses a running lobby (showing the cursor) and
/// goes back to the running lobby from the pause menu or the character menu
/// (hiding the cursor). The result is the next sub-screen and whether the
/// cursor is visible.
pub fn handle_home_menu(state: HomeState) -> (r: (HomeState, bool))
    ensures
        r == (match state {
            HomeState::Running => (HomeState::Pause, true),
            _ => (HomeState::Running, false),
        }),
{
    match state {
        HomeState::Running => (HomeState::Pause, true),
        _ => (HomeState::Running, false),
    }
}

/// Escape during a run: it pauses a running game (showing the cursor) and
/// resumes a paused one (hiding it); the reward menu and the game-over
/// screen ignore it. The result is the next sub-screen and, when it
/// changes, whether the cursor is visible.
pub fn handle_ingame_menu(state: InGameState) -> (r: (InGameState, Option<bool>))
    ensures
        r == (match state {
            InGameState::Running => (InGameState::Pause, Some(true)),
            InGameState::Pause => (InGameState::Running, Some(false)),
            _ => (state, None),
        }),
{
    match state {
        InGameState::Running => (InGameState::Pause, Some(true)),
        InGameState::Pause => (InGameState::Running, Some(false)),
        _ => (state, None),
    }
}

/// Pressing a key on the title screen starts the slide to the lobby, unless
/// a slide is already running.
pub fn handle_main_menu_buttons(any_key: bool, transition_running: bool) -> (start: bool)
    ensures
        start == (any_key && !transition_running),
{
    any_key && !transition_running
}

/// Where the screen slide is: at the switch point (it covers the screen),
/// past the end of a loading screen, or elsewhere.
#[derive(Clone, Copy, Debug, PartialEq, Eq, Structural)]
pub enum SlidePhase {
    Switch,
    LoadDone,
    Elsewhere,
}

/// What the screen slide asks of the engine.
#[derive(Clone, Copy, Debug, PartialEq, Eq, Structural)]
pub struct SlideAction {
    /// The screen to switch to.
    pub next: Option<GameState>,
    /// Build the next room of the run (and clear the player's leftovers).
    pub next_room: bool,
    /// Remove the run's room.
    pub leave_run: bool,
}

/// The screen slide: at its switch point it carries out the pending screen
/// change. From the title it goes to the lobby; from the lobby to the title
/// or into a run (building its first room); from a run to the title or the
/// lobby (removing the room) or to the next room; a pending screen that makes
/// no sense sends the player to the title. A loading screen turns into the
/// run once the slide has passed it. The pending screen is consumed (set to
/// `NoScreen`) whenever it is carried out from the lobby or a run.
pub open spec fn slide_spec(current: GameState, pending: GameState, phase: SlidePhase) -> (GameState, SlideAction) {
    let nothing = SlideAction { next: None, next_room: false, leave_run: false };
    match current {
        GameState::MainMenu => if phase == SlidePhase::Switch && pending == GameState::Home {
            (pending, SlideAction { next: Some(GameState::Home), ..nothing })
        } else {
            (pending, nothing)
        },
        GameState::Home => if phase == SlidePhase::Switch {
            match pending {
                GameState::MainMenu => (GameState::NoScreen, SlideAction { next: Some(GameState::MainMenu), ..nothing }),
                GameState::Loading => (GameState::NoScreen, SlideAction { next: Some(GameState::Loading), next_room: true, ..nothing }),
                GameState::NoScreen => (pending, nothing),
                _ => (GameState::NoScreen, SlideAction { next: Some(GameState::MainMenu), ..nothing }),
            }
        } else {
            (pending, nothing)
        },
        GameState::Loading => if phase == SlidePhase::LoadDone {
            (pending, SlideAction { next: Some(GameState::InGame), ..nothing })
        } else {
            (pending, nothing)
        },
        GameState::InGame => if phase == SlidePhase::Switch {
            match pending {
                GameState::MainMenu => (GameState::NoScreen, SlideAction { next: Some(GameState::MainMenu), leave_run: true, ..nothing }),
                GameState::Loading => (GameState::NoScreen, SlideAction { next: Some(GameState::Loading), next_room: true, ..nothing }),
                GameState::Home => (GameState::NoScreen, SlideAction { next: Some(GameState::Home), leave_run: true, ..nothing }),
                GameState::NoScreen => (pending, nothing),
                _ => (GameState::NoScreen, SlideAction { next: Some(GameState::MainMenu), ..nothing }),
            }
        } else {
            (pending, nothing)
        },
        _ => (pending, nothing),
    }
}

/// Runs the screen slide; see `slide_spec`. `pending` is the screen the
/// camera has been told to go to.
pub fn statetransition(current: GameState, pending: &mut GameState, phase: SlidePhase) -> (a: SlideAction)
    ensures
        (*final(pending), a) == slide_spec(current, *old(pending), phase),
{
    let nothing = SlideAction { next: None, next_room: false, leave_run: false };
    match current {
        GameState::MainMenu => {
            if phase == SlidePhase::Switch && *pending == GameState::Home {
                SlideAction { next: Some(GameState::Home), ..nothing }
            } else {
                nothing
            }
        },
        GameState::Home => {
            if phase != SlidePhase::Switch {
                return nothing;
            }
            match *pending {
                GameState::MainMenu => {
                    *pending = GameState::NoScreen;
                    SlideAction { next: Some(GameState::MainMenu), ..nothing }
                },
                GameState::Loading => {
                    *pending = GameState::NoScreen;
                    SlideAction { next: Some(GameState::Loading), next_room: true, ..nothing }
                },
                GameState::NoScreen => nothing,
                _ => {
                    *pending = GameState::NoScreen;
                    SlideAction { next: Some(GameState::MainMenu), ..nothing }
                },
            }
        },
        GameState::Loading => {
            if phase == SlidePhase::LoadDone {
                SlideAction { next: Some(GameState::InGame), ..nothing }
            } else {
                nothing
            }
        },
        GameState::InGame => {
            if phase != SlidePhase::Switch {
                return nothing;
            }
            match *pending {
                GameState::MainMenu => {
                    *pending = GameState::NoScreen;
                    SlideAction { next: Some(GameState::MainMenu), leave_run: true, ..nothing }
                },
                GameState::Loading => {
                    *pending = GameState::NoScreen;
                    SlideAction { next: Some(GameState::Loading), next_room: true, ..nothing }
                },
                GameState::Home => {
                    *pending = GameState::NoScreen;
                    SlideAction { next: Some(GameState::Home), leave_run: true, ..nothing }
                },
                GameState::NoScreen => nothing,
                _ => {
                    *pending = GameState::NoScreen;
                    SlideAction { next: Some(GameState::MainMenu), ..nothing }
                },
            }
        },
        _ => nothing,
    }
}

/// The screen graph of the slide: from the title only the lobby; from the
/// lobby the title or a loading screen; from a loading screen only the run;
/// from a run the title, the lobby or a loading screen. A room is built only
/// on the way into a loading screen, and the run's room is removed only on
/// the way out of a run.
pub proof fn lemma_slide_graph(current: GameState, pending: GameState, phase: SlidePhase)
    ensures
        ({
            let (p, a) = slide_spec(current, pending, phase);
            &&& a.next matches Some(n) ==> match current {
                GameState::MainMenu => n == GameState::Home,
                GameState::Home => n == GameState::MainMenu || n == GameState::Loading,
                GameState::Loading => n == GameState::InGame,
                GameState::InGame => n == GameState::MainMenu || n == GameState::Home || n == GameState::Loading,
                _ => false,
            }
            &&& a.next_room ==> a.next == Some(GameState::Loading)
            &&& a.leave_run ==> current == GameState::InGame
            &&& a.next is None ==> (p == pending && !a.next_room && !a.leave_run)
        }),
{
}

/// Which pause menu is open.
#[derive(Clone, Copy, Debug, PartialEq, Eq, Structural)]
pub enum PauseMenuKind {
    Home,
    InGame,
}

/// The buttons of the pause and game-over menus.
#[derive(Clone, Copy, Debug, PartialEq, Eq, Structural)]
pub enum MenuButton {
    BackToGame,
    BackToHome,
    BackToMenu,
    Exit,
    Other,
}

/// What pressing a menu button asks of the engine.
#[derive(Clone, Copy, Debug, PartialEq, Eq, Structural)]
pub struct MenuAction {
    /// Close the menu: the sub-screen goes back to running and the cursor
    /// is hidden.
    pub resume: bool,
    /// Start a slide to this screen.
    pub travel: Option<GameState>,
    /// Quit the game.
    pub exit: bool,
}

/// The pause menus: "back to game" resumes; "back to home" resumes (in the
/// lobby) or resumes and slides to the lobby (in a run); "back to menu"
/// resumes and slides to the title; "exit" quits.
pub fn pause_menu_action(menu: PauseMenuKind, button: MenuButton) -> (a: MenuAction)
    ensures
        a == (match button {
            MenuButton::BackToGame => MenuAction { resume: true, travel: None, exit: false },
            MenuButton::BackToHome => MenuAction {
                resume: true,
                travel: if menu == PauseMenuKind::InGame { Some(GameState::Home) } else { None },
                exit: false,
            },
            MenuButton::BackToMenu => MenuAction { resume: true, travel: Some(GameState::MainMenu), exit: false },
            MenuButton::Exit => MenuAction { resume: false, travel: None, exit: true },
            MenuButton::Other => MenuAction { resume: false, travel: None, exit: false },
        }),
{
    match button {
        MenuButton::BackToGame => MenuAction { resume: true, travel: None, exit: false },
        MenuButton::BackToHome => MenuAction {
            resume: true,
            travel: if menu == PauseMenuKind::InGame { Some(GameState::Home) } else { None },
            exit: false,
        },
        MenuButton::BackToMenu => MenuAction { resume: true, travel: Some(GameState::MainMenu), exit: false },
        MenuButton::Exit => MenuAction { resume: false, travel: None, exit: true },
        MenuButton::Other => MenuAction { resume: false, travel: None, exit: false },
    }
}

/// The game-over screen has a single button, "back to home": it resumes the
/// run's sub-screen and slides to the lobby.
pub fn handle_gameovermenu(button: MenuButton) -> (a: MenuAction)
    ensures
        a == (if button == MenuButton::BackToHome {
            MenuAction { resume: true, travel: Some(GameState::Home), exit: false }
        } else {
            MenuAction { resume: false, travel: None, exit: false }
        }),
{
    if button == MenuButton::BackToHome {
        MenuAction { resume: true, travel: Some(GameState::Home), exit: false }
    } else {
        MenuAction { resume: false, travel: None, exit: false }
    }
}

/// The player has run out of health: unless a screen slide is under way, the
/// game is over (game-over event, cursor shown, game-over screen).
pub fn handle_player_death(out_of_health: bool, transition_running: bool) -> (over: bool)
    ensures
        over == (out_of_health && !transition_running),
{
    out_of_health && !transition_running
}

/// How a character button of the character menu is drawn.
#[derive(Clone, Copy, Debug, PartialEq, Eq, Structural)]
pub enum ButtonLook {
    Selected,
    Unselected,
    Hover,
}

/// What the mouse is doing with a button.
#[derive(Clone, Copy, Debug, PartialEq, Eq, Structural)]
pub enum Interaction {
    Pressed,
    Hovered,
    Idle,
}

/// A character button of the character menu: pressing the button of a
/// character other than the current one switches to that character (the
/// result's first part); hovering highlights the button; otherwise it is
/// drawn selected for the current character and unselected for the others.
pub fn handle_player_messages(button_id: u8, current_id: u8, interaction: Interaction) -> (r: (Option<u8>, Option<ButtonLook>))
    ensures
        r == (match interaction {
            Interaction::Pressed => (if button_id != current_id { Some(button_id) } else { None }, None),
            Interaction::Hovered => (None, Some(ButtonLook::Hover)),
            Interaction::Idle => (None, Some(if button_id == current_id { ButtonLook::Selected } else { ButtonLook::Unselected })),
        }),
{
    match interaction {
        Interaction::Pressed => (if button_id != current_id { Some(button_id) } else { None }, None),
        Interaction::Hovered => (None, Some(ButtonLook::Hover)),
        Interaction::Idle => (None, Some(if button_id == current_id { ButtonLook::Selected } else { ButtonLook::Unselected })),
    }
}

/// After a character switch, the button of the new character is drawn
/// selected and the others unselected.
pub fn reload_button_change(button_id: u8, new_id: u8) -> (l: ButtonLook)
    ensures
        l == (if button_id == new_id { ButtonLook::Selected } else { ButtonLook::Unselected }),
{
    if button_id == new_id {
        ButtonLook::Selected
    } else {
        ButtonLook::Unselected
    }
}

/// One entry of the character menu's skill panel: the icon and the text of
/// skill `slot` (1 to 4) of character `owner` (1 Shiroko, 2 Arisu, 3 Utaha).
#[derive(Clone, Copy, Debug, PartialEq, Eq, Structural)]
pub struct SkillEntry {
    pub owner: u8,
    pub slot: u8,
}

/// Whose skills the panel shows for character id `id`: Arisu's and Utaha's
/// for theirs, Shiroko's for any other id.
pub open spec fn skill_owner(id: u8) -> u8 {
    if id == 2 || id == 3 {
        id
    } else {
        1
    }
}

/// The four skills of character `owner`, in panel order.
pub open spec fn skill_entries(owner: u8) -> Seq<SkillEntry> {
    seq![
        SkillEntry { owner, slot: 1 },
        SkillEntry { owner, slot: 2 },
        SkillEntry { owner, slot: 3 },
        SkillEntry { owner, slot: 4 },
    ]
}

/// The skill panel of the character menu for the chosen character `id`:
/// the four skill icons and texts of that character, Shiroko's for an id
/// that is no character.
pub fn skill_panel(id: u8) -> (v: Vec<SkillEntry>)
    ensures
        v@ == skill_entries(skill_owner(id)),
{
    let owner: u8 = if id == 2 || id == 3 { id } else { 1 };
    let mut v: Vec<SkillEntry> = Vec::new();
    v.push(SkillEntry { owner, slot: 1 });
    v.push(SkillEntry { owner, slot: 2 });
    v.push(SkillEntry { owner, slot: 3 });
    v.push(SkillEntry { owner, slot: 4 });
    v
}

/// After a character switch to `new_id`, the skill panel shows the four
/// skills of the new character; for an id that is no character the panel
/// is left as it was (`None`).
pub fn reload_skill_panel(new_id: u8) -> (r: Option<Vec<SkillEntry>>)
    ensures
        match r {
            Some(v) => 1 <= new_id <= 3 && v@ == skill_entries(new_id),
            None => !(1 <= new_id <= 3),
        },
{
    if 1 <= new_id && new_id <= 3 {
        Some(skill_panel(new_id))
    } else {
        None
    }
}

/// The character menu's "close" button goes back to the running lobby and
/// hides the cursor.
pub fn handle_soramenu(close_pressed: bool) -> (next: Option<HomeState>)
    ensures
        next == (if close_pressed { Some(HomeState::Running) } else { None }),
{
    if close_pressed {
        Some(HomeState::Running)
    } else {
        None
    }
}

/// The screen slide, for every screen and pending change: screens change
/// only at the slide's switch point (a loading screen only once the slide
/// has passed it, and then always into the run); the title only leads to
/// the lobby; a room is built exactly when the lobby or a run goes to the
/// loading screen; the run's room is removed exactly when a run goes back
/// to the title or the lobby; any other pending screen from the lobby or a
/// run leads to the title; the lobby and a run consume the pending change
/// they carry out, and nothing happens while none is pending.
pub proof fn lemma_slide(current: GameState, pending: GameState, phase: SlidePhase)
    ensures
        ({
            let (p, a) = slide_spec(current, pending, phase);
            &&& a.next is Some && current != GameState::Loading ==> phase == SlidePhase::Switch
            &&& current == GameState::Loading ==> (a.next is Some <==> phase == SlidePhase::LoadDone)
                && (a.next is Some ==> a.next == Some(GameState::InGame))
            &&& current == GameState::MainMenu ==> (a.next is Some <==> (phase == SlidePhase::Switch && pending == GameState::Home))
                && (a.next is Some ==> a.next == Some(GameState::Home))
            &&& a.next_room <==> ((current == GameState::Home || current == GameState::InGame)
                && phase == SlidePhase::Switch && pending == GameState::Loading)
            &&& a.leave_run <==> (current == GameState::InGame && phase == SlidePhase::Switch
                && (pending == GameState::MainMenu || pending == GameState::Home))
            &&& (current == GameState::Home || current == GameState::InGame) && phase == SlidePhase::Switch
                && pending != GameState::NoScreen ==> p == GameState::NoScreen && a.next is Some
                && (pending != GameState::Loading && !(current == GameState::InGame && pending == GameState::Home)
                    ==> a.next == Some(GameState::MainMenu))
            &&& a.next_room ==> a.next == Some(GameState::Loading)
            &&& current == GameState::InGame && phase == SlidePhase::Switch && pending == GameState::Home ==> a.next == Some(GameState::Home)
            &&& pending == GameState::NoScreen && current != GameState::Loading ==> a.next is None && p == pending
            &&& a.next is None ==> p == pending
        }),
{
}

/// The skill panel lists four skills, slots 1 to 4 in order, all of the
/// chosen character: Arisu's for id 2, Utaha's for id 3, Shiroko's for any
/// other id.
pub proof fn lemma_skill_panel(id: u8)
    ensures
        skill_entries(skill_owner(id)).len() == 4,
        forall|i: int| 0 <= i < 4 ==> (#[trigger] skill_entries(skill_owner(id))[i]).slot == i + 1,
        forall|i: int| 0 <= i < 4 ==> (#[trigger] skill_entries(skill_owner(id))[i]).owner
            == (if id == 2 { 2u8 } else if id == 3 { 3u8 } else { 1u8 }),
{
}

} // verus!
