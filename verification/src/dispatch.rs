use crate::menu::{
    entry_offers, fixed_preset_entries, leading_entries, menu_offers, preset_entries,
    startup_menu, submenu_entry_offers, theme_submenu_entries, trailing_entries, tray_menu_of,
    MenuEntryModel,
};
use crate::preset::{
    lemma_identifier_carries_index, preset_identifier_text, preset_index, preset_index_of,
    preset_prefix, PresetTimeModel,
};
use crate::text::{is_word, strip_word, to_chars};
use crate::theme::{lemma_theme_named_by_its_name, theme_named, theme_prefix, Theme};
use vstd::prelude::*;
use vstd::string::*;

verus! {

/// The name of the window that notifications are sent to.
pub const MAIN_WINDOW: &'static str = "main";

/// A message for the frontend. It is sent to the main window and never
/// acknowledged.
#[derive(Clone, Copy, Debug, PartialEq, Eq, Structural)]
pub enum Notification {
    /// The preset at this index, counted from zero, was picked.
    PresetSelected(usize),
    /// Switch between countdown and stopwatch.
    ToggleMode,
    /// Ask the user for a custom time.
    OpenSettings,
    /// Switch to this theme.
    ChangeTheme(Theme),
}

/// What a notification carries.
#[derive(Clone, Copy, Debug, PartialEq, Eq)]
pub enum Payload {
    /// Nothing.
    Empty,
    /// The index of a preset, counted from zero.
    Index(usize),
    /// The name of a theme.
    Name(&'static str),
}

/// What the activation of a tray menu entry leads to.
#[derive(Clone, Copy, Debug, PartialEq, Eq, Structural)]
pub enum TrayAction {
    /// Show, restore and focus the main window, and keep it on top. Without a
    /// main window nothing happens.
    ShowMainWindow,
    /// Send the notification to the main window. A notification that cannot
    /// be delivered is dropped.
    Notify(Notification),
    /// Open the preset-settings window, without waiting for it.
    OpenPresetSettings,
    /// End the process with this exit code.
    Exit(i32),
    /// Do nothing: the identifier belongs to no entry.
    Ignore,
}

impl Notification {
    /// The name under which the frontend listens for the notification.
    pub open spec fn event_name_text(self) -> Seq<char> {
        match self {
            Notification::PresetSelected(_) => "preset-selected"@,
            Notification::ToggleMode => "toggle-mode"@,
            Notification::OpenSettings => "open-settings"@,
            Notification::ChangeTheme(_) => "change-theme"@,
        }
    }

    /// The name under which the frontend listens for the notification.
    pub fn event_name(self) -> (name: &'static str)
        ensures
            name@ == self.event_name_text(),
    {
        match self {
            Notification::PresetSelected(_) => "preset-selected",
            Notification::ToggleMode => "toggle-mode",
            Notification::OpenSettings => "open-settings",
            Notification::ChangeTheme(_) => "change-theme",
        }
    }

    /// What the notification carries: the index of the preset that was
    /// picked, the name of the theme to switch to, or nothing.
    pub fn payload(self) -> (payload: Payload)
        ensures
            self matches Notification::PresetSelected(index) ==> payload == Payload::Index(index),
            self is ToggleMode || self is OpenSettings ==> payload is Empty,
            self matches Notification::ChangeTheme(theme) ==> (payload matches Payload::Name(name)
                && name@ == theme.name_text()),
    {
        match self {
            Notification::PresetSelected(index) => Payload::Index(index),
            Notification::ToggleMode => Payload::Empty,
            Notification::OpenSettings => Payload::Empty,
            Notification::ChangeTheme(theme) => Payload::Name(theme.name()),
        }
    }
}

/// The theme whose menu entry has the identifier `id`, if there is one.
pub open spec fn theme_of(id: Seq<char>) -> Option<Theme> {
    if theme_prefix().is_prefix_of(id) {
        theme_named(id.skip(theme_prefix().len() as int))
    } else {
        None
    }
}

/// Whether `id` is the identifier of one of the entries that do not depend on
/// presets or themes.
pub open spec fn is_fixed_identifier(id: Seq<char>) -> bool {
    ||| id == "show"@
    ||| id == "set_3min"@
    ||| id == "set_5min"@
    ||| id == "set_25min"@
    ||| id == "toggle_mode"@
    ||| id == "settings"@
    ||| id == "customize_presets"@
    ||| id == "quit"@
}

/// Whether `id` is recognized: it carries a preset index, names a theme, or
/// is one of the fixed identifiers.
pub open spec fn is_recognized(id: Seq<char>) -> bool {
    preset_index_of(id) is Some || theme_of(id) is Some || is_fixed_identifier(id)
}

/// What the activation of the menu entry with the identifier `id` leads to.
///
/// An identifier that carries a preset index selects that preset, whatever
/// the index. The three fixed preset entries select the first three presets.
/// An identifier that belongs to no entry is ignored.
pub open spec fn action_of(id: Seq<char>) -> TrayAction {
    match preset_index_of(id) {
        Some(index) => TrayAction::Notify(Notification::PresetSelected(index)),
        None => {
            if id == "show"@ {
                TrayAction::ShowMainWindow
            } else if id == "set_3min"@ {
                TrayAction::Notify(Notification::PresetSelected(0))
            } else if id == "set_5min"@ {
                TrayAction::Notify(Notification::PresetSelected(1))
            } else if id == "set_25min"@ {
                TrayAction::Notify(Notification::PresetSelected(2))
            } else if id == "toggle_mode"@ {
                TrayAction::Notify(Notification::ToggleMode)
            } else if id == "settings"@ {
                TrayAction::Notify(Notification::OpenSettings)
            } else if id == "customize_presets"@ {
                TrayAction::OpenPresetSettings
            } else if id == "quit"@ {
                TrayAction::Exit(0)
            } else {
                match theme_of(id) {
                    Some(theme) => TrayAction::Notify(Notification::ChangeTheme(theme)),
                    None => TrayAction::Ignore,
                }
            }
        },
    }
}

fn theme_for(id: &[char]) -> (theme: Option<Theme>)
    ensures
        theme == theme_of(id@),
{
    match strip_word(id, "theme_") {
        Some(name) => Theme::from_name(name),
        None => None,
    }
}

/// Decides what the activation of the menu entry with the identifier `id`
/// leads to. Every identifier is answered; none is an error.
pub fn dispatch(id: &str) -> (action: TrayAction)
    ensures
        action == action_of(id@),
{
    let chars = to_chars(id);
    let id = chars.as_slice();
    if let Some(index) = preset_index(id) {
        return TrayAction::Notify(Notification::PresetSelected(index));
    }
    if is_word(id, "show") {
        TrayAction::ShowMainWindow
    } else if is_word(id, "set_3min") {
        TrayAction::Notify(Notification::PresetSelected(0))
    } else if is_word(id, "set_5min") {
        TrayAction::Notify(Notification::PresetSelected(1))
    } else if is_word(id, "set_25min") {
        TrayAction::Notify(Notification::PresetSelected(2))
    } else if is_word(id, "toggle_mode") {
        TrayAction::Notify(Notification::ToggleMode)
    } else if is_word(id, "settings") {
        TrayAction::Notify(Notification::OpenSettings)
    } else if is_word(id, "customize_presets") {
        TrayAction::OpenPresetSettings
    } else if is_word(id, "quit") {
        TrayAction::Exit(0)
    } else {
        match theme_for(id) {
            Some(theme) => TrayAction::Notify(Notification::ChangeTheme(theme)),
            None => TrayAction::Ignore,
        }
    }
}

/// An identifier is ignored exactly when it is not recognized; then nothing
/// is sent and nothing else is done.
pub proof fn lemma_ignored_iff_unrecognized(id: Seq<char>)
    ensures
        action_of(id) is Ignore <==> !is_recognized(id),
{
}

/// The identifier that the menu gives to the preset at `index` selects that
/// preset.
pub proof fn lemma_preset_identifier_selects_preset(index: nat)
    requires
        index <= usize::MAX,
    ensures
        action_of(preset_identifier_text(index)) == TrayAction::Notify(
            Notification::PresetSelected(index as usize),
        ),
{
    lemma_identifier_carries_index(index);
}

/// The identifier that the menu gives to a theme switches to that theme.
pub proof fn lemma_theme_identifier_changes_theme(theme: Theme)
    ensures
        action_of(theme.identifier_text()) == TrayAction::Notify(
            Notification::ChangeTheme(theme),
        ),
{
    let id = theme.identifier_text();
    reveal_strlit("theme_");
    reveal_strlit("preset_");
    reveal_strlit("show");
    reveal_strlit("set_3min");
    reveal_strlit("set_5min");
    reveal_strlit("set_25min");
    reveal_strlit("toggle_mode");
    reveal_strlit("settings");
    reveal_strlit("customize_presets");
    reveal_strlit("quit");
    assert(id[0] == 't' && id[1] == 'h');
    assert(!preset_prefix().is_prefix_of(id));
    assert(id.skip(theme_prefix().len() as int) =~= theme.name_text());
    lemma_theme_named_by_its_name(theme);
}

proof fn lemma_fixed_identifiers_act()
    ensures
        action_of("show"@) == TrayAction::ShowMainWindow,
        action_of("set_3min"@) == TrayAction::Notify(Notification::PresetSelected(0)),
        action_of("set_5min"@) == TrayAction::Notify(Notification::PresetSelected(1)),
        action_of("set_25min"@) == TrayAction::Notify(Notification::PresetSelected(2)),
        action_of("toggle_mode"@) == TrayAction::Notify(Notification::ToggleMode),
        action_of("settings"@) == TrayAction::Notify(Notification::OpenSettings),
        action_of("customize_presets"@) == TrayAction::OpenPresetSettings,
        action_of("quit"@) == TrayAction::Exit(0),
{
    reveal_strlit("preset_");
    reveal_strlit("show");
    reveal_strlit("set_3min");
    reveal_strlit("set_5min");
    reveal_strlit("set_25min");
    reveal_strlit("toggle_mode");
    reveal_strlit("settings");
    reveal_strlit("customize_presets");
    reveal_strlit("quit");
    assert forall|id: Seq<char>| id.len() > 0 && id[0] != 'p' implies preset_index_of(id)
        is None by {
        if preset_prefix().is_prefix_of(id) {
            assert(preset_prefix()[0] == id.subrange(0, preset_prefix().len() as int)[0]);
        }
    }
    assert("show"@.len() == 4 && "show"@[0] == 's');
    assert("set_3min"@.len() == 8 && "set_3min"@[0] == 's' && "set_3min"@[4] == '3');
    assert("set_5min"@.len() == 8 && "set_5min"@[0] == 's' && "set_5min"@[4] == '5');
    assert("set_25min"@.len() == 9 && "set_25min"@[0] == 's');
    assert("toggle_mode"@.len() == 11 && "toggle_mode"@[0] == 't');
    assert("settings"@.len() == 8 && "settings"@[0] == 's' && "settings"@[4] == 'i');
    assert("customize_presets"@.len() == 17 && "customize_presets"@[0] == 'c');
    assert("quit"@.len() == 4 && "quit"@[0] == 'q');
}

proof fn lemma_fixed_entries_are_answered(id: Seq<char>)
    requires
        menu_offers(leading_entries(), id) || menu_offers(trailing_entries(), id)
            || menu_offers(fixed_preset_entries(), id),
    ensures
        action_of(id) != TrayAction::Ignore,
{
    lemma_fixed_identifiers_act();
    if menu_offers(trailing_entries(), id) {
        let i = choose|i: int|
            0 <= i < trailing_entries().len() && entry_offers(
                #[trigger] trailing_entries()[i],
                id,
            );
        if i == 5 {
            let themes = theme_submenu_entries();
            let j = choose|j: int|
                0 <= j < themes.len() && submenu_entry_offers(#[trigger] themes[j], id);
            lemma_theme_identifier_changes_theme(Theme::Blue);
            lemma_theme_identifier_changes_theme(Theme::Green);
            lemma_theme_identifier_changes_theme(Theme::Purple);
            lemma_theme_identifier_changes_theme(Theme::Orange);
            lemma_theme_identifier_changes_theme(Theme::Red);
            lemma_theme_identifier_changes_theme(Theme::Dark);
            lemma_theme_identifier_changes_theme(Theme::Light);
            lemma_theme_identifier_changes_theme(Theme::Dynamic);
            lemma_theme_identifier_changes_theme(Theme::Transparent);
        }
    }
}

/// Every entry of the tray menu for `presets` is answered when it is
/// activated: none of its identifiers is ignored.
pub proof fn lemma_tray_menu_is_answered(presets: Seq<PresetTimeModel>, id: Seq<char>)
    requires
        presets.len() <= usize::MAX,
        menu_offers(tray_menu_of(presets), id),
    ensures
        action_of(id) != TrayAction::Ignore,
{
    let menu = tray_menu_of(presets);
    let lead = leading_entries().len() as int;
    let i = choose|i: int| 0 <= i < menu.len() && entry_offers(#[trigger] menu[i], id);
    if i < lead {
        assert(entry_offers(leading_entries()[i], id));
        lemma_fixed_entries_are_answered(id);
    } else if i < lead + presets.len() {
        assert(menu[i] == preset_entries(presets)[i - lead]);
        lemma_preset_identifier_selects_preset((i - lead) as nat);
    } else {
        assert(entry_offers(trailing_entries()[i - lead - presets.len()], id));
        lemma_fixed_entries_are_answered(id);
    }
}

/// Every entry of the menu that the tray starts with is answered when it is
/// activated: none of its identifiers is ignored.
pub proof fn lemma_startup_menu_is_answered(id: Seq<char>)
    requires
        menu_offers(startup_menu(), id),
    ensures
        action_of(id) != TrayAction::Ignore,
{
    let menu = startup_menu();
    let lead = leading_entries().len() as int;
    let fixed = fixed_preset_entries().len() as int;
    let i = choose|i: int| 0 <= i < menu.len() && entry_offers(#[trigger] menu[i], id);
    if i < lead {
        assert(entry_offers(leading_entries()[i], id));
    } else if i < lead + fixed {
        assert(entry_offers(fixed_preset_entries()[i - lead], id));
    } else {
        assert(entry_offers(trailing_entries()[i - lead - fixed], id));
    }
    lemma_fixed_entries_are_answered(id);
}

/// The entry that the tray menu holds for the preset at `index` selects that
/// preset when it is activated.
pub proof fn lemma_preset_entry_selects_its_preset(presets: Seq<PresetTimeModel>, index: int)
    requires
        0 <= index < presets.len(),
        index <= usize::MAX,
    ensures
        tray_menu_of(presets)[leading_entries().len() + index] matches MenuEntryModel::Item(item)
            && action_of(item.id) == TrayAction::Notify(
            Notification::PresetSelected(index as usize),
        ),
{
    assert(tray_menu_of(presets)[leading_entries().len() + index] == preset_entries(
        presets,
    )[index]);
    lemma_preset_identifier_selects_preset(index as nat);
}

} // verus!
