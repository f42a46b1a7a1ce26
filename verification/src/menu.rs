use crate::error::CommandError;
use crate::preset::{
    preset_identifier, preset_identifier_text, preset_label, preset_label_text, preset_models,
    preset_prefix, PresetTime, PresetTimeModel,
};
use crate::theme::Theme;
use vstd::prelude::*;
use vstd::string::*;

verus! {

/// The name under which the tray icon is registered and found again.
pub const TRAY_ID: &'static str = "main-tray";

/// A menu entry that can be activated.
#[derive(Debug, PartialEq, Eq)]
pub struct MenuItem {
    /// The key under which an activation of the entry is reported.
    pub id: String,
    /// The text that the entry shows.
    pub label: String,
}

/// A [`MenuItem`] as contracts see it.
pub struct MenuItemModel {
    pub id: Seq<char>,
    pub label: Seq<char>,
}

impl View for MenuItem {
    type V = MenuItemModel;

    open spec fn view(&self) -> MenuItemModel {
        MenuItemModel { id: self.id@, label: self.label@ }
    }
}

/// An entry of a submenu.
#[derive(Debug, PartialEq, Eq)]
pub enum SubmenuEntry {
    Item(MenuItem),
    Separator,
}

/// A [`SubmenuEntry`] as contracts see it.
pub enum SubmenuEntryModel {
    Item(MenuItemModel),
    Separator,
}

impl View for SubmenuEntry {
    type V = SubmenuEntryModel;

    open spec fn view(&self) -> SubmenuEntryModel {
        match self {
            SubmenuEntry::Item(item) => SubmenuEntryModel::Item(item@),
            SubmenuEntry::Separator => SubmenuEntryModel::Separator,
        }
    }
}

/// An entry of the tray menu.
#[derive(Debug, PartialEq, Eq)]
pub enum MenuEntry {
    Item(MenuItem),
    Separator,
    Submenu { label: String, entries: Vec<SubmenuEntry> },
}

/// A [`MenuEntry`] as contracts see it.
pub enum MenuEntryModel {
    Item(MenuItemModel),
    Separator,
    Submenu { label: Seq<char>, entries: Seq<SubmenuEntryModel> },
}

/// The entries of a submenu, each as contracts see it.
pub open spec fn submenu_models(entries: Seq<SubmenuEntry>) -> Seq<SubmenuEntryModel> {
    entries.map_values(|e: SubmenuEntry| e@)
}

impl View for MenuEntry {
    type V = MenuEntryModel;

    open spec fn view(&self) -> MenuEntryModel {
        match self {
            MenuEntry::Item(item) => MenuEntryModel::Item(item@),
            MenuEntry::Separator => MenuEntryModel::Separator,
            MenuEntry::Submenu { label, entries } => MenuEntryModel::Submenu {
                label: label@,
                entries: submenu_models(entries@),
            },
        }
    }
}

/// The entries of a menu, each as contracts see it.
pub open spec fn menu_models(entries: Seq<MenuEntry>) -> Seq<MenuEntryModel> {
    entries.map_values(|e: MenuEntry| e@)
}

/// The entry with the identifier `id` that shows `label`.
pub open spec fn text_item(id: Seq<char>, label: Seq<char>) -> MenuEntryModel {
    MenuEntryModel::Item(MenuItemModel { id, label })
}

/// The entry of `theme` in the theme submenu.
pub open spec fn theme_item(theme: Theme) -> SubmenuEntryModel {
    SubmenuEntryModel::Item(
        MenuItemModel { id: theme.identifier_text(), label: theme.title_text() },
    )
}

/// The entries of the theme submenu: the seven plain themes, a separator,
/// then the two special ones.
pub open spec fn theme_submenu_entries() -> Seq<SubmenuEntryModel> {
    seq![
        theme_item(Theme::Blue),
        theme_item(Theme::Green),
        theme_item(Theme::Purple),
        theme_item(Theme::Orange),
        theme_item(Theme::Red),
        theme_item(Theme::Dark),
        theme_item(Theme::Light),
        SubmenuEntryModel::Separator,
        theme_item(Theme::Dynamic),
        theme_item(Theme::Transparent),
    ]
}

/// The theme submenu.
pub open spec fn themes_entry() -> MenuEntryModel {
    MenuEntryModel::Submenu { label: "Themes"@, entries: theme_submenu_entries() }
}

/// What every tray menu begins with.
pub open spec fn leading_entries() -> Seq<MenuEntryModel> {
    seq![text_item("show"@, "Show Timer"@), MenuEntryModel::Separator]
}

/// What every tray menu ends with.
pub open spec fn trailing_entries() -> Seq<MenuEntryModel> {
    seq![
        MenuEntryModel::Separator,
        text_item("toggle_mode"@, "Switch Mode (Countdown ↔ Stopwatch)"@),
        text_item("settings"@, "Custom Time (MM:SS or HH:MM:SS)"@),
        text_item("customize_presets"@, "Customize Presets..."@),
        MenuEntryModel::Separator,
        themes_entry(),
        MenuEntryModel::Separator,
        text_item("quit"@, "Exit"@),
    ]
}

/// The entry of the preset at `index`, counted from zero, whose name is
/// `label`.
pub open spec fn preset_entry(index: nat, label: Seq<char>) -> MenuEntryModel {
    text_item(preset_identifier_text(index), preset_label_text(index, label))
}

/// One entry for each of `presets`, in their order.
pub open spec fn preset_entries(presets: Seq<PresetTimeModel>) -> Seq<MenuEntryModel> {
    Seq::new(presets.len(), |i: int| preset_entry(i as nat, presets[i].label))
}

/// The three preset entries of the menu that the tray starts with.
pub open spec fn fixed_preset_entries() -> Seq<MenuEntryModel> {
    seq![
        text_item("set_3min"@, "Preset 1 (3 min)"@),
        text_item("set_5min"@, "Preset 2 (5 min)"@),
        text_item("set_25min"@, "Preset 3 (25 min)"@),
    ]
}

/// The tray menu for `presets`.
pub open spec fn tray_menu_of(presets: Seq<PresetTimeModel>) -> Seq<MenuEntryModel> {
    leading_entries() + preset_entries(presets) + trailing_entries()
}

/// The menu that the tray starts with, before any preset is known.
pub open spec fn startup_menu() -> Seq<MenuEntryModel> {
    leading_entries() + fixed_preset_entries() + trailing_entries()
}

/// Whether `entry` is the entry of a preset: one that can be activated and
/// whose identifier begins as the identifiers of presets do.
pub open spec fn is_preset_entry(entry: MenuEntryModel) -> bool {
    entry matches MenuEntryModel::Item(item) && preset_prefix().is_prefix_of(item.id)
}

/// The preset entries of `menu`, in their order.
pub open spec fn preset_entries_in(menu: Seq<MenuEntryModel>) -> Seq<MenuEntryModel> {
    menu.filter(|entry: MenuEntryModel| is_preset_entry(entry))
}

/// Whether the submenu entry `entry` can be activated under the identifier
/// `id`.
pub open spec fn submenu_entry_offers(entry: SubmenuEntryModel, id: Seq<char>) -> bool {
    match entry {
        SubmenuEntryModel::Item(item) => item.id == id,
        SubmenuEntryModel::Separator => false,
    }
}

/// Whether `entry` can be activated under the identifier `id`, itself or, if
/// it is a submenu, one of its entries.
pub open spec fn entry_offers(entry: MenuEntryModel, id: Seq<char>) -> bool {
    match entry {
        MenuEntryModel::Item(item) => item.id == id,
        MenuEntryModel::Separator => false,
        MenuEntryModel::Submenu { label, entries } => exists|j: int|
            0 <= j < entries.len() && submenu_entry_offers(#[trigger] entries[j], id),
    }
}

/// Whether `menu` holds an entry that can be activated under the identifier
/// `id`.
pub open spec fn menu_offers(menu: Seq<MenuEntryModel>, id: Seq<char>) -> bool {
    exists|i: int| 0 <= i < menu.len() && entry_offers(#[trigger] menu[i], id)
}

fn text_entry(id: &str, label: &str) -> (entry: MenuEntry)
    ensures
        entry@ == text_item(id@, label@),
{
    MenuEntry::Item(MenuItem { id: String::from_str(id), label: String::from_str(label) })
}

fn theme_entry(theme: Theme) -> (entry: SubmenuEntry)
    ensures
        entry@ == theme_item(theme),
{
    SubmenuEntry::Item(MenuItem { id: theme.identifier(), label: String::from_str(theme.title()) })
}

/// Builds the theme submenu.
pub fn theme_submenu() -> (entry: MenuEntry)
    ensures
        entry@ == themes_entry(),
{
    let mut entries: Vec<SubmenuEntry> = Vec::new();
    entries.push(theme_entry(Theme::Blue));
    entries.push(theme_entry(Theme::Green));
    entries.push(theme_entry(Theme::Purple));
    entries.push(theme_entry(Theme::Orange));
    entries.push(theme_entry(Theme::Red));
    entries.push(theme_entry(Theme::Dark));
    entries.push(theme_entry(Theme::Light));
    entries.push(SubmenuEntry::Separator);
    entries.push(theme_entry(Theme::Dynamic));
    entries.push(theme_entry(Theme::Transparent));
    assert(submenu_models(entries@) =~= theme_submenu_entries());
    MenuEntry::Submenu { label: String::from_str("Themes"), entries }
}

fn push_leading(menu: &mut Vec<MenuEntry>)
    ensures
        menu_models(final(menu)@) == menu_models(old(menu)@) + leading_entries(),
{
    menu.push(text_entry("show", "Show Timer"));
    menu.push(MenuEntry::Separator);
}

fn push_trailing(menu: &mut Vec<MenuEntry>)
    ensures
        menu_models(final(menu)@) == menu_models(old(menu)@) + trailing_entries(),
{
    menu.push(MenuEntry::Separator);
    menu.push(text_entry("toggle_mode", "Switch Mode (Countdown ↔ Stopwatch)"));
    menu.push(text_entry("settings", "Custom Time (MM:SS or HH:MM:SS)"));
    menu.push(text_entry("customize_presets", "Customize Presets..."));
    menu.push(MenuEntry::Separator);
    menu.push(theme_submenu());
    menu.push(MenuEntry::Separator);
    menu.push(text_entry("quit", "Exit"));
}

/// Builds the menu that the tray starts with, before any preset is known.
pub fn startup_tray_menu() -> (menu: Vec<MenuEntry>)
    ensures
        menu_models(menu@) == startup_menu(),
{
    let mut menu: Vec<MenuEntry> = Vec::new();
    push_leading(&mut menu);
    menu.push(text_entry("set_3min", "Preset 1 (3 min)"));
    menu.push(text_entry("set_5min", "Preset 2 (5 min)"));
    menu.push(text_entry("set_25min", "Preset 3 (25 min)"));
    push_trailing(&mut menu);
    menu
}

/// Builds the tray menu for `presets`: one entry for each, in their order,
/// between the entries that every tray menu has.
pub fn tray_menu(presets: &Vec<PresetTime>) -> (menu: Vec<MenuEntry>)
    ensures
        menu_models(menu@) == tray_menu_of(preset_models(presets@)),
{
    let ghost models = preset_models(presets@);
    let mut menu: Vec<MenuEntry> = Vec::new();
    push_leading(&mut menu);
    let mut index: usize = 0;
    while index < presets.len()
        invariant
            index <= presets.len(),
            models == preset_models(presets@),
            menu_models(menu@) == leading_entries() + preset_entries(models).take(index as int),
        decreases presets.len() - index,
    {
        let preset = &presets[index];
        let entry = MenuEntry::Item(
            MenuItem {
                id: preset_identifier(index),
                label: preset_label(index, preset.label.as_str()),
            },
        );
        let ghost before = menu_models(menu@);
        menu.push(entry);
        assert(menu_models(menu@) =~= before.push(entry@));
        assert(preset_entries(models).take(index + 1) =~= preset_entries(models).take(
            index as int,
        ).push(entry@));
        index += 1;
    }
    push_trailing(&mut menu);
    menu
}

/// Plans the replacement of the tray's menu: the menu for `presets`, or an
/// error where the tray is missing.
pub fn rebuild_tray_menu(tray_present: bool, presets: &Vec<PresetTime>) -> (result: Result<
    Vec<MenuEntry>,
    CommandError,
>)
    ensures
        !tray_present ==> result == Err::<Vec<MenuEntry>, CommandError>(
            CommandError::TrayNotFound,
        ),
        tray_present ==> (result matches Ok(menu) && menu_models(menu@) == tray_menu_of(
            preset_models(presets@),
        )),
{
    if !tray_present {
        return Err(CommandError::TrayNotFound);
    }
    Ok(tray_menu(presets))
}

proof fn lemma_filter_keeps_all<A>(s: Seq<A>, keep: spec_fn(A) -> bool)
    requires
        forall|i: int| 0 <= i < s.len() ==> keep(#[trigger] s[i]),
    ensures
        s.filter(keep) == s,
    decreases s.len(),
{
    reveal(Seq::filter);
    if s.len() > 0 {
        lemma_filter_keeps_all(s.drop_last(), keep);
    }
}

proof fn lemma_filter_drops_all<A>(s: Seq<A>, keep: spec_fn(A) -> bool)
    requires
        forall|i: int| 0 <= i < s.len() ==> !keep(#[trigger] s[i]),
    ensures
        s.filter(keep) == Seq::<A>::empty(),
    decreases s.len(),
{
    reveal(Seq::filter);
    if s.len() > 0 {
        lemma_filter_drops_all(s.drop_last(), keep);
    }
}

proof fn lemma_fixed_entries_are_no_presets()
    ensures
        preset_entries_in(leading_entries()) == Seq::<MenuEntryModel>::empty(),
        preset_entries_in(trailing_entries()) == Seq::<MenuEntryModel>::empty(),
{
    reveal_strlit("preset_");
    reveal_strlit("show");
    reveal_strlit("toggle_mode");
    reveal_strlit("settings");
    reveal_strlit("customize_presets");
    reveal_strlit("quit");
    let keep = |entry: MenuEntryModel| is_preset_entry(entry);
    assert forall|id: Seq<char>| id.len() > 0 && id[0] != 'p' implies !preset_prefix().is_prefix_of(
        id,
    ) by {
        if preset_prefix().is_prefix_of(id) {
            assert(preset_prefix()[0] == id.subrange(0, preset_prefix().len() as int)[0]);
        }
    }
    assert("show"@[0] == 's');
    assert("toggle_mode"@[0] == 't');
    assert("settings"@[0] == 's');
    assert("customize_presets"@[0] == 'c');
    assert("quit"@[0] == 'q');
    lemma_filter_drops_all(leading_entries(), keep);
    lemma_filter_drops_all(trailing_entries(), keep);
}

/// The tray menu for `presets` holds one preset entry for each of them and no
/// other, in the order of the presets, between the leading and the trailing
/// entries. The identifier of the entry of the preset at index `i`, counted
/// from zero, is `preset_` and `i`; its label is `i + 1`, a dash between
/// spaces, and the preset's name.
pub proof fn lemma_menu_lists_presets_in_order(presets: Seq<PresetTimeModel>)
    ensures
        preset_entries_in(tray_menu_of(presets)) == preset_entries(presets),
        tray_menu_of(presets).subrange(
            leading_entries().len() as int,
            (leading_entries().len() + presets.len()) as int,
        ) == preset_entries(presets),
        preset_entries(presets).len() == presets.len(),
        forall|i: int|
            0 <= i < presets.len() ==> #[trigger] preset_entries(presets)[i] == text_item(
                preset_identifier_text(i as nat),
                preset_label_text(i as nat, presets[i].label),
            ),
{
    let keep = |entry: MenuEntryModel| is_preset_entry(entry);
    let listed = preset_entries(presets);
    lemma_fixed_entries_are_no_presets();
    assert forall|i: int| 0 <= i < listed.len() implies keep(#[trigger] listed[i]) by {
        let id = preset_identifier_text(i as nat);
        assert(id.subrange(0, preset_prefix().len() as int) =~= preset_prefix());
    }
    lemma_filter_keeps_all(listed, keep);
    Seq::filter_distributes_over_add(leading_entries(), listed, keep);
    Seq::filter_distributes_over_add(leading_entries() + listed, trailing_entries(), keep);
    assert(tray_menu_of(presets).subrange(
        leading_entries().len() as int,
        (leading_entries().len() + presets.len()) as int,
    ) =~= listed);
}

/// The tray menu depends on the names of the presets alone, in their order:
/// presets with the same names give the same menu.
pub proof fn lemma_menu_follows_names(a: Seq<PresetTimeModel>, b: Seq<PresetTimeModel>)
    requires
        a.len() == b.len(),
        forall|i: int| 0 <= i < a.len() ==> a[i].label == b[i].label,
    ensures
        tray_menu_of(a) == tray_menu_of(b),
{
    assert(preset_entries(a) =~= preset_entries(b));
}

/// Whatever the presets, the tray menu begins and ends with the same fixed
/// entries, and holds nothing but them and one entry for each preset. With no
/// preset it holds the fixed entries alone.
pub proof fn lemma_fixed_entries_stay(presets: Seq<PresetTimeModel>)
    ensures
        tray_menu_of(presets).len() == leading_entries().len() + presets.len()
            + trailing_entries().len(),
        tray_menu_of(presets).take(leading_entries().len() as int) == leading_entries(),
        tray_menu_of(presets).skip((leading_entries().len() + presets.len()) as int)
            == trailing_entries(),
        presets.len() == 0 ==> tray_menu_of(presets) == leading_entries() + trailing_entries(),
        presets.len() == 0 ==> preset_entries_in(tray_menu_of(presets)) == Seq::<
            MenuEntryModel,
        >::empty(),
{
    if presets.len() == 0 {
        lemma_menu_lists_presets_in_order(presets);
    }
}

} // verus!
