use crate::decimal::{
    decimal_digits, decimal_string, lemma_parse_of_digits, parse_index, parsed_index, push_decimal,
};
use crate::text::strip_word;
use vstd::prelude::*;
use vstd::string::*;

verus! {

/// A duration that the user can pick from the tray menu, and its name.
#[derive(Debug, PartialEq, Eq)]
pub struct PresetTime {
    pub seconds: i32,
    pub label: String,
}

/// A [`PresetTime`] as contracts see it.
pub struct PresetTimeModel {
    pub seconds: int,
    pub label: Seq<char>,
}

impl View for PresetTime {
    type V = PresetTimeModel;

    open spec fn view(&self) -> PresetTimeModel {
        PresetTimeModel { seconds: self.seconds as int, label: self.label@ }
    }
}

impl Clone for PresetTime {
    fn clone(&self) -> (copy: Self)
        ensures
            copy == *self,
    {
        PresetTime { seconds: self.seconds, label: self.label.clone() }
    }
}

/// The presets of `presets`, each as contracts see it.
pub open spec fn preset_models(presets: Seq<PresetTime>) -> Seq<PresetTimeModel> {
    presets.map_values(|p: PresetTime| p@)
}

/// What the menu identifier of every preset begins with.
pub open spec fn preset_prefix() -> Seq<char> {
    "preset_"@
}

/// What stands between a preset's number and its name in its menu label.
pub open spec fn label_separator() -> Seq<char> {
    " - "@
}

/// The menu identifier of the preset at `index`, counted from zero.
pub open spec fn preset_identifier_text(index: nat) -> Seq<char> {
    preset_prefix() + decimal_digits(index)
}

/// The menu label of the preset at `index`, counted from zero, whose name is
/// `label`: its number counted from one, then its name.
pub open spec fn preset_label_text(index: nat, label: Seq<char>) -> Seq<char> {
    decimal_digits(index + 1) + label_separator() + label
}

/// The index that the menu identifier `id` carries, if `id` is the identifier
/// of a preset.
pub open spec fn preset_index_of(id: Seq<char>) -> Option<usize> {
    if preset_prefix().is_prefix_of(id) {
        parsed_index(id.skip(preset_prefix().len() as int))
    } else {
        None
    }
}

/// The menu identifier of the preset at `index`, counted from zero.
pub fn preset_identifier(index: usize) -> (id: String)
    ensures
        id@ == preset_identifier_text(index as nat),
{
    let mut id = String::from_str("preset_");
    push_decimal(&mut id, index as u128);
    id
}

/// The menu label of the preset at `index`, counted from zero, whose name is
/// `label`.
pub fn preset_label(index: usize, label: &str) -> (text: String)
    ensures
        text@ == preset_label_text(index as nat, label@),
{
    let mut text = decimal_string(index as u128 + 1);
    text.append(" - ");
    text.append(label);
    text
}

/// The index that the menu identifier `id` carries, if `id` is the identifier
/// of a preset.
pub fn preset_index(id: &[char]) -> (index: Option<usize>)
    ensures
        index == preset_index_of(id@),
{
    match strip_word(id, "preset_") {
        Some(rest) => parse_index(rest),
        None => None,
    }
}

/// The identifier that the menu gives to the preset at `index` carries
/// `index`.
pub proof fn lemma_identifier_carries_index(index: nat)
    requires
        index <= usize::MAX,
    ensures
        preset_index_of(preset_identifier_text(index)) == Some(index as usize),
{
    let id = preset_identifier_text(index);
    assert(id.subrange(0, preset_prefix().len() as int) =~= preset_prefix());
    assert(id.skip(preset_prefix().len() as int) =~= decimal_digits(index));
    lemma_parse_of_digits(index);
}

} // verus!
