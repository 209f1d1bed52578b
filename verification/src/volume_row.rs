//! The decisions of a volume's row in the list: its label, what activating it
//! does, and which of its parts are enabled and shown.

use vstd::prelude::*;

verus! {

/// The row's label markup: the volume's shown name, struck through while the
/// volume is to be deleted.
pub open spec fn spec_name_markup(name: Seq<char>, to_be_deleted: bool) -> Seq<char> {
    if to_be_deleted {
        seq!['<', 's', '>'] + name + seq!['<', '/', 's', '>']
    } else {
        name
    }
}

/// Builds the row's label markup from the volume's shown name.
pub fn name_markup(name: &str, to_be_deleted: bool) -> (label: String)
    ensures
        label@ == spec_name_markup(name@, to_be_deleted),
        !to_be_deleted ==> label@ == name@,
        to_be_deleted ==> label@ == "<s>"@ + name@ + "</s>"@,
{
    if to_be_deleted {
        let open_tag = "<s>";
        let close_tag = "</s>";
        proof {
            reveal_strlit("<s>");
            reveal_strlit("</s>");
        }
        let mut label = String::from_str(open_tag);
        label.append(name);
        label.append(close_tag);
        label
    } else {
        String::from_str(name)
    }
}

/// The label holds the whole shown name, whatever its length: as it stands
/// while the volume is kept, and between the strike-through tags `<s>` and
/// `</s>` (seven characters more) while it is to be deleted.
pub proof fn lemma_name_markup_whole_name(name: Seq<char>, to_be_deleted: bool)
    ensures
        !to_be_deleted ==> spec_name_markup(name, to_be_deleted) == name,
        to_be_deleted ==> spec_name_markup(name, to_be_deleted) == "<s>"@ + name + "</s>"@,
        spec_name_markup(name, to_be_deleted).len() == name.len() + if to_be_deleted { 7int } else { 0int },
{
    reveal_strlit("<s>");
    reveal_strlit("</s>");
    assert("<s>"@ =~= seq!['<', 's', '>']);
    assert("</s>"@ =~= seq!['<', '/', 's', '>']);
}

/// What activating a row does.
#[derive(Clone, Copy, Debug, PartialEq, Eq)]
pub enum RowActivation {
    /// The row shows no volume.
    Nothing,
    /// The volume's list is in selection mode: the volume is selected.
    Select,
    /// The volume's details page is shown.
    ShowDetails,
}

/// What activating a row does: `has_volume` says whether it shows a volume, and
/// `selection_mode` whether that volume's list (where it still exists) is in
/// selection mode.
pub fn row_activation(has_volume: bool, selection_mode: Option<bool>) -> (action: RowActivation)
    ensures
        !has_volume ==> action == RowActivation::Nothing,
        has_volume && selection_mode == Some(true) ==> action == RowActivation::Select,
        has_volume && selection_mode != Some(true) ==> action == RowActivation::ShowDetails,
{
    if !has_volume {
        RowActivation::Nothing
    } else if match selection_mode {
        Some(mode) => mode,
        None => false,
    } {
        RowActivation::Select
    } else {
        RowActivation::ShowDetails
    }
}

/// The row's "show details" action is enabled unless the volume is to be deleted.
pub fn show_details_enabled(to_be_deleted: bool) -> (enabled: bool)
    ensures
        enabled == !to_be_deleted,
{
    !to_be_deleted
}

/// The row's trailing controls are shown outside selection mode.
pub fn end_box_revealed(selection_mode: bool) -> (revealed: bool)
    ensures
        revealed == !selection_mode,
{
    !selection_mode
}

} // verus!
