//! The decisions of the group that lists the volumes: its description line,
//! its filter, and which of its parts are shown.

use vstd::prelude::*;
use crate::i18n::{decimal, fill_placeholders, filled, lemma_filled_placeholder, lemma_filled_plain_prefix, u32_to_string};

verus! {

/// Which description the group shows for a list of `len` volumes of which
/// `used` are in use.
#[derive(Clone, Copy, Debug, PartialEq, Eq)]
pub enum DescriptionKind {
    /// No volumes: the group's own label for an empty list.
    NoVolumes,
    /// One volume, in use.
    OneUsed,
    /// One volume, not in use.
    OneStopped,
    /// Several volumes: the total and the number in use.
    Total,
}

/// The description to show for `len` volumes of which `used` are in use.
pub open spec fn spec_description_kind(len: u32, used: u32) -> DescriptionKind {
    if len == 0 {
        DescriptionKind::NoVolumes
    } else if len == 1 {
        if used == 1 {
            DescriptionKind::OneUsed
        } else {
            DescriptionKind::OneStopped
        }
    } else {
        DescriptionKind::Total
    }
}

/// Picks the description for `len` volumes of which `used` are in use.
pub fn description_kind(len: u32, used: u32) -> (kind: DescriptionKind)
    ensures
        kind == spec_description_kind(len, used),
        len == 0 ==> kind == DescriptionKind::NoVolumes,
        len == 1 && used == 1 ==> kind == DescriptionKind::OneUsed,
        len == 1 && used != 1 ==> kind == DescriptionKind::OneStopped,
        len > 1 ==> kind == DescriptionKind::Total,
{
    if len == 0 {
        DescriptionKind::NoVolumes
    } else if len == 1 {
        if used == 1 {
            DescriptionKind::OneUsed
        } else {
            DescriptionKind::OneStopped
        }
    } else {
        DescriptionKind::Total
    }
}

/// The description built from the translated message `translated` of the kind
/// that `len` and `used` call for: the group's label where there are no volumes,
/// the message itself for one volume, and the message with its placeholders
/// filled with the total and the number in use otherwise.
pub open spec fn spec_description(len: u32, used: u32, no_volumes_label: Option<Seq<char>>, translated: Seq<char>) -> Option<Seq<char>> {
    match spec_description_kind(len, used) {
        DescriptionKind::NoVolumes => no_volumes_label,
        DescriptionKind::OneUsed => Some(translated),
        DescriptionKind::OneStopped => Some(translated),
        DescriptionKind::Total => Some(filled(translated, seq![decimal(len as nat), decimal(used as nat)])),
    }
}

/// The characters of an optional text.
pub open spec fn text_of(t: Option<String>) -> Option<Seq<char>> {
    match t {
        Some(s) => Some(s@),
        None => None,
    }
}

/// Builds the description from the translated message of the kind that `len`
/// and `used` call for (see `spec_description`).
pub fn description_from_translation(len: u32, used: u32, no_volumes_label: Option<String>, translated: String) -> (d: Option<String>)
    ensures
        d matches Some(s) ==> spec_description(len, used, text_of(no_volumes_label), translated@) == Some(s@),
        d is None ==> spec_description(len, used, text_of(no_volumes_label), translated@) is None,
        len == 0 ==> text_of(d) == text_of(no_volumes_label),
        len == 1 ==> (d matches Some(s) && s@ == translated@),
        len > 1 ==> (d matches Some(s) && s@ == filled(translated@, seq![decimal(len as nat), decimal(used as nat)])),
{
    match description_kind(len, used) {
        DescriptionKind::NoVolumes => no_volumes_label,
        DescriptionKind::OneUsed => Some(translated),
        DescriptionKind::OneStopped => Some(translated),
        DescriptionKind::Total => {
            let args = vec![u32_to_string(len), u32_to_string(used)];
            let filled_in = fill_placeholders(translated.as_str(), &args);
            proof {
                assert(args@.map_values(|a: String| a@) =~= seq![decimal(len as nat), decimal(used as nat)]);
            }
            Some(filled_in)
        }
    }
}

/// The description shows the translation it is given: the group's label for no
/// volumes, the translated message itself for one volume, in use or not, in
/// whatever language it came, and the translated message with the total and the
/// number in use filled in for several.
pub proof fn lemma_description_shows_translation(len: u32, used: u32, no_volumes_label: Option<Seq<char>>, translated: Seq<char>)
    ensures
        len == 0 ==> spec_description(len, used, no_volumes_label, translated) == no_volumes_label,
        len == 1 ==> spec_description(len, used, no_volumes_label, translated) == Some(translated),
        len > 1 ==> spec_description(len, used, no_volumes_label, translated)
            == Some(filled(translated, seq![decimal(len as nat), decimal(used as nat)])),
{
}

/// The message looked up for one volume in use.
pub open spec fn one_used_msgid() -> Seq<char> {
    "1 volume, used"@
}

/// The message looked up for one volume not in use.
pub open spec fn one_stopped_msgid() -> Seq<char> {
    "1 volume, stopped"@
}

/// The message, singular and plural alike, looked up for several volumes.
pub open spec fn total_msgid() -> Seq<char> {
    "{} volumes total,\u{2002}{} used"@
}

/// How the description's message is looked up in the catalogue of the current
/// locale.
#[derive(Clone, Copy, Debug, PartialEq, Eq)]
pub enum DescriptionLookup {
    /// No lookup: the group's own label is shown.
    Label,
    /// The translation of `msgid`.
    Gettext(&'static str),
    /// The translation of `msgid` / `msgid_plural` for the count `n`.
    Ngettext { msgid: &'static str, msgid_plural: &'static str, n: u32 },
}

/// What to look up for the description of `len` volumes of which `used` are in
/// use: nothing where there are none; "1 volume, used" or "1 volume, stopped"
/// for one; the plural message "{} volumes total,\u{2002}{} used" (as singular
/// and plural form alike) for the count `len` otherwise.
pub fn description_lookup(len: u32, used: u32) -> (l: DescriptionLookup)
    ensures
        len == 0 ==> l == DescriptionLookup::Label,
        len == 1 && used == 1 ==> (l matches DescriptionLookup::Gettext(id) && id@ == one_used_msgid()),
        len == 1 && used != 1 ==> (l matches DescriptionLookup::Gettext(id) && id@ == one_stopped_msgid()),
        len > 1 ==> (l matches DescriptionLookup::Ngettext { msgid, msgid_plural, n } && msgid@ == total_msgid()
            && msgid_plural@ == total_msgid() && n == len),
{
    if len == 0 {
        DescriptionLookup::Label
    } else if len == 1 {
        if used == 1 {
            DescriptionLookup::Gettext("1 volume, used")
        } else {
            DescriptionLookup::Gettext("1 volume, stopped")
        }
    } else {
        let msgid = "{} volumes total,\u{2002}{} used";
        DescriptionLookup::Ngettext { msgid, msgid_plural: msgid, n: len }
    }
}

/// The message id that `description_lookup` hands out for `len` volumes of
/// which `used` are in use (for `len` not zero).
pub open spec fn spec_description_msgid(len: u32, used: u32) -> Seq<char> {
    if len == 1 {
        if used == 1 {
            one_used_msgid()
        } else {
            one_stopped_msgid()
        }
    } else {
        total_msgid()
    }
}

/// Where no translation is loaded (each message stands for itself), the group
/// reads: its label for no volumes, "1 volume, used" or "1 volume, stopped" for
/// one, and "N volumes total,\u{2002}M used" for several.
pub proof fn lemma_description_untranslated(len: u32, used: u32, no_volumes_label: Option<Seq<char>>)
    ensures
        spec_description(len, used, no_volumes_label, spec_description_msgid(len, used)) == if len == 0 {
            no_volumes_label
        } else if len == 1 {
            if used == 1 {
                Some("1 volume, used"@)
            } else {
                Some("1 volume, stopped"@)
            }
        } else {
            Some(decimal(len as nat) + " volumes total,\u{2002}"@ + decimal(used as nat) + " used"@)
        },
{
    if len > 1 {
        reveal_strlit("{} volumes total,\u{2002}{} used");
        reveal_strlit(" volumes total,\u{2002}");
        reveal_strlit(" used");
        let p1 = " volumes total,\u{2002}"@;
        let p2 = " used"@;
        let args = seq![decimal(len as nat), decimal(used as nat)];
        assert(total_msgid() =~= seq!['{', '}'] + (p1 + (seq!['{', '}'] + p2)));
        assert(!p1.contains('{'));
        assert(!p2.contains('{'));
        lemma_filled_placeholder(p1 + (seq!['{', '}'] + p2), args);
        lemma_filled_plain_prefix(p1, seq!['{', '}'] + p2, args.skip(1));
        lemma_filled_placeholder(p2, args.skip(1));
        lemma_filled_plain_prefix(p2, Seq::empty(), args.skip(1).skip(1));
        assert(p2 + Seq::<char>::empty() =~= p2);
        assert(filled(Seq::<char>::empty(), args.skip(1).skip(1)) == Seq::<char>::empty());
        assert(decimal(len as nat) + (p1 + (decimal(used as nat) + p2)) =~= decimal(len as nat) + p1 + decimal(used as nat) + p2);
    }
}

/// The header's extra controls are shown once the list has a volume.
pub fn header_suffix_visible(len: u32) -> (visible: bool)
    ensures
        visible == (len > 0),
{
    len > 0
}

/// The controls that create a volume are shown outside selection mode.
pub fn creation_visible(selection_mode: bool) -> (visible: bool)
    ensures
        visible == !selection_mode,
{
    !selection_mode
}

/// The group's filter keeps an item where "show only used" is off, or where
/// the item is a volume.
pub fn filter_accepts(show_only_used: bool, is_volume: bool) -> (keep: bool)
    ensures
        keep == (!show_only_used || is_volume),
{
    !show_only_used || is_volume
}

/// The settings key to which the group's "show only used" switch is bound.
pub struct SettingsKeySlot {
    key: String,
}

impl SettingsKeySlot {
    /// The key that the slot holds.
    pub closed spec fn spec_key(&self) -> Seq<char> {
        self.key@
    }

    /// A slot holding the empty key.
    pub fn new() -> (slot: Self)
        ensures
            slot.spec_key() == Seq::<char>::empty(),
    {
        SettingsKeySlot { key: String::new() }
    }

    /// The key that the slot holds.
    pub fn key(&self) -> (k: &str)
        ensures
            k@ == self.spec_key(),
    {
        self.key.as_str()
    }

    /// Sets the key to `value`; says whether it changed. Where it did, the
    /// switch is to be bound to the new key and the change notified.
    pub fn set(&mut self, value: String) -> (changed: bool)
        ensures
            changed == (old(self).spec_key() != value@),
            final(self).spec_key() == value@,
    {
        if self.key == value {
            return false;
        }
        self.key = value;
        true
    }
}

} // verus!
