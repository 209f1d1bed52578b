use pods::i18n::fill_placeholders;
use pods::volume_details::{action_allowed, deleted_message_from_translation, deleted_message_id};
use pods::volume_row::{end_box_revealed, name_markup, row_activation, show_details_enabled, RowActivation};
use pods::volume_slot::{SlotPlan, VolumeSlot};
use pods::volumes_group::{
    creation_visible, description_from_translation, description_kind, description_lookup, filter_accepts,
    header_suffix_visible, DescriptionKind, DescriptionLookup, SettingsKeySlot,
};

#[test]
fn fill_placeholders_in_order() {
    let args = vec!["12".to_string(), "3".to_string()];
    assert_eq!(fill_placeholders("{} volumes total,\u{2002}{} used", &args), "12 volumes total,\u{2002}3 used");
    assert_eq!(fill_placeholders("no placeholders", &args), "no placeholders");
    assert_eq!(fill_placeholders("{}{}{}", &args), "123{}");
    assert_eq!(fill_placeholders("{ } {", &args), "{ } {");
    assert_eq!(fill_placeholders("", &args), "");
    assert_eq!(fill_placeholders("ä{}ö", &vec!["ü".to_string()]), "äüö");
}

#[test]
fn description_kinds() {
    assert_eq!(description_kind(0, 0), DescriptionKind::NoVolumes);
    assert_eq!(description_kind(0, 5), DescriptionKind::NoVolumes);
    assert_eq!(description_kind(1, 1), DescriptionKind::OneUsed);
    assert_eq!(description_kind(1, 0), DescriptionKind::OneStopped);
    assert_eq!(description_kind(1, 2), DescriptionKind::OneStopped);
    assert_eq!(description_kind(2, 0), DescriptionKind::Total);
    assert_eq!(description_kind(u32::MAX, 7), DescriptionKind::Total);
}

#[test]
fn description_from_translations() {
    let label = Some("No volumes".to_string());
    assert_eq!(description_from_translation(0, 0, label.clone(), "ignored".to_string()), label);
    assert_eq!(description_from_translation(0, 0, None, "ignored".to_string()), None);
    assert_eq!(
        description_from_translation(1, 1, None, "1 Volume, benutzt".to_string()),
        Some("1 Volume, benutzt".to_string())
    );
    assert_eq!(
        description_from_translation(12, 3, None, "{} volumes total,\u{2002}{} used".to_string()),
        Some("12 volumes total,\u{2002}3 used".to_string())
    );
    assert_eq!(
        description_from_translation(4294967295, 0, None, "{}/{}".to_string()),
        Some("4294967295/0".to_string())
    );
}

#[test]
fn description_lookups() {
    assert_eq!(description_lookup(0, 0), DescriptionLookup::Label);
    assert_eq!(description_lookup(1, 1), DescriptionLookup::Gettext("1 volume, used"));
    assert_eq!(description_lookup(1, 0), DescriptionLookup::Gettext("1 volume, stopped"));
    assert_eq!(
        description_lookup(7, 2),
        DescriptionLookup::Ngettext {
            msgid: "{} volumes total,\u{2002}{} used",
            msgid_plural: "{} volumes total,\u{2002}{} used",
            n: 7,
        }
    );
}

/// The description as it reads where no translation is loaded: each message
/// stands for itself.
fn untranslated(len: u32, used: u32, label: Option<String>) -> Option<String> {
    let translated = match description_lookup(len, used) {
        DescriptionLookup::Label => String::new(),
        DescriptionLookup::Gettext(id) => id.to_string(),
        DescriptionLookup::Ngettext { msgid, .. } => msgid.to_string(),
    };
    description_from_translation(len, used, label, translated)
}

#[test]
fn description_untranslated() {
    let label = Some("Nothing here".to_string());
    assert_eq!(untranslated(0, 0, label.clone()), label);
    assert_eq!(untranslated(0, 0, None), None);
    assert_eq!(untranslated(1, 1, None), Some("1 volume, used".to_string()));
    assert_eq!(untranslated(1, 0, None), Some("1 volume, stopped".to_string()));
    assert_eq!(untranslated(5, 2, None), Some("5 volumes total,\u{2002}2 used".to_string()));
}

#[test]
fn group_visibility_and_filter() {
    assert!(!header_suffix_visible(0));
    assert!(header_suffix_visible(1));
    assert!(creation_visible(false));
    assert!(!creation_visible(true));
    assert!(filter_accepts(false, false));
    assert!(filter_accepts(true, true));
    assert!(!filter_accepts(true, false));
}

#[test]
fn settings_key_slot_reports_changes() {
    let mut slot = SettingsKeySlot::new();
    assert_eq!(slot.key(), "");
    assert!(!slot.set(String::new()));
    assert!(slot.set("show-only-used-volumes".to_string()));
    assert_eq!(slot.key(), "show-only-used-volumes");
    assert!(!slot.set("show-only-used-volumes".to_string()));
    assert!(slot.set("other".to_string()));
    assert_eq!(slot.key(), "other");
}

#[test]
fn row_label_markup() {
    assert_eq!(name_markup("a1b2c3", false), "a1b2c3");
    assert_eq!(name_markup("a1b2c3", true), "<s>a1b2c3</s>");
    assert_eq!(name_markup("", true), "<s></s>");
}

#[test]
fn row_activation_choices() {
    assert_eq!(row_activation(false, Some(true)), RowActivation::Nothing);
    assert_eq!(row_activation(false, None), RowActivation::Nothing);
    assert_eq!(row_activation(true, Some(true)), RowActivation::Select);
    assert_eq!(row_activation(true, Some(false)), RowActivation::ShowDetails);
    assert_eq!(row_activation(true, None), RowActivation::ShowDetails);
}

#[test]
fn row_controls() {
    assert!(show_details_enabled(false));
    assert!(!show_details_enabled(true));
    assert!(end_box_revealed(false));
    assert!(!end_box_revealed(true));
}

#[test]
fn volume_slot_plans() {
    let mut slot = VolumeSlot::new();
    assert_eq!(slot.volume(), None);
    assert_eq!(slot.plan_set(None), SlotPlan::Keep);
    assert_eq!(slot.plan_set(Some(4)), SlotPlan::Replace { release: None, attach: true });
    slot.commit(Some(4), Some(40));
    assert_eq!(slot.volume(), Some(4));
    assert_eq!(slot.plan_set(Some(4)), SlotPlan::Keep);
    assert_eq!(slot.plan_set(Some(5)), SlotPlan::Replace { release: Some(40), attach: true });
    assert_eq!(slot.plan_set(None), SlotPlan::Replace { release: Some(40), attach: false });
    slot.commit(None, None);
    assert_eq!(slot.plan_set(None), SlotPlan::Keep);
    slot.commit(Some(6), Some(60));
    slot.volume_gone();
    assert_eq!(slot.volume(), None);
    assert_eq!(slot.plan_set(None), SlotPlan::Keep);
    assert_eq!(slot.plan_set(Some(6)), SlotPlan::Replace { release: None, attach: true });
}

#[test]
fn details_page_actions_and_notice() {
    assert!(action_allowed(false));
    assert!(!action_allowed(true));
    assert_eq!(
        deleted_message_from_translation("Volume '{}' has been deleted", "data".to_string()),
        "Volume 'data' has been deleted"
    );
    assert_eq!(
        deleted_message_from_translation("Le volume « {} » a été supprimé", "data".to_string()),
        "Le volume « data » a été supprimé"
    );
    assert_eq!(deleted_message_id(), "Volume '{}' has been deleted");
    assert_eq!(
        deleted_message_from_translation(deleted_message_id(), "data".to_string()),
        "Volume 'data' has been deleted"
    );
}
