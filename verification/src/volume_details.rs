//! The decisions of a volume's details page.

use vstd::prelude::*;
use crate::i18n::{fill_placeholders, filled};

verus! {

/// The page runs one of its actions only while no other page lies over it.
pub fn action_allowed(overlay_has_child: bool) -> (allowed: bool)
    ensures
        allowed == !overlay_has_child,
{
    !overlay_has_child
}

/// The notice that the volume `name` has been deleted, from the translated
/// message `translated`: its placeholder filled with the name.
pub fn deleted_message_from_translation(translated: &str, name: String) -> (message: String)
    ensures
        message@ == filled(translated@, seq![name@]),
{
    let args = vec![name];
    let message = fill_placeholders(translated, &args);
    proof {
        assert(args@.map_values(|a: String| a@) =~= seq![args@[0]@]);
    }
    message
}

/// The message looked up for the notice that a volume has been deleted.
pub fn deleted_message_id() -> (id: &'static str)
    ensures
        id@ == "Volume '{}' has been deleted"@,
{
    "Volume '{}' has been deleted"
}

} // verus!
