//! Model and presentation logic of the volume views of Pods, a podman front end:
//! the list of volumes keyed by name, and the decisions that the volume widgets take.

pub mod i18n;
pub mod index_map;
pub mod volume_details;
pub mod volume_list;
pub mod volume_row;
pub mod volume_slot;
pub mod volumes_group;
