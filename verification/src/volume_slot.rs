//! The volume that a widget shows, together with what the widget attached to
//! it (a property binding, or a signal handler): attached while a volume is
//! shown, released when the widget turns to another volume.
//!
//! Volumes and attachments are known here by handles that the caller assigns.

use vstd::prelude::*;

verus! {

/// What setting a widget's volume calls for.
#[derive(Clone, Copy, Debug, PartialEq, Eq)]
pub enum SlotPlan {
    /// The widget shows that volume already: nothing is done.
    Keep,
    /// The widget turns to another volume: `release` is the attachment to undo,
    /// if any, and `attach` says whether the new volume needs one.
    Replace { release: Option<u64>, attach: bool },
}

/// The shown volume and its attachment.
pub struct VolumeSlot {
    volume: Option<u64>,
    attachment: Option<u64>,
}

impl VolumeSlot {
    /// The volume shown.
    pub closed spec fn spec_volume(&self) -> Option<u64> {
        self.volume
    }

    /// The attachment to the volume shown.
    pub closed spec fn spec_attachment(&self) -> Option<u64> {
        self.attachment
    }

    /// An attachment is held exactly while a volume is shown.
    pub open spec fn wf(&self) -> bool {
        self.spec_volume().is_some() == self.spec_attachment().is_some()
    }

    /// A slot that shows no volume.
    pub fn new() -> (slot: Self)
        ensures
            slot.wf(),
            slot.spec_volume() is None,
    {
        VolumeSlot { volume: None, attachment: None }
    }

    /// The volume shown.
    pub fn volume(&self) -> (v: Option<u64>)
        ensures
            v == self.spec_volume(),
    {
        self.volume
    }

    /// What turning to `requested` calls for: nothing where it is the volume
    /// shown; otherwise the release of the current attachment, which a slot
    /// showing a volume always has, and an attachment for a new volume.
    pub fn plan_set(&self, requested: Option<u64>) -> (plan: SlotPlan)
        requires
            self.wf(),
        ensures
            requested == self.spec_volume() ==> plan == SlotPlan::Keep,
            requested != self.spec_volume() ==> plan == (SlotPlan::Replace {
                release: self.spec_attachment(),
                attach: requested is Some,
            }),
            self.spec_volume() is Some && requested != self.spec_volume() ==> plan matches SlotPlan::Replace { release: Some(_), .. },
    {
        if self.volume == requested {
            SlotPlan::Keep
        } else {
            SlotPlan::Replace { release: self.attachment, attach: requested.is_some() }
        }
    }

    /// The volume shown has gone away (its object no longer exists): the slot
    /// shows no volume, and the attachment is dropped with the volume.
    pub fn volume_gone(&mut self)
        ensures
            final(self).wf(),
            final(self).spec_volume() is None,
    {
        self.volume = None;
        self.attachment = None;
    }

    /// Shows `requested`, with `attachment` made for it.
    pub fn commit(&mut self, requested: Option<u64>, attachment: Option<u64>)
        requires
            requested.is_some() == attachment.is_some(),
        ensures
            final(self).wf(),
            final(self).spec_volume() == requested,
            final(self).spec_attachment() == attachment,
    {
        self.volume = requested;
        self.attachment = attachment;
    }
}

} // verus!
