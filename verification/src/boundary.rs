//! The boundary layer: opaque handle lifetime and input validation.
//!
//! Sessions live behind opaque handles.  The table here tracks ownership:
//! installing a session issues a fresh handle, destroying a handle releases
//! its session exactly once, and an absent handle is tolerated as a no-op.
//! Every segmentation request is validated here before any pipeline work,
//! and each rejected input maps to its own error code.

use vstd::prelude::*;
use vstd::pervasive::VecAdditionalExecFns;

use crate::errors::SegmentImageError;
use crate::pipeline::ImageBuffer;
use crate::session::Session;

verus! {

/// The boundary layer's ownership-tracked table of sessions.
///
/// A handle is the index of the slot its session was installed in.  A live
/// slot holds its session; destroying a handle empties the slot.  Slots are
/// never reused, so a handle never changes meaning across the table's life.
pub struct SessionTable {
    slots: Vec<Option<Session>>,
}

impl View for SessionTable {
    type V = Seq<Option<Session>>;

    closed spec fn view(&self) -> Seq<Option<Session>> {
        self.slots@
    }
}

impl SessionTable {
    /// Whether `h` names a slot that still holds its session.
    pub open spec fn spec_is_live(self, h: int) -> bool {
        0 <= h < self@.len() && self@[h] is Some
    }

    /// An empty table: no handle has ever been issued.
    pub fn new() -> (t: SessionTable)
        ensures
            t@.len() == 0,
    {
        SessionTable { slots: Vec::new() }
    }

    /// Installs a session behind a fresh opaque handle.  Handles issued
    /// earlier keep their meaning; the new handle is live.
    pub fn install(&mut self, s: Session) -> (h: usize)
        ensures
            final(self)@ == old(self)@.push(Some(s)),
            h == old(self)@.len(),
            final(self).spec_is_live(h as int),
    {
        let h = self.slots.len();
        self.slots.push(Some(s));
        h
    }

    /// Destroys the session behind a handle.
    ///
    /// An absent handle is a no-op and does not fault.  A live handle's
    /// slot is emptied — the session is released exactly once — and every
    /// other slot is untouched.  Handing back a handle that was already
    /// destroyed is the one thing a caller must never do: the contract is
    /// single destruction, so a present handle must still be live.
    pub fn destroy(&mut self, h: Option<usize>)
        requires
            h is Some ==> old(self).spec_is_live(h->0 as int),
        ensures
            h is None ==> final(self)@ == old(self)@,
            h is Some ==> final(self)@ == old(self)@.update(h->0 as int, None),
            final(self)@.len() == old(self)@.len(),
    {
        match h {
            None => (),
            Some(i) => {
                self.slots.set(i, None);
            },
        }
    }

    /// Borrows the session behind a handle, if that handle is live.
    pub fn get(&self, h: usize) -> (r: Option<&Session>)
        ensures
            r is Some <==> self.spec_is_live(h as int),
            r is Some ==> *r->0 == self@[h as int]->0,
    {
        if h < self.slots.len() {
            match &self.slots[h] {
                Some(s) => Some(s),
                None => None,
            }
        } else {
            None
        }
    }
}

/// Validates one segmentation request at the boundary before any pipeline
/// work runs.
///
/// The checks run in a fixed order: an absent handle is refused as
/// `NoRunner`; then an absent image is refused as `InvalidInput`; then a
/// handle whose session is gone is refused as `NoRunner`.  Only a live
/// session with a present image is handed on, both borrowed and untouched —
/// the image stays owned by the caller throughout.
pub fn validate_segment_request<'a>(
    table: &'a SessionTable,
    handle: Option<usize>,
    image: Option<&'a ImageBuffer>,
) -> (r: Result<(&'a Session, &'a ImageBuffer), SegmentImageError>)
    ensures
        handle is None ==> r is Err && r->Err_0 == SegmentImageError::NoRunner,
        handle is Some && image is None ==> r is Err && r->Err_0
            == SegmentImageError::InvalidInput,
        handle is Some && image is Some && !table.spec_is_live(handle->0 as int) ==> r is Err
            && r->Err_0 == SegmentImageError::NoRunner,
        r is Ok <==> (handle is Some && image is Some && table.spec_is_live(handle->0 as int)),
        r is Ok ==> *(r->Ok_0.0) == table@[handle->0 as int]->0 && r->Ok_0.1 == image->0,
{
    let h = match handle {
        Some(h) => h,
        None => {
            return Err(SegmentImageError::NoRunner);
        },
    };
    let img = match image {
        Some(m) => m,
        None => {
            return Err(SegmentImageError::InvalidInput);
        },
    };
    match table.get(h) {
        Some(s) => Ok((s, img)),
        None => Err(SegmentImageError::NoRunner),
    }
}

} // verus!
