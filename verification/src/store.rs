//! The shared record: the one lyrics value that every caller reads and
//! replaces.

use crate::payload::{LyricsPayload, PayloadView};
use vstd::prelude::*;

verus! {

/// Holder of the current lyrics record.
///
/// A store is owned by whoever guards it. Exclusive access (`&mut`) stands for
/// holding the guard, so two replacements never overlap: one is applied in
/// full before the next begins.
#[derive(Debug)]
pub struct Store {
    current: LyricsPayload,
}

impl View for Store {
    type V = PayloadView;

    closed spec fn view(&self) -> PayloadView {
        self.current@
    }
}

/// The record after a replacement: the new value, whole. Nothing of the
/// record that stood before enters into it.
pub open spec fn replaced(before: PayloadView, new: PayloadView) -> PayloadView {
    new
}

impl Store {
    /// A store holding the empty record.
    pub fn new() -> (res: Store)
        ensures
            res@ == PayloadView::empty(),
    {
        Store { current: LyricsPayload::default() }
    }

    /// A full copy of the current record.
    pub fn get(&self) -> (res: LyricsPayload)
        ensures
            res@ == self@,
    {
        self.current.clone()
    }

    /// Overwrites the whole record with `new` and returns a copy of what is
    /// now stored. Nothing of the earlier record survives.
    pub fn replace(&mut self, new: LyricsPayload) -> (res: LyricsPayload)
        ensures
            final(self)@ == replaced(old(self)@, new@),
            res@ == final(self)@,
    {
        let stored = new.clone();
        self.current = new;
        stored
    }
}

impl Default for Store {
    fn default() -> (res: Store)
        ensures
            res@ == PayloadView::empty(),
    {
        Store::new()
    }
}

} // verus!
