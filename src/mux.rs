//! The order in which a container writer must be driven.

use crate::error::Error;
use vstd::prelude::*;

verus! {

/// Where a container writer stands.
#[derive(Debug, Clone, Copy, PartialEq, Eq, Structural)]
pub enum MuxPhase {
    /// Opened; stream parameters and metadata may still change.
    Open,
    /// The header is written; packets may follow.
    HeaderWritten,
    /// The trailer is written; the file is complete.
    Closed,
}

/// The writer's protocol state: metadata once and before the header, the
/// header once, packets between header and trailer, the trailer last.
#[derive(Debug, Clone, Copy, PartialEq, Eq, Structural)]
pub struct MuxState {
    pub phase: MuxPhase,
    pub metadata_set: bool,
}

impl MuxState {
    /// A freshly opened writer.
    pub open spec fn spec_new() -> MuxState {
        MuxState { phase: MuxPhase::Open, metadata_set: false }
    }

    /// A freshly opened writer.
    pub fn new() -> (r: MuxState)
        ensures
            r == MuxState::spec_new(),
    {
        MuxState { phase: MuxPhase::Open, metadata_set: false }
    }

    /// Records that the metadata dictionary is set. Allowed once, before the
    /// header; otherwise `WriterMisuse` and nothing changes.
    pub fn set_metadata(&mut self) -> (r: Result<(), Error>)
        ensures
            r.is_ok() <==> (old(self).phase == MuxPhase::Open && !old(self).metadata_set),
            r.is_ok() ==> *final(self) == (MuxState { metadata_set: true, ..*old(self) }),
            r.is_err() ==> r == Err::<(), Error>(Error::WriterMisuse) && *final(self) == *old(
                self,
            ),
    {
        if self.phase == MuxPhase::Open && !self.metadata_set {
            self.metadata_set = true;
            Ok(())
        } else {
            Err(Error::WriterMisuse)
        }
    }

    /// Records that the header is written. Allowed once, while open;
    /// otherwise `WriterMisuse` and nothing changes.
    pub fn write_header(&mut self) -> (r: Result<(), Error>)
        ensures
            r.is_ok() <==> old(self).phase == MuxPhase::Open,
            r.is_ok() ==> *final(self) == (MuxState {
                phase: MuxPhase::HeaderWritten,
                ..*old(self)
            }),
            r.is_err() ==> r == Err::<(), Error>(Error::WriterMisuse) && *final(self) == *old(
                self,
            ),
    {
        if self.phase == MuxPhase::Open {
            self.phase = MuxPhase::HeaderWritten;
            Ok(())
        } else {
            Err(Error::WriterMisuse)
        }
    }

    /// Checks that a packet may be written now: after the header and before
    /// the trailer. `WriterMisuse` otherwise. The state does not change.
    pub fn write_packet(&self) -> (r: Result<(), Error>)
        ensures
            r.is_ok() <==> self.phase == MuxPhase::HeaderWritten,
            r.is_err() ==> r == Err::<(), Error>(Error::WriterMisuse),
    {
        if self.phase == MuxPhase::HeaderWritten {
            Ok(())
        } else {
            Err(Error::WriterMisuse)
        }
    }

    /// Records that the trailer is written. Allowed once, after the header;
    /// otherwise `WriterMisuse` and nothing changes.
    pub fn write_trailer(&mut self) -> (r: Result<(), Error>)
        ensures
            r.is_ok() <==> old(self).phase == MuxPhase::HeaderWritten,
            r.is_ok() ==> *final(self) == (MuxState { phase: MuxPhase::Closed, ..*old(self) }),
            r.is_err() ==> r == Err::<(), Error>(Error::WriterMisuse) && *final(self) == *old(
                self,
            ),
    {
        if self.phase == MuxPhase::HeaderWritten {
            self.phase = MuxPhase::Closed;
            Ok(())
        } else {
            Err(Error::WriterMisuse)
        }
    }
}

} // verus!
