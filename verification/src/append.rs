//! The append write driver: it queries the object's current length once,
//! then issues each append at the offset it tracks locally, trusting its
//! own bookkeeping between calls — an offset the service disagrees with
//! comes back as a conflict from the service, never from the driver.
//!
//! The backend's ghost call history records every call with its values
//! and outcome, so the driver's contracts state that each chunk goes
//! out in exactly one append, unmodified, at the tracked offset, and
//! that no re-query happens once an offset is tracked.

use vstd::prelude::*;

use crate::error::{ErrorKind, ObsError};
use crate::oio::{AppendCall, AppendObjectWrite};

verus! {

/// The append driver over an append-capable backend `W`.
pub struct AppendObjectWriter<W> {
    pub w: W,
    /// The object length this driver believes, once it has queried it:
    /// the offset the next append will be issued at.
    pub tracked_offset: Option<u64>,
}

impl<W: AppendObjectWrite> AppendObjectWriter<W> {
    /// What a `write` call leaves behind, for each outcome the network
    /// allows.  With an offset already tracked, exactly one append is
    /// issued — at that offset, with the chunk's own bytes, no re-query
    /// — and its outcome is surfaced; success advances the offset by
    /// the chunk length, failure leaves it untouched.  With no offset
    /// tracked yet, one query runs first, and the queried length is
    /// kept whatever follows.
    pub open spec fn write_post(
        pre: Self,
        post: Self,
        chunk: Seq<u8>,
        r: Result<(), ObsError>,
    ) -> bool {
        &&& (r is Ok ==> post.tracked_offset is Some)
        &&& (pre.tracked_offset is Some ==> {
            let off = pre.tracked_offset->0;
            &&& post.w.log() == pre.w.log().push(
                (AppendCall::Append { offset: off, size: chunk.len() as u64, body: chunk, outcome: r }),
            )
            &&& (r is Ok ==> post.tracked_offset == Some((off + chunk.len()) as u64))
            &&& (r is Err ==> post.tracked_offset == pre.tracked_offset)
        })
        &&& (pre.tracked_offset is None ==> {
            ||| (r is Err && post.tracked_offset is None && post.w.log() == pre.w.log().push(
                (AppendCall::OffsetQuery { outcome: Err(r->Err_0) }),
            ))
            ||| (r is Err && post.tracked_offset is Some && {
                let q = post.tracked_offset->0;
                ||| (q + chunk.len() > u64::MAX && r->Err_0.kind == ErrorKind::InvariantViolation
                    && r->Err_0.message@ == "offset overflows the representable length"@
                    && post.w.log() == pre.w.log().push(
                    (AppendCall::OffsetQuery { outcome: Ok(q) }),
                ))
                ||| (q + chunk.len() <= u64::MAX && post.w.log() == pre.w.log() + seq![
                    (AppendCall::OffsetQuery { outcome: Ok(q) }),
                    (AppendCall::Append {
                        offset: q,
                        size: chunk.len() as u64,
                        body: chunk,
                        outcome: Err(r->Err_0),
                    }),
                ])
            })
            ||| (r is Ok && post.tracked_offset is Some && {
                let q = (post.tracked_offset->0 - chunk.len()) as u64;
                post.w.log() == pre.w.log() + seq![
                    (AppendCall::OffsetQuery { outcome: Ok(q) }),
                    (AppendCall::Append {
                        offset: q,
                        size: chunk.len() as u64,
                        body: chunk,
                        outcome: r,
                    }),
                ]
            })
        })
    }

    /// A fresh writer; the offset is initialized lazily, by the first
    /// `write`.
    pub fn new(w: W) -> (s: Self)
        ensures
            s.tracked_offset is None,
            s.w == w,
    {
        AppendObjectWriter { w, tracked_offset: None }
    }

    /// Appends `chunk` at the tracked offset, querying the object's
    /// current length first if no offset is tracked yet.  Exactly one
    /// append request carries the chunk, unmodified, at that offset;
    /// between appends the driver trusts its own bookkeeping and never
    /// re-queries.  Success advances the tracked offset by exactly the
    /// bytes written; any failure leaves it at the length the service
    /// last confirmed, so a rejected append never corrupts it.
    pub fn write(&mut self, chunk: Vec<u8>) -> (r: Result<(), ObsError>)
        requires
            old(self).tracked_offset is Some ==> old(self).tracked_offset->0 + chunk@.len()
                <= u64::MAX,
        ensures
            Self::write_post(*old(self), *final(self), chunk@, r),
    {
        let ghost chunk0 = chunk@;
        match self.tracked_offset {
            Some(off) => {
                let len = chunk.len() as u64;
                let res = self.w.append(off, len, chunk);
                if res.is_ok() {
                    self.tracked_offset = Some(off + len);
                }
                res
            },
            None => {
                let off = match self.w.offset() {
                    Ok(o) => {
                        self.tracked_offset = Some(o);
                        o
                    },
                    Err(e) => {
                        return Err(e);
                    },
                };
                let len = chunk.len() as u64;
                if off > u64::MAX - len {
                    // A payload this long cannot exist; the queried
                    // length and the chunk together overflow the offset
                    // range.
                    return Err(ObsError::invariant_violation(
                        "offset overflows the representable length",
                    ));
                }
                let res = self.w.append(off, len, chunk);
                proof {
                    assert(self.w.log() =~= old(self).w.log() + seq![
                        (AppendCall::OffsetQuery { outcome: Ok(off) }),
                        (AppendCall::Append { offset: off, size: len, body: chunk0, outcome: res }),
                    ]);
                }
                if res.is_ok() {
                    self.tracked_offset = Some(off + len);
                }
                res
            },
        }
    }

    /// Closing an append writer is a success with nothing to do: there
    /// is no finalization protocol.
    pub fn close(&mut self) -> (r: Result<(), ObsError>)
        ensures
            r is Ok,
            *final(self) == *old(self),
    {
        Ok(())
    }
}

} // verus!
