//! The multipart upload driver: a state machine that either sends a
//! small payload of known size as one direct request, or sequences the
//! initiate, part-upload, complete and abort steps of the multipart
//! protocol.
//!
//! The backend's ghost call history records every call with its payload
//! and outcome, so the driver's contracts state exactly which requests
//! each operation produces and with which bytes: a payload below the
//! threshold leads to exactly one direct upload carrying the whole
//! buffer and no session; each chunk goes out as one part with the
//! chunk's own bytes; a part-upload failure surfaces that call's own
//! error after an abort, and never a completion.

use vstd::prelude::*;

use crate::error::ObsError;
use crate::oio::{BackendCall, MultipartUploadPart, MultipartUploadWrite};

verus! {

/// The protocol position of a multipart writer.
#[derive(Clone, Copy, Debug, PartialEq, Eq, Structural)]
pub enum MultipartState {
    /// Nothing has been issued yet; in direct mode the payload is
    /// buffered here until `close`.
    Idle,
    /// A session is open and parts are accumulating.
    InProgress,
    /// Terminal: the payload went out as one direct upload.
    Done,
    /// Terminal: the session was completed.
    Completed,
    /// Terminal: the writer was aborted, or spent by a failed attempt.
    Aborted,
}

/// The multipart upload driver over a multipart-capable backend `W`.
pub struct MultipartUploadWriter<W> {
    pub w: W,
    /// Payloads of known size below this threshold go out as one direct
    /// upload; everything else takes the multipart path.
    pub threshold: u64,
    /// The total payload size, where the caller declared one.
    pub content_length: Option<u64>,
    /// The buffered payload of the direct path.
    pub buf: Vec<u8>,
    /// The session id, once a session is open (kept on failure too, so
    /// the contracts can name the session that was released).
    pub upload_id: Option<String>,
    /// The parts uploaded so far, in upload order, as the backend
    /// reported them.
    pub parts: Vec<MultipartUploadPart>,
    pub state: MultipartState,
    /// The backend's call history as it stood at construction; calls
    /// after this point are this writer's own.
    pub base: Ghost<Seq<BackendCall>>,
}

/// Whether `c` records the upload of `p`: part `j` (zero-based) of
/// session `uid`, whose reported descriptor is exactly `p`.
pub open spec fn part_record_for(c: BackendCall, uid: Seq<char>, j: int, p: MultipartUploadPart) -> bool {
    c matches BackendCall::UploadPart { upload_id, part_number, size, body, outcome }
        && upload_id == uid && part_number == j && body.len() == size && outcome == Ok::<
        MultipartUploadPart,
        ObsError,
    >(p)
}

/// Whether `c` records a failed completion attempt of session `uid`
/// with manifest `m`.
pub open spec fn failed_complete_record(c: BackendCall, uid: Seq<char>, m: Seq<MultipartUploadPart>) -> bool {
    c matches BackendCall::Complete { upload_id, manifest, outcome }
        && upload_id == uid && manifest == m && outcome is Err
}

/// Whether `c` records an abort of session `uid`, with any outcome.
pub open spec fn abort_record_for(c: BackendCall, uid: Seq<char>) -> bool {
    c matches BackendCall::Abort { upload_id, outcome: _ } && upload_id == uid
}

impl<W: MultipartUploadWrite> MultipartUploadWriter<W> {
    /// Whether the declared size selects the single-request direct path.
    pub open spec fn direct_mode(self) -> bool {
        self.content_length is Some && self.content_length->0 < self.threshold
    }

    pub open spec fn is_terminal(self) -> bool {
        self.state is Done || self.state is Completed || self.state is Aborted
    }

    /// The calls this writer itself has issued.
    pub open spec fn issued(self) -> Seq<BackendCall> {
        self.w.calls().skip(self.base@.len() as int)
    }

    /// While a session is open, the writer's own call history is
    /// exactly one successful initiate followed by one successful part
    /// upload per recorded part, in order — each carrying that chunk's
    /// bytes and reporting the stored descriptor — possibly followed by
    /// failed completion attempts of the full manifest.
    pub open spec fn session_history(self) -> bool {
        &&& self.w.calls().len() >= self.base@.len() + 1 + self.parts@.len()
        &&& self.w.calls()[self.base@.len() as int] == (BackendCall::Initiate {
            outcome: Ok(self.upload_id->0),
        })
        &&& (forall|j: int|
            0 <= j < self.parts@.len() ==> part_record_for(
                #[trigger] self.w.calls()[self.base@.len() + 1 + j],
                self.upload_id->0@,
                j,
                self.parts@[j],
            ))
        &&& (forall|k: int|
            self.base@.len() + 1 + self.parts@.len() <= k < self.w.calls().len()
                ==> failed_complete_record(
                #[trigger] self.w.calls()[k],
                self.upload_id->0@,
                self.parts@,
            ))
    }

    /// Whether the open session has no failed completion attempt yet,
    /// so that further parts would stay contiguous on the history.
    pub open spec fn session_clean(self) -> bool {
        self.w.calls().len() == self.base@.len() + 1 + self.parts@.len()
    }

    /// Well-formedness: part numbers are contiguous from 1, a session id
    /// exists exactly while a session is open and its history is the
    /// session's own calls, nothing is issued while idle, and in direct
    /// mode every issued call is a direct upload.
    pub open spec fn inv(self) -> bool {
        &&& self.base@.is_prefix_of(self.w.calls())
        &&& (self.state is Idle ==> self.upload_id is None && self.parts@.len() == 0
            && self.w.calls() == self.base@)
        &&& (self.state is InProgress ==> self.upload_id is Some && !self.direct_mode()
            && self.session_history())
        &&& self.parts@.len() <= 10000
        &&& (forall|i: int|
            0 <= i < self.parts@.len() ==> #[trigger] self.parts@[i].part_number == i + 1)
        &&& (!self.direct_mode() ==> self.buf@.len() == 0)
        &&& (self.direct_mode() ==> self.parts@.len() == 0 && self.upload_id is None
            && self.buf@.len() <= self.content_length->0 && !(self.state is InProgress) && !(
            self.state is Completed) && (forall|i: int|
            self.base@.len() <= i < self.w.calls().len() ==> (#[trigger] self.w.calls()[i])
                is Direct))
    }

    /// What a `write` call leaves behind, for each outcome the network
    /// allows: which backend calls were issued, with the chunk's own
    /// bytes, and whose error surfaced.
    pub open spec fn write_post(
        pre: Self,
        post: Self,
        chunk: Seq<u8>,
        r: Result<(), ObsError>,
    ) -> bool {
        &&& post.threshold == pre.threshold
        &&& post.content_length == pre.content_length
        &&& post.base == pre.base
        &&& (pre.direct_mode() ==> r is Ok && post.state == pre.state && post.buf@ == pre.buf@
            + chunk && post.w == pre.w && post.parts@ == pre.parts@ && post.upload_id
            == pre.upload_id)
        &&& (pre.state is Idle && !pre.direct_mode() ==> {
            ||| (r is Err && post.state is Aborted && post.upload_id is None && post.parts@
                == pre.parts@ && post.w.calls() == pre.w.calls().push(
                (BackendCall::Initiate { outcome: Err(r->Err_0) }),
            ))
            ||| (r is Ok && post.state is InProgress && post.upload_id is Some && post.parts@.len()
                == 1 && post.parts@[0].part_number == 1 && post.w.calls() == pre.w.calls() + seq![
                (BackendCall::Initiate { outcome: Ok(post.upload_id->0) }),
                (BackendCall::UploadPart {
                    upload_id: post.upload_id->0@,
                    part_number: 0,
                    size: chunk.len() as u64,
                    body: chunk,
                    outcome: Ok(post.parts@[0]),
                }),
            ])
            ||| (r is Err && post.state is Aborted && post.upload_id is Some && post.parts@
                == pre.parts@ && post.w.calls().len() == pre.w.calls().len() + 3
                && post.w.calls().subrange(0, pre.w.calls().len() + 2 as int) == pre.w.calls() + seq![
                (BackendCall::Initiate { outcome: Ok(post.upload_id->0) }),
                (BackendCall::UploadPart {
                    upload_id: post.upload_id->0@,
                    part_number: 0,
                    size: chunk.len() as u64,
                    body: chunk,
                    outcome: Err(r->Err_0),
                }),
            ] && abort_record_for(post.w.calls().last(), post.upload_id->0@))
        })
        &&& (pre.state is InProgress ==> {
            ||| (r is Ok && post.state is InProgress && post.upload_id == pre.upload_id
                && post.parts@.len() == pre.parts@.len() + 1 && post.parts@.drop_last()
                == pre.parts@ && post.parts@.last().part_number == pre.parts@.len() + 1
                && post.w.calls() == pre.w.calls().push(
                (BackendCall::UploadPart {
                    upload_id: pre.upload_id->0@,
                    part_number: pre.parts@.len() as usize,
                    size: chunk.len() as u64,
                    body: chunk,
                    outcome: Ok(post.parts@.last()),
                }),
            ))
            ||| (r is Err && post.state is Aborted && post.upload_id == pre.upload_id
                && post.parts@ == pre.parts@ && post.w.calls().len() == pre.w.calls().len() + 2
                && post.w.calls().subrange(0, pre.w.calls().len() + 1 as int) == pre.w.calls().push(
                (BackendCall::UploadPart {
                    upload_id: pre.upload_id->0@,
                    part_number: pre.parts@.len() as usize,
                    size: chunk.len() as u64,
                    body: chunk,
                    outcome: Err(r->Err_0),
                }),
            ) && abort_record_for(post.w.calls().last(), pre.upload_id->0@))
        })
    }

    /// What a `close` call leaves behind: with no session open, exactly
    /// one direct upload carrying the whole buffered payload, with the
    /// call's own outcome surfaced; with a session open, exactly one
    /// completion of the recorded manifest.
    pub open spec fn close_post(pre: Self, post: Self, r: Result<(), ObsError>) -> bool {
        &&& post.threshold == pre.threshold
        &&& post.content_length == pre.content_length
        &&& post.base == pre.base
        &&& (pre.state is Idle ==> post.parts@ == pre.parts@ && post.upload_id is None
            && post.buf@.len() == 0 && post.w.calls() == pre.w.calls().push(
            (BackendCall::Direct { size: pre.buf@.len() as u64, body: pre.buf@, outcome: r }),
        ) && (r is Ok <==> post.state is Done) && (r is Err ==> post.state is Aborted))
        &&& (pre.state is InProgress ==> post.parts@ == pre.parts@ && post.upload_id
            == pre.upload_id && post.buf@ == pre.buf@ && post.w.calls() == pre.w.calls().push(
            (BackendCall::Complete {
                upload_id: pre.upload_id->0@,
                manifest: pre.parts@,
                outcome: r,
            }),
        ) && (r is Ok <==> post.state is Completed) && (r is Err ==> post.state is InProgress) && (
        forall|i: int|
            0 <= i < post.parts@.len() ==> #[trigger] post.parts@[i].part_number == i + 1))
    }

    /// What an `abort` call leaves behind: one release of the open
    /// session, surfacing that call's own outcome, or nothing at all
    /// where no session exists.
    pub open spec fn abort_post(pre: Self, post: Self, r: Result<(), ObsError>) -> bool {
        &&& post.threshold == pre.threshold
        &&& post.content_length == pre.content_length
        &&& post.base == pre.base
        &&& post.state is Aborted
        &&& post.parts@ == pre.parts@
        &&& (pre.state is Idle ==> r is Ok && post.w == pre.w)
        &&& (pre.state is InProgress ==> post.upload_id == pre.upload_id && post.w.calls()
            == pre.w.calls().push(
            (BackendCall::Abort { upload_id: pre.upload_id->0@, outcome: r }),
        ))
    }
}

/// For any well-formed writer with k recorded parts, the completion
/// manifest it would send enumerates part numbers exactly 1 through k,
/// contiguous, in upload order — whatever zero-based numbering the
/// driver used internally.
pub proof fn lemma_manifest_part_numbers<W: MultipartUploadWrite>(m: MultipartUploadWriter<W>)
    requires
        m.inv(),
    ensures
        forall|i: int| 0 <= i < m.parts@.len() ==> #[trigger] m.parts@[i].part_number == i + 1,
{
}

/// In direct mode no session step is ever taken: every call a
/// well-formed direct-mode writer has issued is a direct upload, so
/// initiate, part upload and completion never happen there.
pub proof fn lemma_direct_mode_trace<W: MultipartUploadWrite>(m: MultipartUploadWriter<W>)
    requires
        m.inv(),
        m.direct_mode(),
    ensures
        forall|i: int| 0 <= i < m.issued().len() ==> (#[trigger] m.issued()[i]) is Direct,
{
}

impl<W: MultipartUploadWrite> MultipartUploadWriter<W> {
    /// A fresh writer around the backend `w`: nothing issued, nothing
    /// buffered.
    pub fn new(w: W, content_length: Option<u64>, threshold: u64) -> (s: Self)
        ensures
            s.inv(),
            s.state is Idle,
            s.w == w,
            s.base@ == s.w.calls(),
            s.content_length == content_length,
            s.threshold == threshold,
            s.buf@.len() == 0,
            s.parts@.len() == 0,
    {
        let base = Ghost(w.calls());
        MultipartUploadWriter {
            w,
            threshold,
            content_length,
            buf: Vec::new(),
            upload_id: None,
            parts: Vec::new(),
            state: MultipartState::Idle,
            base,
        }
    }

    /// Accepts the next sequential chunk.  In direct mode the chunk is
    /// buffered and nothing is issued; on the multipart path the first
    /// chunk opens the session and every chunk goes out, unmodified, as
    /// one part.  If a part upload fails, the session is released with a
    /// best-effort abort before that part upload's own error is
    /// returned, and the completion step can never be reached; the
    /// abort's outcome is deliberately discarded in favour of the
    /// originating error.
    pub fn write(&mut self, chunk: Vec<u8>) -> (r: Result<(), ObsError>)
        requires
            old(self).inv(),
            !old(self).is_terminal(),
            old(self).direct_mode() ==> old(self).buf@.len() + chunk@.len() <= old(
                self,
            ).content_length->0,
            !old(self).direct_mode() ==> old(self).parts@.len() < 10000,
            old(self).state is InProgress ==> old(self).session_clean(),
        ensures
            final(self).inv(),
            Self::write_post(*old(self), *final(self), chunk@, r),
    {
        let mut chunk = chunk;
        let direct = match self.content_length {
            Some(n) => n < self.threshold,
            None => false,
        };
        if direct {
            self.buf.append(&mut chunk);
            return Ok(());
        }
        match self.state {
            MultipartState::Idle => {
                let upload_id = match self.w.initiate_part() {
                    Err(e) => {
                        self.state = MultipartState::Aborted;
                        return Err(e);
                    },
                    Ok(id) => id,
                };
                let size = chunk.len() as u64;
                let ghost chunk0 = chunk@;
                match self.w.write_part(upload_id.as_str(), 0, size, chunk) {
                    Ok(part) => {
                        self.parts.push(part);
                        self.upload_id = Some(upload_id);
                        self.state = MultipartState::InProgress;
                        proof {
                            assert(self.w.calls() =~= old(self).w.calls() + seq![
                                (BackendCall::Initiate { outcome: Ok(self.upload_id->0) }),
                                (BackendCall::UploadPart {
                                    upload_id: self.upload_id->0@,
                                    part_number: 0,
                                    size: chunk0.len() as u64,
                                    body: chunk0,
                                    outcome: Ok(self.parts@[0]),
                                }),
                            ]);
                        }
                        Ok(())
                    },
                    Err(e) => {
                        let _ = self.w.abort_part(upload_id.as_str());
                        self.upload_id = Some(upload_id);
                        self.state = MultipartState::Aborted;
                        proof {
                            assert(self.w.calls().subrange(0, old(self).w.calls().len() + 2 as int)
                                =~= old(self).w.calls() + seq![
                                (BackendCall::Initiate { outcome: Ok(self.upload_id->0) }),
                                (BackendCall::UploadPart {
                                    upload_id: self.upload_id->0@,
                                    part_number: 0,
                                    size: chunk0.len() as u64,
                                    body: chunk0,
                                    outcome: Err(e),
                                }),
                            ]);
                        }
                        Err(e)
                    },
                }
            },
            MultipartState::InProgress => {
                let upload_id = match &self.upload_id {
                    Some(id) => id.clone(),
                    None => {
                        proof {
                            assert(false);
                        }
                        String::new()
                    },
                };
                let n = self.parts.len();
                let size = chunk.len() as u64;
                let ghost chunk0 = chunk@;
                match self.w.write_part(upload_id.as_str(), n, size, chunk) {
                    Ok(part) => {
                        self.parts.push(part);
                        proof {
                            assert(self.parts@.drop_last() =~= old(self).parts@);
                        }
                        Ok(())
                    },
                    Err(e) => {
                        let _ = self.w.abort_part(upload_id.as_str());
                        self.state = MultipartState::Aborted;
                        proof {
                            assert(self.w.calls().subrange(0, old(self).w.calls().len() + 1 as int)
                                =~= old(self).w.calls().push(
                                (BackendCall::UploadPart {
                                    upload_id: old(self).upload_id->0@,
                                    part_number: old(self).parts@.len() as usize,
                                    size: chunk0.len() as u64,
                                    body: chunk0,
                                    outcome: Err(e),
                                }),
                            ));
                        }
                        Err(e)
                    },
                }
            },
            _ => {
                proof {
                    assert(false);
                }
                Ok(())
            },
        }
    }

    /// Finalizes the write.  With no session open, the buffered payload
    /// (the whole payload in direct mode; empty otherwise) goes out as
    /// exactly one direct upload whose body is that buffer, and no
    /// session call is ever issued.  With a session open, the
    /// completion step is called once with the manifest of all recorded
    /// parts, whose numbers are contiguous from 1 in upload order; a
    /// completion failure surfaces that call's own error and leaves the
    /// remote session partial — the driver neither retries nor aborts
    /// on its own.
    pub fn close(&mut self) -> (r: Result<(), ObsError>)
        requires
            old(self).inv(),
            !old(self).is_terminal(),
        ensures
            final(self).inv(),
            Self::close_post(*old(self), *final(self), r),
    {
        match self.state {
            MultipartState::Idle => {
                let mut body = Vec::new();
                std::mem::swap(&mut body, &mut self.buf);
                let size = body.len() as u64;
                let res = self.w.write_once(size, body);
                if res.is_ok() {
                    self.state = MultipartState::Done;
                } else {
                    self.state = MultipartState::Aborted;
                }
                res
            },
            MultipartState::InProgress => {
                let upload_id = match &self.upload_id {
                    Some(id) => id.clone(),
                    None => {
                        proof {
                            assert(false);
                        }
                        String::new()
                    },
                };
                let res = self.w.complete_part(upload_id.as_str(), &self.parts);
                if res.is_ok() {
                    self.state = MultipartState::Completed;
                }
                res
            },
            _ => {
                proof {
                    assert(false);
                }
                Ok(())
            },
        }
    }

    /// Cancels the write.  With a session open, its release is
    /// requested once and that call's own outcome is returned; the
    /// writer is spent either way.  With no session open there is
    /// nothing to release and no request is issued.
    pub fn abort(&mut self) -> (r: Result<(), ObsError>)
        requires
            old(self).inv(),
            !old(self).is_terminal(),
        ensures
            final(self).inv(),
            Self::abort_post(*old(self), *final(self), r),
    {
        match self.state {
            MultipartState::Idle => {
                self.state = MultipartState::Aborted;
                Ok(())
            },
            MultipartState::InProgress => {
                let upload_id = match &self.upload_id {
                    Some(id) => id.clone(),
                    None => {
                        proof {
                            assert(false);
                        }
                        String::new()
                    },
                };
                self.state = MultipartState::Aborted;
                self.w.abort_part(upload_id.as_str())
            },
            _ => {
                proof {
                    assert(false);
                }
                Ok(())
            },
        }
    }
}

} // verus!
