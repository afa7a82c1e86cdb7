//! The transport session: the connect/disconnect lifecycle of the single
//! serial connection, the chunked send path, and the endpoint list fallback.
//!
//! The session itself performs no I/O. The embedding program owns the real
//! connection handle; the session is the state machine that decides what the
//! program must do (release a handle, open one, write these chunks) and folds
//! the outcomes back into a result. `begin_connect` / `complete_connect`
//! bracket one open attempt; `prepare_send` turns a command into the chunks
//! to write; `fold_outcomes` turns the per-chunk write outcomes into the
//! reported byte count or error.

use vstd::prelude::*;
use vstd::seq_lib::lemma_flatten_concat;
use vstd::slice::{slice_subrange, slice_to_vec};
use crate::codec::{encode_command, spec_encode_command, tag_ok, Command};

verus! {

/// The receive-buffer ceiling of the device: no single write may exceed it.
pub const CHUNK_LIMIT: usize = 64;

/// The fixed baud rate of the serial link to the device.
pub const BAUD_RATE: u32 = 115_200;

/// The per-operation I/O timeout on the serial link, in milliseconds.
pub const CONN_TIMEOUT: u64 = 100;

/// Failure of a send operation.
#[derive(Clone, Copy, Debug, PartialEq, Eq, Structural)]
pub enum SendError {
    /// No connection is open; nothing was written.
    NotConnected,
    /// A chunk write failed; `written` bytes had already been delivered.
    Transport { written: usize },
}

/// What one chunk write came to: `Wrote(n)` for `n` bytes accepted by the
/// transport, `Failed` for an I/O error.
#[derive(Clone, Copy, Debug, PartialEq, Eq, Structural)]
pub enum WriteOutcome {
    Wrote(usize),
    Failed,
}

/// The payload split into write-sized chunks: full 64-byte chunks followed by
/// the remainder, in order. An empty payload has no chunks.
pub open spec fn spec_chunks(payload: Seq<u8>) -> Seq<Seq<u8>>
    decreases payload.len(),
{
    if payload.len() == 0 {
        Seq::empty()
    } else if payload.len() <= 64 {
        seq![payload]
    } else {
        seq![payload.take(64)] + spec_chunks(payload.skip(64))
    }
}

/// Law: the chunking of a payload has exactly the ceiling of `len / 64`
/// chunks, every chunk is nonempty and at most 64 bytes, every chunk but the
/// last is exactly 64 bytes, and the chunks concatenate back to the payload.
pub proof fn lemma_chunk_shapes(payload: Seq<u8>)
    ensures
        spec_chunks(payload).len() == (payload.len() + 63) / 64,
        forall|i: int|
            0 <= i < spec_chunks(payload).len() ==> 0 < (#[trigger] spec_chunks(
                payload,
            )[i]).len() <= 64,
        forall|i: int|
            0 <= i < spec_chunks(payload).len() - 1 ==> (#[trigger] spec_chunks(
                payload,
            )[i]).len() == 64,
        spec_chunks(payload).flatten() == payload,
    decreases payload.len(),
{
    if payload.len() == 0 {
        assert(spec_chunks(payload).flatten() =~= payload);
    } else if payload.len() <= 64 {
        seq![payload].lemma_flatten_one_element();
    } else {
        lemma_chunk_shapes(payload.skip(64));
        lemma_flatten_concat(seq![payload.take(64)], spec_chunks(payload.skip(64)));
        seq![payload.take(64)].lemma_flatten_one_element();
        assert(payload.take(64) + payload.skip(64) =~= payload);
        assert(spec_chunks(payload).flatten() =~= payload);
    }
}

/// Splits a payload into chunks of at most 64 bytes, exactly `spec_chunks`.
pub fn chunk_payload(payload: &[u8]) -> (chunks: Vec<Vec<u8>>)
    ensures
        chunks.deep_view() == spec_chunks(payload@),
{
    let mut chunks: Vec<Vec<u8>> = Vec::new();
    let mut pos: usize = 0;
    proof {
        assert(payload@.skip(0) =~= payload@);
        assert(chunks.deep_view() + spec_chunks(payload@.skip(0)) =~~= spec_chunks(payload@));
    }
    while pos < payload.len()
        invariant
            pos <= payload@.len(),
            spec_chunks(payload@) == chunks.deep_view() + spec_chunks(payload@.skip(pos as int)),
        decreases payload@.len() - pos,
    {
        let end = if payload.len() - pos > 64 {
            pos + 64
        } else {
            payload.len()
        };
        let ghost pre = chunks.deep_view();
        let piece = slice_to_vec(slice_subrange(payload, pos, end));
        chunks.push(piece);
        proof {
            assert(chunks.deep_view() =~~= pre.push(piece@));
            let rest = payload@.skip(pos as int);
            if payload@.len() - pos > 64 {
                assert(rest.take(64) =~= payload@.subrange(pos as int, pos + 64));
                assert(rest.skip(64) =~= payload@.skip(end as int));
                assert(spec_chunks(rest) == seq![piece@] + spec_chunks(payload@.skip(end as int)));
            } else {
                assert(rest =~= payload@.subrange(pos as int, payload@.len() as int));
                assert(spec_chunks(rest) == seq![piece@]);
                assert(payload@.skip(end as int) =~= Seq::<u8>::empty());
            }
            assert(chunks.deep_view() + spec_chunks(payload@.skip(end as int)) =~~= pre
                + spec_chunks(payload@.skip(pos as int)));
        }
        pos = end;
    }
    proof {
        assert(payload@.skip(pos as int) =~= Seq::<u8>::empty());
        assert(chunks.deep_view() + spec_chunks(payload@.skip(pos as int)) =~~= chunks.deep_view());
    }
    chunks
}

/// Whether every chunk write succeeded.
pub open spec fn spec_all_wrote(outcomes: Seq<WriteOutcome>) -> bool {
    forall|i: int| 0 <= i < outcomes.len() ==> (#[trigger] outcomes[i]) != WriteOutcome::Failed
}

/// The bytes delivered before the first failed write: the sum of the `Wrote`
/// counts of the longest all-successful prefix.
pub open spec fn spec_written(outcomes: Seq<WriteOutcome>) -> nat
    decreases outcomes.len(),
{
    if outcomes.len() == 0 {
        0
    } else {
        match outcomes[0] {
            WriteOutcome::Wrote(n) => (n + spec_written(outcomes.drop_first())) as nat,
            WriteOutcome::Failed => 0,
        }
    }
}

/// Whether every successful write in `outcomes` delivered at most `limit`
/// bytes.
pub open spec fn outcomes_bounded(outcomes: Seq<WriteOutcome>, limit: nat) -> bool {
    forall|i: int|
        0 <= i < outcomes.len() ==> (match #[trigger] outcomes[i] {
            WriteOutcome::Wrote(n) => n <= limit,
            WriteOutcome::Failed => true,
        })
}

/// Folds the per-chunk write outcomes of one send into its result: the total
/// byte count when every write succeeded, and otherwise `Transport` carrying
/// the bytes delivered before the first failure.
pub fn fold_outcomes(outcomes: &Vec<WriteOutcome>) -> (r: Result<usize, SendError>)
    requires
        outcomes@.len() * 64 <= usize::MAX,
        outcomes_bounded(outcomes@, 64),
    ensures
        match r {
            Ok(n) => spec_all_wrote(outcomes@) && n == spec_written(outcomes@),
            Err(e) => match e {
                SendError::Transport { written } => !spec_all_wrote(outcomes@) && written
                    == spec_written(outcomes@),
                SendError::NotConnected => false,
            },
        },
{
    let mut acc: usize = 0;
    let mut i: usize = 0;
    let n = outcomes.len();
    proof {
        assert(outcomes@.skip(0) =~= outcomes@);
    }
    while i < n
        invariant
            i <= outcomes@.len(),
            n == outcomes@.len(),
            outcomes@.len() * 64 <= usize::MAX,
            outcomes_bounded(outcomes@, 64),
            forall|j: int| 0 <= j < i ==> (#[trigger] outcomes@[j]) != WriteOutcome::Failed,
            acc + spec_written(outcomes@.skip(i as int)) == spec_written(outcomes@),
            acc <= i * 64,
        decreases outcomes@.len() - i,
    {
        proof {
            assert(outcomes@.skip(i as int)[0] == outcomes@[i as int]);
            assert(outcomes@.skip(i as int).drop_first() =~= outcomes@.skip(i + 1));
        }
        match outcomes[i] {
            WriteOutcome::Wrote(k) => {
                proof {
                    assert(i * 64 + 64 == (i + 1) * 64);
                    assert((i + 1) * 64 <= outcomes@.len() * 64) by (nonlinear_arith)
                        requires
                            i + 1 <= outcomes@.len(),
                    ;
                }
                acc = acc + k;
            },
            WriteOutcome::Failed => {
                return Err(SendError::Transport { written: acc });
            },
        }
        i = i + 1;
    }
    proof {
        assert(outcomes@.skip(i as int) =~= Seq::<WriteOutcome>::empty());
    }
    Ok(acc)
}

/// Error reported when the host failed to open the named endpoint; the
/// session stays disconnected.
#[derive(Clone, Copy, Debug, PartialEq, Eq, Structural)]
pub struct ConnectError;

/// The session around the single serial connection.
///
/// `connected` holds the identifier of the currently open connection, or
/// `None` while disconnected; identifiers are handed out by `next_id`, so
/// distinct opens never share one. At most one connection is open at a time
/// by construction.
#[derive(Clone, Copy, Debug, PartialEq, Eq, Structural)]
pub struct TransportSession {
    pub connected: Option<u64>,
    pub next_id: u64,
}

impl TransportSession {
    /// Well-formed: an open connection carries an identifier already issued.
    pub open spec fn wf(self) -> bool {
        match self.connected {
            Some(id) => id < self.next_id,
            None => true,
        }
    }

    pub open spec fn spec_is_connected(self) -> bool {
        match self.connected {
            Some(_) => true,
            None => false,
        }
    }

    /// How many connections are open: one or none.
    pub open spec fn spec_open_count(self) -> nat {
        match self.connected {
            Some(_) => 1,
            None => 0,
        }
    }

    pub open spec fn spec_new() -> TransportSession {
        TransportSession { connected: None, next_id: 0 }
    }

    /// The state after the release step of a connect, and whether a prior
    /// connection had to be released.
    pub open spec fn spec_begin_connect(self) -> (TransportSession, bool) {
        (TransportSession { connected: None, ..self }, self.spec_is_connected())
    }

    /// The state after the open attempt of a connect: connected under a fresh
    /// identifier on success, unchanged (disconnected) on failure.
    pub open spec fn spec_complete_connect(self, opened: bool) -> TransportSession {
        if opened {
            TransportSession { connected: Some(self.next_id), next_id: (self.next_id + 1) as u64 }
        } else {
            self
        }
    }

    /// The state after a disconnect.
    pub open spec fn spec_disconnect(self) -> TransportSession {
        TransportSession { connected: None, ..self }
    }

    /// A fresh session, disconnected.
    pub fn new() -> (s: TransportSession)
        ensures
            s == TransportSession::spec_new(),
            s.wf(),
    {
        TransportSession { connected: None, next_id: 0 }
    }

    pub fn is_connected(&self) -> (b: bool)
        ensures
            b == self.spec_is_connected(),
    {
        match self.connected {
            Some(_) => true,
            None => false,
        }
    }

    /// Whether a fresh connection identifier can still be issued.
    pub fn can_open(&self) -> (b: bool)
        ensures
            b == (self.next_id < u64::MAX),
    {
        self.next_id < u64::MAX
    }

    /// First step of a connect: any prior connection leaves the session, and
    /// the result says whether the caller holds a handle to release. A
    /// connect while already connected is an implicit disconnect-then-connect.
    pub fn begin_connect(&mut self) -> (release: bool)
        ensures
            *final(self) == old(self).spec_begin_connect().0,
            release == old(self).spec_begin_connect().1,
            old(self).wf() ==> final(self).wf(),
    {
        let was = self.is_connected();
        self.connected = None;
        was
    }

    /// Second step of a connect: records whether the open attempt succeeded.
    /// On success the session is connected under a fresh identifier; on
    /// failure it stays disconnected and the failure is reported as
    /// `ConnectError`, never swallowed.
    pub fn complete_connect(&mut self, opened: bool) -> (r: Result<(), ConnectError>)
        requires
            old(self).connected == None::<u64>,
            old(self).next_id < u64::MAX,
        ensures
            *final(self) == old(self).spec_complete_connect(opened),
            old(self).wf() ==> final(self).wf(),
            r == if opened {
                Ok::<(), ConnectError>(())
            } else {
                Err::<(), ConnectError>(ConnectError)
            },
    {
        if opened {
            self.connected = Some(self.next_id);
            self.next_id = self.next_id + 1;
            Ok(())
        } else {
            Err(ConnectError)
        }
    }

    /// Releases the open connection if one is present; idempotent when
    /// already disconnected. The result says whether the caller holds a
    /// handle to release.
    pub fn disconnect(&mut self) -> (released: bool)
        ensures
            *final(self) == old(self).spec_disconnect(),
            released == old(self).spec_is_connected(),
            old(self).wf() ==> final(self).wf(),
    {
        let was = self.is_connected();
        self.connected = None;
        was
    }

    /// Serializes a command and splits it into the chunks to write, in order.
    ///
    /// While disconnected this fails with `NotConnected` and yields nothing
    /// to write. While connected it yields exactly the chunking of the
    /// command's wire text.
    pub fn prepare_send(&self, c: &Command) -> (r: Result<Vec<Vec<u8>>, SendError>)
        requires
            tag_ok(c.command@),
        ensures
            match r {
                Ok(chunks) => self.spec_is_connected() && chunks.deep_view() == spec_chunks(
                    spec_encode_command(*c),
                ),
                Err(e) => e == SendError::NotConnected && !self.spec_is_connected(),
            },
    {
        if self.is_connected() {
            let payload = encode_command(c);
            Ok(chunk_payload(payload.as_slice()))
        } else {
            Err(SendError::NotConnected)
        }
    }
}

/// Law: a connect while already connected is release-then-open. After a
/// successful connect on a connected session followed by another successful
/// connect, exactly one connection is open — the one opened last — and the
/// earlier one was handed back for release at the start of the second
/// connect.
pub proof fn lemma_reconnect_single_connection(s0: TransportSession)
    requires
        s0.wf(),
        s0.next_id + 2 <= u64::MAX,
    ensures
        ({
            let (s1, release1) = s0.spec_begin_connect();
            let s2 = s1.spec_complete_connect(true);
            let (s3, release2) = s2.spec_begin_connect();
            let s4 = s3.spec_complete_connect(true);
            &&& s4.wf()
            &&& s4.spec_open_count() == 1
            &&& s4.connected == Some((s0.next_id + 1) as u64)
            &&& s2.connected != s4.connected
            &&& release2 == true
        }),
{
}

/// Law: when every chunk of a payload's chunking is written in full, the
/// writes all succeed and deliver exactly the payload's length.
pub proof fn lemma_full_writes_deliver_payload(chunks: Seq<Seq<u8>>, outcomes: Seq<WriteOutcome>)
    requires
        outcomes.len() == chunks.len(),
        forall|i: int|
            0 <= i < chunks.len() ==> ((#[trigger] outcomes[i]) matches WriteOutcome::Wrote(n)
                && n == chunks[i].len()),
    ensures
        spec_all_wrote(outcomes),
        spec_written(outcomes) == chunks.flatten().len(),
    decreases chunks.len(),
{
    if chunks.len() == 0 {
        assert(chunks.flatten() =~= Seq::<u8>::empty());
    } else {
        lemma_full_writes_deliver_payload(chunks.drop_first(), outcomes.drop_first());
        assert(chunks.flatten() == chunks.first() + chunks.drop_first().flatten());
        assert(outcomes[0] matches WriteOutcome::Wrote(n) && n == chunks[0].len());
    }
}

/// Law: a disconnect always lands in the disconnected state, and a second
/// disconnect changes nothing.
pub proof fn lemma_disconnect_idempotent(s: TransportSession)
    ensures
        !s.spec_disconnect().spec_is_connected(),
        s.spec_disconnect().spec_disconnect() == s.spec_disconnect(),
{
}

/// The descriptor yielded when endpoint enumeration reports nothing usable.
pub fn no_endpoints_sentinel() -> (r: String)
    ensures
        r@ == "No ports found"@,
{
    "No ports found".to_owned()
}

/// Turns the host's endpoint enumeration into the list shown to the
/// operator: the endpoint names when there are any, and otherwise — whether
/// the host reported zero endpoints or failed outright — exactly one
/// sentinel entry, never an empty list and never a propagated host error.
pub fn normalize_endpoints(found: Option<Vec<String>>) -> (r: Vec<String>)
    ensures
        r@.len() > 0,
        match found {
            Some(names) => if names@.len() > 0 {
                r.deep_view() == names.deep_view()
            } else {
                r@.len() == 1 && r@[0]@ == "No ports found"@
            },
            None => r@.len() == 1 && r@[0]@ == "No ports found"@,
        },
{
    match found {
        Some(names) => {
            if names.len() > 0 {
                names
            } else {
                let mut v: Vec<String> = Vec::new();
                v.push(no_endpoints_sentinel());
                v
            }
        },
        None => {
            let mut v: Vec<String> = Vec::new();
            v.push(no_endpoints_sentinel());
            v
        },
    }
}

} // verus!
