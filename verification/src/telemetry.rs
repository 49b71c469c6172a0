//! The transfer state machine: owns, at any instant, either an idle
//! `(buffer, channel, transmitter)` triple or an in-flight transfer handle,
//! and exposes a single "append and flush" operation, `send`.
//!
//! The physical side of a transfer — programming the DMA engine, polling its
//! transfer-complete flag — happens outside this library, in the firmware
//! shell that owns the hardware. The shell reports the poll's answer to
//! `send` as the `transfer_done` argument; everything the machine decides
//! from that answer is verified here.

use vstd::prelude::*;
use vstd::string::StringSliceAdditionalSpecFns;

use crate::buffer::{buf_clear, buf_model, buf_new, buf_as_std, fill_with_str, TxBuffer,
    BUF_CAPACITY};

verus! {

/// Handle to one DMA hardware channel; its view is the channel number.
/// Exclusively owned by whichever entity (idle state or in-flight transfer)
/// currently holds it — never duplicated or aliased.
pub struct Channel {
    id: u8,
}

impl View for Channel {
    type V = u8;

    closed spec fn view(&self) -> u8 {
        self.id
    }
}

impl Channel {
    pub fn new(id: u8) -> (r: Channel)
        ensures
            r@ == id,
    {
        Channel { id }
    }

    pub fn id(&self) -> (r: u8)
        ensures
            r == self@,
    {
        self.id
    }
}

/// Handle to the hardware serial transmit unit; its view is the unit number.
/// Same exclusive-ownership discipline as [`Channel`].
pub struct Transmitter {
    id: u8,
}

impl View for Transmitter {
    type V = u8;

    closed spec fn view(&self) -> u8 {
        self.id
    }
}

impl Transmitter {
    pub fn new(id: u8) -> (r: Transmitter)
        ensures
            r@ == id,
    {
        Transmitter { id }
    }

    pub fn id(&self) -> (r: u8)
        ensures
            r == self@,
    {
        self.id
    }
}

/// What one telemetry pipeline looks like in specifications: the bytes the
/// buffer holds (wherever the buffer currently lives), the channel and
/// transmitter numbers, and whether a transfer is outstanding.
#[verifier::ext_equal]
pub enum TelemetryModel {
    /// No transfer outstanding; buffer, channel and transmitter are idle.
    Ready { buf: Seq<u8>, ch: u8, tx: u8 },
    /// A transfer is (or was) running; the handle owns all three resources.
    Busy { buf: Seq<u8>, ch: u8, tx: u8 },
}

impl TelemetryModel {
    /// The bytes the buffer currently holds.
    pub open spec fn buf(self) -> Seq<u8> {
        match self {
            TelemetryModel::Ready { buf, .. } => buf,
            TelemetryModel::Busy { buf, .. } => buf,
        }
    }

    /// The DMA channel number.
    pub open spec fn ch(self) -> u8 {
        match self {
            TelemetryModel::Ready { ch, .. } => ch,
            TelemetryModel::Busy { ch, .. } => ch,
        }
    }

    /// The transmitter number.
    pub open spec fn tx(self) -> u8 {
        match self {
            TelemetryModel::Ready { tx, .. } => tx,
            TelemetryModel::Busy { tx, .. } => tx,
        }
    }

    /// Well-formedness: the buffer never exceeds its capacity, and an idle
    /// buffer is empty — it was either just created or just cleared after a
    /// reclaim, and `send` always starts a transfer right after filling it.
    pub open spec fn wf(self) -> bool {
        &&& self.buf().len() <= BUF_CAPACITY
        &&& self is Ready ==> self.buf().len() == 0
    }
}

/// The whole behaviour of `send` in one specification: what `advance`-ing the
/// machine with a payload does, given whether the hardware reported the
/// outstanding transfer (if any) complete.
///
/// * `Ready`: the payload is appended and a transfer of the buffer starts.
/// * `Busy`, transfer not done: nothing changes; the payload is dropped for
///   this call (the single in-flight slot is the only queue there is).
/// * `Busy`, transfer done: the resources are reclaimed, the buffer cleared,
///   and a fresh transfer of exactly the new payload starts.
pub open spec fn advance_model(m: TelemetryModel, payload: Seq<u8>, transfer_done: bool)
    -> TelemetryModel {
    match m {
        TelemetryModel::Ready { buf, ch, tx } => TelemetryModel::Busy {
            buf: buf + payload,
            ch,
            tx,
        },
        TelemetryModel::Busy { buf, ch, tx } => if transfer_done {
            TelemetryModel::Busy { buf: payload, ch, tx }
        } else {
            m
        },
    }
}

/// A started hardware transfer: an opaque capability that exclusively owns
/// the buffer, the channel and the transmitter until it is resolved. The
/// hardware reads the buffer while this handle exists; nothing here mutates
/// it.
pub struct TransferHandle {
    buffer: TxBuffer,
    channel: Channel,
    transmitter: Transmitter,
}

impl TransferHandle {
    /// The bytes that were handed to the hardware.
    pub closed spec fn buf(self) -> Seq<u8> {
        buf_model(self.buffer)
    }

    /// The channel number the transfer runs on.
    pub closed spec fn ch(self) -> u8 {
        self.channel@
    }

    /// The transmitter number the transfer writes to.
    pub closed spec fn tx(self) -> u8 {
        self.transmitter@
    }

    /// Reclaims the three owned resources from a resolved transfer. The
    /// firmware shell must have seen the hardware's transfer-complete signal
    /// (or be willing to block until it comes) before resolving; the machine
    /// itself only resolves after `transfer_done` was reported true.
    pub fn wait(self) -> (r: (TxBuffer, Channel, Transmitter))
        ensures
            buf_model(r.0) == self.buf(),
            r.1@ == self.ch(),
            r.2@ == self.tx(),
    {
        (self.buffer, self.channel, self.transmitter)
    }
}

/// Owns either an idle `(buffer, channel, transmitter)` triple or an
/// in-flight transfer handle.
pub enum TransferState {
    /// No transfer outstanding; all three resources available for use.
    Ready(TxBuffer, Channel, Transmitter),
    /// A transfer is (or was) running.
    MaybeBusy(TransferHandle),
}

impl View for TransferState {
    type V = TelemetryModel;

    closed spec fn view(&self) -> TelemetryModel {
        match self {
            TransferState::Ready(b, c, t) => TelemetryModel::Ready {
                buf: buf_model(*b),
                ch: c@,
                tx: t@,
            },
            TransferState::MaybeBusy(h) => TelemetryModel::Busy {
                buf: h.buf(),
                ch: h.ch(),
                tx: h.tx(),
            },
        }
    }
}

/// The non-blocking DMA transmit pipeline.
pub struct DmaTelemetry {
    state: TransferState,
}

impl View for DmaTelemetry {
    type V = TelemetryModel;

    closed spec fn view(&self) -> TelemetryModel {
        self.state@
    }
}

impl DmaTelemetry {
    fn with_state(ns: TransferState) -> (r: Self)
        ensures
            r@ == ns@,
    {
        DmaTelemetry { state: ns }
    }
}

impl DmaTelemetry {
    /// A fresh pipeline: idle, with an empty buffer, owning the given channel
    /// and transmitter.
    pub fn create(ch: Channel, tx: Transmitter) -> (r: Self)
        ensures
            r@ == (TelemetryModel::Ready { buf: Seq::<u8>::empty(), ch: ch@, tx: tx@ }),
            r@.wf(),
    {
        let bf = buf_new();
        let state = TransferState::Ready(bf, ch, tx);
        DmaTelemetry::with_state(state)
    }

    /// Fills the buffer with `payload` and hands it, with the channel and
    /// the transmitter, to a fresh transfer handle.
    fn start_transfer(buffer: TxBuffer, ch: Channel, tx: Transmitter, payload: &str)
        -> (h: TransferHandle)
        requires
            buf_model(buffer).len() + payload.spec_bytes().len() <= BUF_CAPACITY,
        ensures
            h.buf() == buf_model(buffer) + payload.spec_bytes(),
            h.ch() == ch@,
            h.tx() == tx@,
    {
        let mut buffer = buffer;
        fill_with_str(&mut buffer, payload);
        TransferHandle { buffer, channel: ch, transmitter: tx }
    }

    /// Appends `payload` and flushes, without ever blocking: starts a
    /// transfer if the machine is idle, reclaims and restarts if the previous
    /// transfer was reported complete, and otherwise drops the payload for
    /// this call and leaves everything untouched.
    ///
    /// `transfer_done` is the hardware's answer to the non-blocking
    /// completion poll for the outstanding transfer; it is ignored when the
    /// machine is idle.
    pub fn send(self, payload: &str, transfer_done: bool) -> (r: Self)
        requires
            self@.wf(),
            payload.spec_bytes().len() <= BUF_CAPACITY,
        ensures
            r@ == advance_model(self@, payload.spec_bytes(), transfer_done),
            r@.wf(),
            r@ is Busy,
    {
        let ns = match self.state {
            TransferState::Ready(buffer, ch, tx) => TransferState::MaybeBusy(
                Self::start_transfer(buffer, ch, tx, payload),
            ),
            TransferState::MaybeBusy(transfer) => {
                if transfer_done {
                    // The previous transfer just finished within this call:
                    // reclaim, clear, and queue the new payload right away.
                    let (mut buffer, ch, tx) = transfer.wait();
                    buf_clear(&mut buffer);
                    TransferState::MaybeBusy(Self::start_transfer(buffer, ch, tx, payload))
                } else {
                    TransferState::MaybeBusy(transfer)
                }
            }
        };
        proof {
            assert(ns@ =~= advance_model(self@, payload.spec_bytes(), transfer_done));
        }
        DmaTelemetry::with_state(ns)
    }

    /// Whether a transfer is (or was) outstanding.
    pub fn is_busy(&self) -> (r: bool)
        ensures
            r == (self@ is Busy),
    {
        match &self.state {
            TransferState::Ready(..) => false,
            TransferState::MaybeBusy(..) => true,
        }
    }

    /// The bytes the buffer currently holds — when busy, exactly the bytes
    /// that were handed to the hardware.
    pub fn buffer_contents(&self) -> (r: Vec<u8>)
        ensures
            r@ == self@.buf(),
    {
        match &self.state {
            TransferState::Ready(b, _, _) => buf_as_std(b),
            TransferState::MaybeBusy(h) => buf_as_std(&h.buffer),
        }
    }

    /// The DMA channel number this pipeline owns.
    pub fn channel_id(&self) -> (r: u8)
        ensures
            r == self@.ch(),
    {
        match &self.state {
            TransferState::Ready(_, c, _) => c.id(),
            TransferState::MaybeBusy(h) => h.channel.id(),
        }
    }

    /// The transmitter number this pipeline owns.
    pub fn transmitter_id(&self) -> (r: u8)
        ensures
            r == self@.tx(),
    {
        match &self.state {
            TransferState::Ready(_, _, t) => t.id(),
            TransferState::MaybeBusy(h) => h.transmitter.id(),
        }
    }
}

/// The take-modify-put sequence of an invocation site: remove the pipeline
/// from its process-wide slot, `send` the payload through it, and store the
/// result back. The caller must keep this sequence uninterruptible with
/// respect to itself: either one context alone mutates the slot once
/// interrupts are enabled, or interrupts are masked around the sequence.
pub fn handle_mpu(slot: &mut Option<DmaTelemetry>, payload: &str, transfer_done: bool)
    requires
        (*old(slot)) matches Some(t) ==> t@.wf(),
        payload.spec_bytes().len() <= BUF_CAPACITY,
    ensures
        (*old(slot)) is None ==> (*final(slot)) is None,
        (*old(slot)) matches Some(t) ==> ((*final(slot)) matches Some(u)
            && u@ == advance_model(t@, payload.spec_bytes(), transfer_done)
            && u@.wf()),
{
    let maybe_tele = slot.take();
    if let Some(tele) = maybe_tele {
        let new_tele = tele.send(payload, transfer_done);
        *slot = Some(new_tele);
    }
}

/// Idle reuse: advancing a well-formed idle machine always leaves a transfer
/// in flight, and the buffer handed to the hardware holds exactly the bytes
/// the payload appended — nothing more, whatever the completion poll said.
pub proof fn lemma_idle_reuse(m: TelemetryModel, payload: Seq<u8>, transfer_done: bool)
    requires
        m.wf(),
        m is Ready,
    ensures
        advance_model(m, payload, transfer_done) is Busy,
        advance_model(m, payload, transfer_done).buf() == payload,
        advance_model(m, payload, transfer_done).ch() == m.ch(),
        advance_model(m, payload, transfer_done).tx() == m.tx(),
{
    assert(m.buf() + payload =~= payload);
}

/// No double start, and no mutation while busy: while a transfer is in
/// flight and the completion poll says it is not done, advancing changes
/// nothing at all — in particular the bytes the hardware is reading stay
/// exactly as they are, and the payload of the call is dropped.
pub proof fn lemma_no_double_start(m: TelemetryModel, payload: Seq<u8>)
    requires
        m is Busy,
    ensures
        advance_model(m, payload, false) == m,
{
}

/// Repeated advances while the transfer stays incomplete leave the machine
/// unchanged, however many there are and whatever payloads they carry.
pub proof fn lemma_repeated_advance_while_busy(m: TelemetryModel, payloads: Seq<Seq<u8>>)
    requires
        m is Busy,
    ensures
        payloads.fold_left(m, |acc: TelemetryModel, p: Seq<u8>| advance_model(acc, p, false))
            == m,
    decreases payloads.len(),
{
    if payloads.len() > 0 {
        lemma_repeated_advance_while_busy(m, payloads.drop_last());
    }
}

/// Reclaim then restart: when the completion poll reports the outstanding
/// transfer done, one advance reclaims the resources, clears the buffer and
/// starts one fresh transfer holding exactly the new payload — no residue of
/// the prior payload — on the same channel and transmitter.
pub proof fn lemma_reclaim_then_restart(m: TelemetryModel, payload: Seq<u8>)
    requires
        m is Busy,
    ensures
        advance_model(m, payload, true) is Busy,
        advance_model(m, payload, true).buf() == payload,
        advance_model(m, payload, true).ch() == m.ch(),
        advance_model(m, payload, true).tx() == m.tx(),
{
}

} // verus!
