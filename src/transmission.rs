//! Packet payload assembly: for one packet number, frames are pulled from
//! the producers of a packet-number space into a buffer of fixed capacity,
//! then padded up to a minimum length.
use vstd::prelude::*;
use s2n_codec::{Encoder, EncoderBuffer};
use crate::interests::{FrameExchangeInterestProvider, FrameExchangeInterests};
use crate::time::Timestamp;

verus! {

#[verifier::external_type_specification]
#[verifier::external_body]
pub struct ExEncoderBuffer<'a>(EncoderBuffer<'a>);

/// The bytes written into an encoder buffer so far.
pub uninterp spec fn encoder_written(b: EncoderBuffer) -> Seq<u8>;

/// The number of bytes an encoder buffer can hold.
pub uninterp spec fn encoder_capacity(b: EncoderBuffer) -> nat;

/// Relies on `EncoderBuffer::new`: a buffer over an empty slice holds
/// nothing and has room for nothing.
#[verifier::external_body]
fn empty_buffer<'b>() -> (r: EncoderBuffer<'b>)
    ensures
        encoder_written(r).len() == 0,
        encoder_capacity(r) == 0,
{
    EncoderBuffer::new(&mut [])
}

/// Relies on `Encoder::len` of `EncoderBuffer`: the write position, which
/// is the number of bytes written.
#[verifier::external_body]
fn buffer_len(b: &EncoderBuffer) -> (r: usize)
    ensures
        r == encoder_written(*b).len(),
{
    b.len()
}

/// Relies on `Encoder::remaining_capacity` of `EncoderBuffer`: the capacity
/// less the bytes written, or zero.
#[verifier::external_body]
fn buffer_remaining_capacity(b: &EncoderBuffer) -> (r: usize)
    ensures
        r == if encoder_capacity(*b) >= encoder_written(*b).len() {
            encoder_capacity(*b) - encoder_written(*b).len()
        } else {
            0
        },
{
    b.remaining_capacity()
}

/// Relies on `Encoder::write_slice` of `EncoderBuffer`: appends the bytes at
/// the write position. It writes out of bounds where they do not fit.
#[verifier::external_body]
fn buffer_write_slice(b: &mut EncoderBuffer, bytes: &[u8])
    requires
        encoder_written(*old(b)).len() + bytes@.len() <= encoder_capacity(*old(b)),
    ensures
        encoder_written(*final(b)) == encoder_written(*old(b)) + bytes@,
        encoder_capacity(*final(b)) == encoder_capacity(*old(b)),
    no_unwind
{
    b.write_slice(bytes)
}

/// Relies on `Encoder::write_repeated` of `EncoderBuffer`: appends `count`
/// copies of `value`. It writes out of bounds where they do not fit.
#[verifier::external_body]
fn buffer_write_repeated(b: &mut EncoderBuffer, count: usize, value: u8)
    requires
        encoder_written(*old(b)).len() + count <= encoder_capacity(*old(b)),
    ensures
        encoder_written(*final(b)) == encoder_written(*old(b)) + Seq::new(count as nat, |i: int| value),
        encoder_capacity(*final(b)) == encoder_capacity(*old(b)),
{
    b.write_repeated(count, value)
}

/// The wire byte of a PADDING frame; a padding frame of length `n` is `n`
/// such bytes.
pub const PADDING_BYTE: u8 = 0;

/// A padding frame of `length` bytes.
pub open spec fn padding(length: nat) -> Seq<u8> {
    Seq::new(length, |i: int| PADDING_BYTE)
}

/// The payload that results from the producers' output `written`: nothing
/// where they wrote nothing, else their output padded up to `minimum_len`.
pub open spec fn padded_payload(written: Seq<u8>, minimum_len: nat) -> Seq<u8> {
    if written.len() == 0 || written.len() >= minimum_len {
        written
    } else {
        written + padding((minimum_len - written.len()) as nat)
    }
}

/// The payload of a packet starts with all that its producers wrote, never
/// exceeds what they wrote and `minimum_len` together, is empty exactly when
/// they wrote nothing, and else is at least `minimum_len` long.
pub proof fn lemma_padded_payload(written: Seq<u8>, minimum_len: nat)
    ensures
        written.is_prefix_of(padded_payload(written, minimum_len)),
        padded_payload(written, minimum_len).len() == 0 <==> written.len() == 0,
        written.len() > 0 ==> padded_payload(written, minimum_len).len() >= minimum_len,
        written.len() < minimum_len && written.len() > 0 ==> padded_payload(written, minimum_len).len()
            == minimum_len,
        written.len() >= minimum_len ==> padded_payload(written, minimum_len) == written,
{
}

/// The length to pad a payload of `len` bytes by to reach `minimum_len`.
pub fn padding_len(len: usize, minimum_len: usize) -> (r: usize)
    ensures
        r == if len >= minimum_len { 0 } else { minimum_len - len },
{
    minimum_len.saturating_sub(len)
}

/// Whether a packet obliges its receiver to acknowledge it.
#[derive(Clone, Copy, Debug, PartialEq, Eq, Structural)]
pub enum AckElicitation {
    NonEliciting,
    Eliciting,
}

impl AckElicitation {
    pub open spec fn spec_merge(self, other: AckElicitation) -> AckElicitation {
        if self is Eliciting || other is Eliciting {
            AckElicitation::Eliciting
        } else {
            AckElicitation::NonEliciting
        }
    }

    /// Eliciting where either operand is.
    pub fn merge(self, other: AckElicitation) -> (r: AckElicitation)
        ensures
            r == self.spec_merge(other),
    {
        match (self, other) {
            (AckElicitation::NonEliciting, AckElicitation::NonEliciting) => AckElicitation::NonEliciting,
            _ => AckElicitation::Eliciting,
        }
    }
}

impl Default for AckElicitation {
    fn default() -> (r: AckElicitation)
        ensures
            r == AckElicitation::NonEliciting,
    {
        AckElicitation::NonEliciting
    }
}

/// What a connection shares with the producers while one packet is built.
pub struct ConnectionTransmissionContext {
    /// The time of the packet's assembly
    pub timestamp: Timestamp,
}

/// The context that producers write one packet's frames through. Its buffer
/// never holds more than its capacity.
pub struct TransmissionContext<'a, 'b> {
    ack_elicitation: AckElicitation,
    buffer: EncoderBuffer<'b>,
    context: &'a ConnectionTransmissionContext,
    packet_number: u64,
}

/// The write context of the application-data packet-number space.
pub type ApplicationTransmissionContext<'a, 'b> = TransmissionContext<'a, 'b>;

/// The write context of the initial and handshake packet-number spaces.
pub type EarlyTransmissionContext<'a, 'b> = TransmissionContext<'a, 'b>;

impl<'a, 'b> TransmissionContext<'a, 'b> {
    #[verifier::type_invariant]
    closed spec fn inv(self) -> bool {
        encoder_written(self.buffer).len() <= encoder_capacity(self.buffer)
    }

    /// The bytes of the packet written so far.
    pub closed spec fn written(self) -> Seq<u8> {
        encoder_written(self.buffer)
    }

    /// The number of bytes the packet can hold.
    pub closed spec fn capacity(self) -> nat {
        encoder_capacity(self.buffer)
    }

    pub closed spec fn spec_packet_number(self) -> u64 {
        self.packet_number
    }

    pub closed spec fn spec_ack_elicitation(self) -> AckElicitation {
        self.ack_elicitation
    }

    pub closed spec fn spec_connection_context(self) -> ConnectionTransmissionContext {
        *self.context
    }

    /// `self` is `earlier` after more frames were written through it.
    pub open spec fn extends(self, earlier: TransmissionContext<'a, 'b>) -> bool {
        &&& self.spec_packet_number() == earlier.spec_packet_number()
        &&& self.capacity() == earlier.capacity()
        &&& self.spec_connection_context() == earlier.spec_connection_context()
        &&& earlier.written().is_prefix_of(self.written())
        &&& (earlier.spec_ack_elicitation() is Eliciting ==> self.spec_ack_elicitation() is Eliciting)
    }

    /// The time at which the packet is assembled, the same for all its frames.
    pub fn current_time(&self) -> (r: Timestamp)
        ensures
            r == self.spec_connection_context().timestamp,
    {
        self.context.timestamp
    }

    /// What the connection shares with the producers.
    pub fn connection_context(&self) -> (r: &ConnectionTransmissionContext)
        ensures
            *r == self.spec_connection_context(),
    {
        self.context
    }

    /// Writes an encoded frame where it fits in the remaining capacity, and
    /// returns the packet number that carries it; else writes nothing and
    /// returns `None`.
    pub fn write_frame(&mut self, frame: &[u8], ack_elicitation: AckElicitation) -> (r: Option<u64>)
        ensures
            old(self).written().len() + frame@.len() > old(self).capacity() ==> r.is_none() && *final(self) == *old(self),
            old(self).written().len() + frame@.len() <= old(self).capacity() ==> {
                &&& r == Some(old(self).spec_packet_number())
                &&& final(self).written() == old(self).written() + frame@
                &&& final(self).spec_ack_elicitation() == old(self).spec_ack_elicitation().spec_merge(ack_elicitation)
                &&& final(self).spec_packet_number() == old(self).spec_packet_number()
                &&& final(self).capacity() == old(self).capacity()
                &&& final(self).spec_connection_context() == old(self).spec_connection_context()
            },
    {
        proof { use_type_invariant(&*self); }
        if frame.len() > buffer_remaining_capacity(&self.buffer) {
            return None;
        }
        buffer_write_slice(&mut self.buffer, frame);
        self.ack_elicitation = self.ack_elicitation.merge(ack_elicitation);
        Some(self.packet_number)
    }

    /// Whether any frame written so far elicits an acknowledgment.
    pub fn ack_elicitation(&self) -> (r: AckElicitation)
        ensures
            r == self.spec_ack_elicitation(),
    {
        self.ack_elicitation
    }

    /// The number of the packet being built.
    pub fn packet_number(&self) -> (r: u64)
        ensures
            r == self.spec_packet_number(),
    {
        self.packet_number
    }

    /// The remaining capacity, where it is at least `min_size`; else an error.
    pub fn reserve_minimum_space_for_frame(&mut self, min_size: usize) -> (r: Result<usize, ()>)
        ensures
            *final(self) == *old(self),
            r == if old(self).capacity() - old(self).written().len() < min_size {
                Err::<usize, ()>(())
            } else {
                Ok((old(self).capacity() - old(self).written().len()) as usize)
            },
    {
        proof { use_type_invariant(&*self); }
        let cap = buffer_remaining_capacity(&self.buffer);
        if cap < min_size {
            Err(())
        } else {
            Ok(cap)
        }
    }
}

/// A producer of ACK frames. Producers write through the context's methods
/// only, so the context they hand back extends the one they were given.
pub trait AckProducer: FrameExchangeInterestProvider {
    /// Writes at most one ACK frame; returns whether it wrote one.
    fn on_transmit(&mut self, context: &mut TransmissionContext) -> (r: bool)
        ensures
            final(context).extends(*old(context)),
    ;

    /// Told that the packet which carries its ACK frame is complete.
    fn on_transmit_complete(&mut self, context: &mut TransmissionContext)
        ensures
            final(context).extends(*old(context)),
    ;
}

/// A producer of data frames (streams, or the crypto stream). It writes as
/// many frames as fit, through the context's methods only.
pub trait DataProducer: FrameExchangeInterestProvider {
    fn on_transmit(&mut self, context: &mut TransmissionContext) -> (r: Result<(), ()>)
        ensures
            final(context).extends(*old(context)),
    ;
}

/// Keeps track of the packet numbers that sent packets used.
#[derive(Clone, Copy, Debug)]
pub struct TxPacketNumbers {
    last_sent: Option<u64>,
}

impl TxPacketNumbers {
    /// The packet number of the last packet sent, if any.
    pub closed spec fn spec_last_sent(self) -> Option<u64> {
        self.last_sent
    }

    /// A tracker that has seen no packet.
    pub fn new() -> (r: TxPacketNumbers)
        ensures
            r.spec_last_sent().is_none(),
    {
        TxPacketNumbers { last_sent: None }
    }

    /// Records that `packet_number` was used by a sent packet.
    pub fn on_transmit(&mut self, packet_number: u64)
        ensures
            final(self).spec_last_sent() == Some(packet_number),
    {
        self.last_sent = Some(packet_number);
    }

    /// The packet number of the last packet sent, if any.
    pub fn last_sent(&self) -> (r: Option<u64>)
        ensures
            r == self.spec_last_sent(),
    {
        self.last_sent
    }
}

impl Default for TxPacketNumbers {
    fn default() -> (r: TxPacketNumbers)
        ensures
            r.spec_last_sent().is_none(),
    {
        TxPacketNumbers::new()
    }
}

/// The size hint for a packet, given the merged interests of its producers:
/// zero where none of them wants to transmit, else at least one byte and at
/// least `minimum_len`.
pub fn size_hint_for(interests: FrameExchangeInterests, minimum_len: usize) -> (r: usize)
    ensures
        r == if !interests.transmission {
            0
        } else if minimum_len == 0 {
            1
        } else {
            minimum_len as int
        },
{
    if interests.transmission {
        if minimum_len == 0 {
            1
        } else {
            minimum_len
        }
    } else {
        0
    }
}

/// The interests of the application-data space: the stream manager's wish to
/// transmit, merged with all interests of the ACK manager.
pub fn application_interests(streams: FrameExchangeInterests, acks: FrameExchangeInterests) -> (r:
    FrameExchangeInterests)
    ensures
        r == (FrameExchangeInterests {
            delivery_notifications: false,
            transmission: streams.transmission,
        }).spec_merge(acks),
{
    let own = FrameExchangeInterests { delivery_notifications: false, transmission: streams.transmission };
    own.merge(acks)
}

/// The interests of an early space: those of the ACK manager merged with
/// those of the crypto stream.
pub fn early_interests(acks: FrameExchangeInterests, crypto: FrameExchangeInterests) -> (r:
    FrameExchangeInterests)
    ensures
        r == FrameExchangeInterests::spec_none().spec_merge(acks).spec_merge(crypto),
{
    FrameExchangeInterests::none().merge(acks).merge(crypto)
}

impl<'a, 'b> TransmissionContext<'a, 'b> {
    /// A context for packet `packet_number` that writes into `buffer`,
    /// with no frame written through it yet.
    fn new(buffer: EncoderBuffer<'b>, connection: &'a ConnectionTransmissionContext, packet_number: u64) -> (r:
        TransmissionContext<'a, 'b>)
        requires
            encoder_written(buffer).len() <= encoder_capacity(buffer),
        ensures
            r.written() == encoder_written(buffer),
            r.capacity() == encoder_capacity(buffer),
            r.spec_packet_number() == packet_number,
            r.spec_ack_elicitation() == AckElicitation::NonEliciting,
            r.spec_connection_context() == *connection,
    {
        TransmissionContext { ack_elicitation: AckElicitation::NonEliciting, buffer, context: connection, packet_number }
    }

    /// The buffer, with all that was written through the context.
    fn into_buffer(self) -> (r: EncoderBuffer<'b>)
        ensures
            encoder_written(r) == self.written(),
            encoder_capacity(r) == self.capacity(),
            encoder_written(r).len() <= encoder_capacity(r),
    {
        proof { use_type_invariant(&self); }
        self.buffer
    }
}

/// The buffer and tracker after a payload was finished: `written` (what the
/// producers wrote) padded up to `minimum_len` where it is not empty, and the
/// packet number recorded exactly then.
pub open spec fn payload_finished(
    written: Seq<u8>,
    minimum_len: nat,
    packet_number: u64,
    old_tx: TxPacketNumbers,
    new_buffer: Seq<u8>,
    new_tx: TxPacketNumbers,
    used: bool,
) -> bool {
    &&& new_buffer == padded_payload(written, minimum_len)
    &&& used == (written.len() > 0)
    &&& new_tx.spec_last_sent() == if used { Some(packet_number) } else { old_tx.spec_last_sent() }
}

/// Finishes a payload from what the producers wrote into `buffer`: where
/// they wrote anything, pads it up to `minimum_len` and records
/// `packet_number` as used. Returns whether it was.
pub fn finish_payload(
    buffer: &mut EncoderBuffer,
    minimum_len: usize,
    tx_packet_numbers: &mut TxPacketNumbers,
    packet_number: u64,
) -> (r: bool)
    requires
        encoder_written(*old(buffer)).len() <= encoder_capacity(*old(buffer)),
        minimum_len <= encoder_capacity(*old(buffer)),
    ensures
        encoder_capacity(*final(buffer)) == encoder_capacity(*old(buffer)),
        payload_finished(
            encoder_written(*old(buffer)),
            minimum_len as nat,
            packet_number,
            *old(tx_packet_numbers),
            encoder_written(*final(buffer)),
            *final(tx_packet_numbers),
            r,
        ),
{
    let ghost w = encoder_written(*buffer);
    let len = buffer_len(buffer);
    if len > 0 {
        // Add padding up to minimum_len
        let length = padding_len(len, minimum_len);
        if length > 0 {
            buffer_write_repeated(buffer, length, PADDING_BYTE);
        }
        tx_packet_numbers.on_transmit(packet_number);
        assert(encoder_written(*buffer) =~= padded_payload(w, minimum_len as nat));
        true
    } else {
        assert(encoder_written(*buffer) =~= padded_payload(w, minimum_len as nat));
        false
    }
}

/// Builds one packet's payload: the ACK producer writes first, then the data
/// producer, and the ACK producer is told of the packet where it wrote into
/// it; then the payload is finished by [`finish_payload`].
fn encode_payload<A: AckProducer, D: DataProducer>(
    ack_manager: &mut A,
    data_producer: &mut D,
    tx_packet_numbers: &mut TxPacketNumbers,
    connection: &ConnectionTransmissionContext,
    packet_number: u64,
    buffer: &mut EncoderBuffer,
    minimum_len: usize,
) -> (r: bool)
    requires
        encoder_written(*old(buffer)).len() == 0,
        minimum_len <= encoder_capacity(*old(buffer)),
    ensures
        encoder_capacity(*final(buffer)) == encoder_capacity(*old(buffer)),
        exists|w: Seq<u8>|
            #![trigger padded_payload(w, minimum_len as nat)]
            payload_finished(
                w,
                minimum_len as nat,
                packet_number,
                *old(tx_packet_numbers),
                encoder_written(*final(buffer)),
                *final(tx_packet_numbers),
                r,
            ),
{
    // the buffer moves into the context for the producers' writes, and back
    let mut own = empty_buffer();
    core::mem::swap(buffer, &mut own);
    let mut context = TransmissionContext::new(own, connection, packet_number);

    let did_send_ack = ack_manager.on_transmit(&mut context);
    // an error of the data producer leaves what it wrote in the packet
    let _ = data_producer.on_transmit(&mut context);
    if did_send_ack {
        // inform the ack manager the packet is populated
        ack_manager.on_transmit_complete(&mut context);
    }

    let mut own = context.into_buffer();
    core::mem::swap(buffer, &mut own);
    let ghost w = encoder_written(*buffer);
    let r = finish_payload(buffer, minimum_len, tx_packet_numbers, packet_number);
    assert(padded_payload(w, minimum_len as nat) == encoder_written(*buffer));
    r
}

/// The payload encoder of the application-data packet-number space: ACK
/// frames, then stream frames.
pub struct ApplicationTransmission<'a, A, S> {
    pub ack_manager: A,
    pub context: &'a ConnectionTransmissionContext,
    pub packet_number: u64,
    pub stream_manager: S,
    pub tx_packet_numbers: TxPacketNumbers,
}

impl<'a, A: AckProducer, S: DataProducer> ApplicationTransmission<'a, A, S> {
    /// Zero where no producer wants to transmit: the packet is then not
    /// attempted. Else at least `minimum_len` and at least one, though the
    /// packet may still come out empty.
    pub fn encoding_size_hint(&mut self, minimum_len: usize) -> (r: usize)
        ensures
            r == 0 || r == if minimum_len == 0 { 1 } else { minimum_len as int },
    {
        size_hint_for(self.frame_exchange_interests(), minimum_len)
    }

    /// Writes the packet's payload into the empty `buffer`: what the
    /// producers write, padded up to `minimum_len` where that is not empty.
    /// Returns whether the packet number was used, which it is, and recorded
    /// as such, exactly when the payload is not empty.
    pub fn encode(&mut self, buffer: &mut EncoderBuffer, minimum_len: usize) -> (r: bool)
        requires
            encoder_written(*old(buffer)).len() == 0,
            minimum_len <= encoder_capacity(*old(buffer)),
        ensures
            final(self).packet_number == old(self).packet_number,
            encoder_capacity(*final(buffer)) == encoder_capacity(*old(buffer)),
            exists|w: Seq<u8>|
                #![trigger padded_payload(w, minimum_len as nat)]
                payload_finished(
                    w,
                    minimum_len as nat,
                    old(self).packet_number,
                    old(self).tx_packet_numbers,
                    encoder_written(*final(buffer)),
                    final(self).tx_packet_numbers,
                    r,
                ),
    {
        encode_payload(
            &mut self.ack_manager,
            &mut self.stream_manager,
            &mut self.tx_packet_numbers,
            self.context,
            self.packet_number,
            buffer,
            minimum_len,
        )
    }

    /// Encodes where `buffer` is empty and can hold `minimum_len` bytes, as
    /// [`ApplicationTransmission::encode`] does; else leaves everything unchanged and
    /// returns `None`.
    pub fn try_encode(&mut self, buffer: &mut EncoderBuffer, minimum_len: usize) -> (r: Option<bool>)
        ensures
            r.is_none() <==> !(encoder_written(*old(buffer)).len() == 0 && minimum_len <= encoder_capacity(
                *old(buffer),
            )),
            r.is_none() ==> *final(self) == *old(self) && *final(buffer) == *old(buffer),
            final(self).packet_number == old(self).packet_number,
            encoder_capacity(*final(buffer)) == encoder_capacity(*old(buffer)),
            r.is_some() ==> exists|w: Seq<u8>|
                #![trigger padded_payload(w, minimum_len as nat)]
                payload_finished(
                    w,
                    minimum_len as nat,
                    old(self).packet_number,
                    old(self).tx_packet_numbers,
                    encoder_written(*final(buffer)),
                    final(self).tx_packet_numbers,
                    r.unwrap(),
                ),
    {
        if buffer_len(buffer) != 0 || buffer_remaining_capacity(buffer) < minimum_len {
            return None;
        }
        Some(self.encode(buffer, minimum_len))
    }
}

impl<'a, A: AckProducer, S: DataProducer> FrameExchangeInterestProvider for ApplicationTransmission<'a, A, S> {
    /// The stream manager's wish to transmit, merged with the ACK manager's interests.
    fn frame_exchange_interests(&self) -> FrameExchangeInterests {
        application_interests(
            self.stream_manager.frame_exchange_interests(),
            self.ack_manager.frame_exchange_interests(),
        )
    }
}

/// The payload encoder of the initial and handshake packet-number spaces:
/// ACK frames, then crypto frames.
pub struct EarlyTransmission<'a, A, C> {
    pub ack_manager: A,
    pub context: &'a ConnectionTransmissionContext,
    pub crypto_stream: C,
    pub packet_number: u64,
    pub tx_packet_numbers: TxPacketNumbers,
}

impl<'a, A: AckProducer, C: DataProducer> EarlyTransmission<'a, A, C> {
    /// Zero where no producer wants to transmit: the packet is then not
    /// attempted. Else at least `minimum_len` and at least one, though the
    /// packet may still come out empty.
    pub fn encoding_size_hint(&mut self, minimum_len: usize) -> (r: usize)
        ensures
            r == 0 || r == if minimum_len == 0 { 1 } else { minimum_len as int },
    {
        size_hint_for(self.frame_exchange_interests(), minimum_len)
    }

    /// Writes the packet's payload into the empty `buffer`: what the
    /// producers write, padded up to `minimum_len` where that is not empty.
    /// Returns whether the packet number was used, which it is, and recorded
    /// as such, exactly when the payload is not empty.
    pub fn encode(&mut self, buffer: &mut EncoderBuffer, minimum_len: usize) -> (r: bool)
        requires
            encoder_written(*old(buffer)).len() == 0,
            minimum_len <= encoder_capacity(*old(buffer)),
        ensures
            final(self).packet_number == old(self).packet_number,
            encoder_capacity(*final(buffer)) == encoder_capacity(*old(buffer)),
            exists|w: Seq<u8>|
                #![trigger padded_payload(w, minimum_len as nat)]
                payload_finished(
                    w,
                    minimum_len as nat,
                    old(self).packet_number,
                    old(self).tx_packet_numbers,
                    encoder_written(*final(buffer)),
                    final(self).tx_packet_numbers,
                    r,
                ),
    {
        encode_payload(
            &mut self.ack_manager,
            &mut self.crypto_stream,
            &mut self.tx_packet_numbers,
            self.context,
            self.packet_number,
            buffer,
            minimum_len,
        )
    }

    /// Encodes where `buffer` is empty and can hold `minimum_len` bytes, as
    /// [`EarlyTransmission::encode`] does; else leaves everything unchanged and
    /// returns `None`.
    pub fn try_encode(&mut self, buffer: &mut EncoderBuffer, minimum_len: usize) -> (r: Option<bool>)
        ensures
            r.is_none() <==> !(encoder_written(*old(buffer)).len() == 0 && minimum_len <= encoder_capacity(
                *old(buffer),
            )),
            r.is_none() ==> *final(self) == *old(self) && *final(buffer) == *old(buffer),
            final(self).packet_number == old(self).packet_number,
            encoder_capacity(*final(buffer)) == encoder_capacity(*old(buffer)),
            r.is_some() ==> exists|w: Seq<u8>|
                #![trigger padded_payload(w, minimum_len as nat)]
                payload_finished(
                    w,
                    minimum_len as nat,
                    old(self).packet_number,
                    old(self).tx_packet_numbers,
                    encoder_written(*final(buffer)),
                    final(self).tx_packet_numbers,
                    r.unwrap(),
                ),
    {
        if buffer_len(buffer) != 0 || buffer_remaining_capacity(buffer) < minimum_len {
            return None;
        }
        Some(self.encode(buffer, minimum_len))
    }
}

impl<'a, A: AckProducer, C: DataProducer> FrameExchangeInterestProvider for EarlyTransmission<'a, A, C> {
    /// The ACK manager's interests merged with the crypto stream's.
    fn frame_exchange_interests(&self) -> FrameExchangeInterests {
        early_interests(
            self.ack_manager.frame_exchange_interests(),
            self.crypto_stream.frame_exchange_interests(),
        )
    }
}

} // verus!
