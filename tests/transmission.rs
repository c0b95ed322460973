use core::time::Duration;
use s2n_codec::{Encoder, EncoderBuffer};
use s2n_quic_sched::interests::{FrameExchangeInterestProvider, FrameExchangeInterests};
use s2n_quic_sched::time::Timestamp;
use s2n_quic_sched::transmission::{
    application_interests, early_interests, padding_len, size_hint_for, AckElicitation, AckProducer, ApplicationTransmission,
    ConnectionTransmissionContext, DataProducer, EarlyTransmission, TransmissionContext,
    TxPacketNumbers, finish_payload,
};
use std::collections::VecDeque;

struct Acks {
    pending: Option<Vec<u8>>,
    completed: usize,
    seen_time: Option<Timestamp>,
}

impl FrameExchangeInterestProvider for Acks {
    fn frame_exchange_interests(&self) -> FrameExchangeInterests {
        FrameExchangeInterests { delivery_notifications: false, transmission: self.pending.is_some() }
    }
}

impl AckProducer for Acks {
    fn on_transmit(&mut self, context: &mut TransmissionContext) -> bool {
        self.seen_time = Some(context.current_time());
        match self.pending.take() {
            Some(frame) => context.write_frame(&frame, AckElicitation::NonEliciting).is_some(),
            None => false,
        }
    }

    fn on_transmit_complete(&mut self, context: &mut TransmissionContext) {
        assert_eq!(AckElicitation::Eliciting, context.ack_elicitation().merge(AckElicitation::Eliciting));
        self.completed += 1;
    }
}

struct Frames {
    queue: VecDeque<Vec<u8>>,
    written_in: Vec<u64>,
}

impl FrameExchangeInterestProvider for Frames {
    fn frame_exchange_interests(&self) -> FrameExchangeInterests {
        FrameExchangeInterests { delivery_notifications: false, transmission: !self.queue.is_empty() }
    }
}

impl DataProducer for Frames {
    fn on_transmit(&mut self, context: &mut TransmissionContext) -> Result<(), ()> {
        while let Some(frame) = self.queue.front() {
            match context.write_frame(frame, AckElicitation::Eliciting) {
                Some(packet_number) => {
                    self.written_in.push(packet_number);
                    self.queue.pop_front();
                }
                None => return Err(()),
            }
        }
        Ok(())
    }
}

fn connection() -> ConnectionTransmissionContext {
    ConnectionTransmissionContext { timestamp: Timestamp::from_duration(Duration::from_millis(42)) }
}

fn acks(pending: Option<Vec<u8>>) -> Acks {
    Acks { pending, completed: 0, seen_time: None }
}

fn frames(frames: Vec<Vec<u8>>) -> Frames {
    Frames { queue: frames.into(), written_in: Vec::new() }
}

#[test]
fn ack_and_stream_frame_without_padding() {
    let ctx = connection();
    let ack_frame = vec![0x02, 1, 0, 0, 1];
    let stream_frame = vec![0x0a; 50];
    let mut tx = ApplicationTransmission {
        ack_manager: acks(Some(ack_frame.clone())),
        context: &ctx,
        packet_number: 7,
        stream_manager: frames(vec![stream_frame.clone()]),
        tx_packet_numbers: TxPacketNumbers::new(),
    };
    assert_eq!(1, tx.encoding_size_hint(0));
    let mut storage = [0xffu8; 1200];
    let mut buffer = EncoderBuffer::new(&mut storage);
    assert!(tx.encode(&mut buffer, 0));
    assert_eq!(55, buffer.len());
    assert_eq!(1, tx.ack_manager.completed);
    assert_eq!(Some(ctx.timestamp), tx.ack_manager.seen_time);
    assert_eq!(vec![7], tx.stream_manager.written_in);
    assert_eq!(Some(7), tx.tx_packet_numbers.last_sent());
    let mut expected = ack_frame;
    expected.extend_from_slice(&stream_frame);
    assert_eq!(&expected[..], &storage[..55]);
}

#[test]
fn nothing_to_send_gives_no_size_hint() {
    let ctx = connection();
    let mut tx = ApplicationTransmission {
        ack_manager: acks(None),
        context: &ctx,
        packet_number: 1,
        stream_manager: frames(vec![]),
        tx_packet_numbers: TxPacketNumbers::new(),
    };
    assert_eq!(0, tx.encoding_size_hint(1200));
    assert!(!tx.frame_exchange_interests().transmission);
}

#[test]
fn padding_only_packet_is_not_sent() {
    let ctx = connection();
    let mut tx = EarlyTransmission {
        ack_manager: acks(None),
        context: &ctx,
        crypto_stream: frames(vec![]),
        packet_number: 3,
        tx_packet_numbers: TxPacketNumbers::new(),
    };
    let mut storage = [0u8; 1200];
    let mut buffer = EncoderBuffer::new(&mut storage);
    assert!(!tx.encode(&mut buffer, 1200));
    assert_eq!(0, buffer.len());
    assert_eq!(None, tx.tx_packet_numbers.last_sent());
    assert_eq!(0, tx.ack_manager.completed);
}

#[test]
fn frames_beyond_capacity_are_left_and_padding_fills_to_minimum() {
    let ctx = connection();
    let mut tx = EarlyTransmission {
        ack_manager: acks(None),
        context: &ctx,
        crypto_stream: frames(vec![vec![6; 40], vec![7; 40], vec![8; 40]]),
        packet_number: 11,
        tx_packet_numbers: TxPacketNumbers::new(),
    };
    assert_eq!(90, tx.encoding_size_hint(90));
    let mut storage = [0xffu8; 100];
    let mut buffer = EncoderBuffer::new(&mut storage);
    assert!(tx.encode(&mut buffer, 90));
    assert_eq!(90, buffer.len());
    assert_eq!(1, tx.crypto_stream.queue.len());
    assert_eq!(Some(11), tx.tx_packet_numbers.last_sent());
    assert!(storage[..40].iter().all(|b| *b == 6));
    assert!(storage[40..80].iter().all(|b| *b == 7));
    assert!(storage[80..90].iter().all(|b| *b == 0));
    assert_eq!(0xff, storage[90]);
}

#[test]
fn payload_longer_than_minimum_gets_no_padding() {
    let ctx = connection();
    let mut tx = ApplicationTransmission {
        ack_manager: acks(Some(vec![2; 30])),
        context: &ctx,
        packet_number: 5,
        stream_manager: frames(vec![]),
        tx_packet_numbers: TxPacketNumbers::new(),
    };
    assert_eq!(20, tx.encoding_size_hint(20));
    let mut storage = [0xffu8; 64];
    let mut buffer = EncoderBuffer::new(&mut storage);
    assert!(tx.encode(&mut buffer, 20));
    assert_eq!(30, buffer.len());
    assert_eq!(1, tx.ack_manager.completed);
}

#[test]
fn size_hint_rules() {
    let want = FrameExchangeInterests { delivery_notifications: false, transmission: true };
    let idle = FrameExchangeInterests { delivery_notifications: true, transmission: false };
    assert_eq!(1, size_hint_for(want, 0));
    assert_eq!(1200, size_hint_for(want, 1200));
    assert_eq!(0, size_hint_for(idle, 1200));
    assert_eq!(0, padding_len(30, 20));
    assert_eq!(15, padding_len(5, 20));
}

struct Probe {
    results: Vec<Result<usize, ()>>,
}

impl FrameExchangeInterestProvider for Probe {
    fn frame_exchange_interests(&self) -> FrameExchangeInterests {
        FrameExchangeInterests::none()
    }
}

impl DataProducer for Probe {
    fn on_transmit(&mut self, context: &mut TransmissionContext) -> Result<(), ()> {
        self.results.push(context.reserve_minimum_space_for_frame(8));
        assert_eq!(Some(9), context.write_frame(&[1, 2, 3, 4, 5, 6], AckElicitation::NonEliciting));
        assert_eq!(AckElicitation::NonEliciting, context.ack_elicitation());
        self.results.push(context.reserve_minimum_space_for_frame(5));
        self.results.push(context.reserve_minimum_space_for_frame(4));
        assert_eq!(None, context.write_frame(&[0; 5], AckElicitation::Eliciting));
        assert_eq!(AckElicitation::NonEliciting, context.ack_elicitation());
        assert_eq!(9, context.packet_number());
        Ok(())
    }
}

#[test]
fn write_context_capacity_checks() {
    let ctx = connection();
    let mut tx = ApplicationTransmission {
        ack_manager: acks(None),
        context: &ctx,
        packet_number: 9,
        stream_manager: Probe { results: Vec::new() },
        tx_packet_numbers: TxPacketNumbers::new(),
    };
    let mut storage = [0u8; 10];
    let mut buffer = EncoderBuffer::new(&mut storage);
    assert!(tx.encode(&mut buffer, 0));
    assert_eq!(vec![Ok(10), Err(()), Ok(4)], tx.stream_manager.results);
}

#[test]
fn space_interests_merge_producers() {
    let none = FrameExchangeInterests::none();
    let send = FrameExchangeInterests { delivery_notifications: false, transmission: true };
    let notify = FrameExchangeInterests { delivery_notifications: true, transmission: false };
    // the stream manager contributes only its wish to transmit
    assert_eq!(send, application_interests(FrameExchangeInterests { delivery_notifications: true, transmission: true }, none));
    assert_eq!(none, application_interests(notify, none));
    assert_eq!(notify, application_interests(none, notify));
    assert_eq!(
        FrameExchangeInterests { delivery_notifications: true, transmission: true },
        early_interests(notify, send)
    );
    assert_eq!(none, early_interests(none, none));
}

#[test]
fn try_encode_refuses_unusable_buffers() {
    let ctx = connection();
    let mut tx = ApplicationTransmission {
        ack_manager: acks(Some(vec![2; 3])),
        context: &ctx,
        packet_number: 4,
        stream_manager: frames(vec![]),
        tx_packet_numbers: TxPacketNumbers::default(),
    };
    let mut storage = [0u8; 16];
    let mut buffer = EncoderBuffer::new(&mut storage);
    // the minimum does not fit
    assert_eq!(None, tx.try_encode(&mut buffer, 17));
    buffer.write_slice(&[1]);
    // the buffer is not empty
    assert_eq!(None, tx.try_encode(&mut buffer, 0));
    assert_eq!(None, tx.tx_packet_numbers.last_sent());
    let mut storage = [0u8; 16];
    let mut buffer = EncoderBuffer::new(&mut storage);
    assert_eq!(Some(true), tx.try_encode(&mut buffer, 16));
    assert_eq!(16, buffer.len());
    assert_eq!(Some(4), tx.tx_packet_numbers.last_sent());
}

#[test]
fn finish_payload_pads_or_leaves_empty() {
    let mut tracker = TxPacketNumbers::new();
    let mut storage = [0xffu8; 8];
    let mut buffer = EncoderBuffer::new(&mut storage);
    assert!(!finish_payload(&mut buffer, 8, &mut tracker, 1));
    assert_eq!(0, buffer.len());
    assert_eq!(None, tracker.last_sent());
    buffer.write_slice(&[5, 5]);
    assert!(finish_payload(&mut buffer, 6, &mut tracker, 2));
    assert_eq!(6, buffer.len());
    assert_eq!(Some(2), tracker.last_sent());
    assert_eq!([5, 5, 0, 0, 0, 0, 0xff, 0xff], storage);
}
