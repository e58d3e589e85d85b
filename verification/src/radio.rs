//! The radio demonstration: a node that sends on what arrives at its UART and
//! shows what arrives by radio on three lamps.
//!
//! The radio itself is not part of this library. Its callbacks and the loop
//! around it report to the functions of this module, which keep the state of
//! the node and decide what the loop does next.

use vstd::prelude::*;
use crate::peripherals::gpio::{GPIO_PIN_3, GPIO_PIN_4, GPIO_PIN_5};

verus! {

/// The channel, in hertz.
pub const RF_FREQUENCY: u32 = 470000000;

/// The output power, in dBm.
pub const TX_OUTPUT_POWER: i8 = 14;

/// How long the radio listens before it reports a timeout, in milliseconds.
pub const RX_TIMEOUT_VALUE: u32 = 1800;

/// The length of the frame buffer, in bytes.
pub const BUFFER_LEN: usize = 5;

/// What the radio reported last and the loop has not served yet.
#[allow(non_camel_case_types)]
#[derive(Clone, Copy, Debug, PartialEq, Eq, Structural)]
pub enum States_t {
    LowPower,
    Rx,
    RxTimeout,
    RxError,
    Tx,
    TxTimeout,
}

/// What the loop has to do after the node has served a report.
#[derive(Clone, Copy, Debug, PartialEq, Eq, Structural)]
pub struct Reaction {
    /// Whether the radio has to be put back to listening, for
    /// `RX_TIMEOUT_VALUE`.
    pub listen: bool,
    /// The first byte of the frame that was served, if one was.
    pub received: Option<u8>,
    /// The pin of port A to toggle, if any.
    pub toggle: Option<u8>,
}

/// The node: the last report of the radio and the frame last sent or
/// received.
pub struct Node {
    pub state: States_t,
    /// The number of bytes of `buffer` that belong to the frame.
    pub buffer_size: u16,
    pub buffer: [u8; 5],
    pub rssi_value: i8,
    pub snr_value: i8,
}

/// The pin of the lamp that a received frame names by its first byte: `R`,
/// `G` or `B`.
pub open spec fn spec_lamp_of(byte: u8) -> Option<u8> {
    if byte == 0x52 {
        Some(GPIO_PIN_5)
    } else if byte == 0x47 {
        Some(GPIO_PIN_4)
    } else if byte == 0x42 {
        Some(GPIO_PIN_3)
    } else {
        None
    }
}

#[verifier::when_used_as_spec(spec_lamp_of)]
pub fn lamp_of(byte: u8) -> (pin: Option<u8>)
    ensures
        pin == spec_lamp_of(byte),
{
    if byte == 0x52 {
        Some(GPIO_PIN_5)
    } else if byte == 0x47 {
        Some(GPIO_PIN_4)
    } else if byte == 0x42 {
        Some(GPIO_PIN_3)
    } else {
        None
    }
}

/// The frame that goes out for a byte from the UART: the byte itself, then
/// the numbers 0, 1, 2, ... up to the length of the frame. Bytes of the
/// buffer beyond the frame are as they were.
pub open spec fn frame_for(old_buffer: Seq<u8>, size: int, first: u8) -> Seq<u8> {
    Seq::new(
        old_buffer.len(),
        |i: int|
            if i == 0 {
                first
            } else if i < size {
                (i - 1) as u8
            } else {
                old_buffer[i]
            },
    )
}

impl Node {
    /// The frame is no longer than the buffer.
    pub open spec fn wf(&self) -> bool {
        self.buffer_size <= BUFFER_LEN
    }

    /// A node that has nothing to serve, with a frame of five zero bytes.
    pub fn new() -> (node: Node)
        ensures
            node.wf(),
            node.state == States_t::LowPower,
            node.buffer_size == 5,
            node.buffer@ == Seq::new(5, |i: int| 0u8),
            node.rssi_value == 0,
            node.snr_value == 0,
    {
        let node = Node {
            state: States_t::LowPower,
            buffer_size: 5,
            buffer: [0u8; 5],
            rssi_value: 0,
            snr_value: 0,
        };
        assert(node.buffer@ =~= Seq::new(5, |i: int| 0u8));
        node
    }

    /// The radio has sent a frame.
    pub fn on_tx_done(&mut self)
        ensures
            *final(self) == (Node { state: States_t::Tx, ..*old(self) }),
    {
        self.state = States_t::Tx;
    }

    /// The radio has received the frame `payload`, which fits the buffer. It
    /// is kept with its signal strength, cut to eight bits, and its
    /// signal-to-noise ratio.
    pub fn on_rx_done(&mut self, payload: &[u8], rssi: i16, snr: i8)
        requires
            payload@.len() <= BUFFER_LEN,
        ensures
            final(self).wf(),
            final(self).state == States_t::Rx,
            final(self).buffer_size == payload@.len(),
            final(self).buffer@ == Seq::new(
                5,
                |i: int|
                    if i < payload@.len() {
                        payload@[i]
                    } else {
                        old(self).buffer@[i]
                    },
            ),
            final(self).rssi_value == rssi as i8,
            final(self).snr_value == snr,
    {
        let size = payload.len();
        let mut i: usize = 0;
        while i < size
            invariant
                i <= size,
                size == payload@.len(),
                size <= BUFFER_LEN,
                self.buffer@ =~= Seq::new(
                    5,
                    |k: int|
                        if k < i {
                            payload@[k]
                        } else {
                            old(self).buffer@[k]
                        },
                ),
            decreases size - i,
        {
            self.buffer[i] = payload[i];
            i += 1;
        }
        self.buffer_size = size as u16;
        self.rssi_value = #[verifier::truncate] (rssi as i8);
        self.snr_value = snr;
        self.state = States_t::Rx;
    }

    /// The radio has given up sending.
    pub fn on_tx_timeout(&mut self)
        ensures
            *final(self) == (Node { state: States_t::TxTimeout, ..*old(self) }),
    {
        self.state = States_t::TxTimeout;
    }

    /// The radio has heard nothing in time.
    pub fn on_rx_timeout(&mut self)
        ensures
            *final(self) == (Node { state: States_t::RxTimeout, ..*old(self) }),
    {
        self.state = States_t::RxTimeout;
    }

    /// The radio has received a damaged frame.
    pub fn on_rx_error(&mut self)
        ensures
            *final(self) == (Node { state: States_t::RxError, ..*old(self) }),
    {
        self.state = States_t::RxError;
    }

    /// A byte has arrived at the UART: the frame to send for it is put in
    /// the buffer. Its length is that of the frame before.
    pub fn frame_from_uart(&mut self, recv: u8)
        requires
            old(self).wf(),
        ensures
            final(self).buffer@ == frame_for(old(self).buffer@, old(self).buffer_size as int, recv),
            *final(self) == (Node { buffer: final(self).buffer, ..*old(self) }),
    {
        self.buffer[0] = recv;
        let mut i: u16 = 1;
        while i < self.buffer_size
            invariant
                1 <= i,
                i <= self.buffer_size || i == 1,
                self.wf(),
                *self == (Node { buffer: self.buffer, ..*old(self) }),
                self.buffer@ =~= frame_for(old(self).buffer@, i as int, recv),
            decreases self.buffer_size - i,
        {
            self.buffer[i as usize] = (i - 1) as u8;
            i += 1;
        }
        assert(self.buffer@ =~= frame_for(old(self).buffer@, old(self).buffer_size as int, recv));
    }

    /// Serves the last report of the radio. After a frame that holds at
    /// least one byte, the lamp that its first byte names is toggled and the
    /// radio listens again; after an empty frame nothing is done. After a
    /// sent frame, a timeout or an error the radio listens again. In every
    /// case the report counts as served.
    pub fn serve(&mut self) -> (reaction: Reaction)
        ensures
            *final(self) == (Node { state: States_t::LowPower, ..*old(self) }),
            reaction == match old(self).state {
                States_t::LowPower => Reaction { listen: false, received: None, toggle: None },
                States_t::Rx => if old(self).buffer_size > 0 {
                    Reaction {
                        listen: true,
                        received: Some(old(self).buffer@[0]),
                        toggle: lamp_of(old(self).buffer@[0]),
                    }
                } else {
                    Reaction { listen: false, received: None, toggle: None }
                },
                _ => Reaction { listen: true, received: None, toggle: None },
            },
    {
        let reaction = match self.state {
            States_t::LowPower => Reaction { listen: false, received: None, toggle: None },
            States_t::Rx => {
                if self.buffer_size > 0 {
                    Reaction {
                        listen: true,
                        received: Some(self.buffer[0]),
                        toggle: lamp_of(self.buffer[0]),
                    }
                } else {
                    Reaction { listen: false, received: None, toggle: None }
                }
            },
            _ => Reaction { listen: true, received: None, toggle: None },
        };
        self.state = States_t::LowPower;
        reaction
    }
}

} // verus!
