//! The application: a class C LoRaWAN end device that joins a network and
//! then sends a short frame at intervals.
//!
//! The MAC, the radio and the timer are not part of this library. The loop
//! that owns them reports what they answered to the functions of this module
//! and carries out what these decide: each function here is one transition of
//! the device, from its state and one event to its next state and to what has
//! to be asked of the MAC next.

use vstd::prelude::*;

verus! {

/// The base of the interval between two frames, in milliseconds.
pub const APP_TX_DUTYCYCLE: u32 = 30_000;

/// The largest random addition to the interval, in milliseconds.
pub const APP_TX_DUTYCYCLE_RND: u32 = 1_000;

/// The data rate of every frame.
pub const LORAWAN_DEFAULT_DATARATE: i8 = 0;

/// Whether frames ask for an acknowledgement.
pub const LORAWAN_CONFIRMED_MSG_ON: bool = true;

/// Whether the adaptive data rate is switched on; zero is off.
pub const LORAWAN_ADR_ON: u8 = 1;

/// The port of the application's frames.
pub const LORAWAN_APP_PORT: u8 = 2;

/// The room for the payload of a frame, in bytes.
pub const LORAWAN_APP_DATA_MAX_SIZE: usize = 16;

/// How often a join request, or a confirmed frame, is tried.
pub const LORAWAN_NB_TRIALS: u8 = 8;

/// Where the device is in its cycle.
#[derive(Clone, Copy, Debug, PartialEq, Eq, Structural)]
pub enum DeviceState {
    /// The MAC has not been initialised.
    Init,
    /// The device has to be activated.
    Join,
    /// A frame may be due.
    Send,
    /// The timer for the next frame has to be started.
    Cycle,
    /// Nothing to do but to serve the radio.
    Sleep,
}

/// The kind of a data request that the MAC confirms.
#[derive(Clone, Copy, Debug, PartialEq, Eq, Structural)]
pub enum McpsKind {
    Unconfirmed,
    Confirmed,
    Proprietary,
    Other,
}

/// The MAC's confirmation of a data request.
pub struct McpsConfirm {
    /// Whether the MAC reports success.
    pub status_ok: bool,
    pub request: McpsKind,
}

/// The MAC's notice of a received frame.
pub struct McpsIndication {
    /// Whether the MAC reports success.
    pub status_ok: bool,
    /// Whether the network holds more data for the device.
    pub frame_pending: bool,
    /// The number of payload bytes of the frame.
    pub buffer_size: u8,
}

/// What the loop does with a frame that arrived well.
#[derive(Clone, Copy, Debug, PartialEq, Eq, Structural)]
pub struct Received {
    /// Whether an uplink has to be scheduled at once: the loop then stops
    /// the timer and reports to [`App::on_tx_next_packet_timer_event`].
    pub uplink: bool,
    /// Whether the frame has a payload to show.
    pub has_payload: bool,
}

/// What a management confirmation of the MAC came to.
#[derive(Clone, Copy, Debug, PartialEq, Eq, Structural)]
pub enum MlmeOutcome {
    /// The network has been joined.
    Joined,
    /// The join failed and is tried again with the request.
    JoinFailed(JoinRequest),
    /// The confirmation was of no join.
    Other,
}

/// The kind of a management request that the MAC confirms.
#[derive(Clone, Copy, Debug, PartialEq, Eq, Structural)]
pub enum MlmeKind {
    Join,
    LinkCheck,
    Other,
}

/// The MAC's confirmation of a management request.
pub struct MlmeConfirm {
    /// Whether the MAC reports success.
    pub status_ok: bool,
    pub request: MlmeKind,
}

/// The kind of a management notice of the MAC.
#[derive(Clone, Copy, Debug, PartialEq, Eq, Structural)]
pub enum MlmeIndicationKind {
    ScheduleUplink,
    Other,
}

/// A join request for the loop to hand to the MAC. Its answer goes to
/// [`App::join_answered`].
#[derive(Clone, Copy, Debug, PartialEq, Eq, Structural)]
pub struct JoinRequest {
    /// How often the MAC is to try; zero leaves the number to the MAC.
    pub trials: u8,
}

/// How the device is activated.
#[derive(Clone, Copy, Debug, PartialEq, Eq, Structural)]
pub enum Activation {
    /// Over the air: by the join request.
    OverTheAir(JoinRequest),
    /// By personalisation: the loop installs the network identifier, the
    /// device address and the two session keys and marks the network as
    /// joined. It then calls [`App::personalised`].
    Personalised,
}

/// A data request for the loop to hand to the MAC. Its answer goes to
/// [`App::frame_answered`].
#[derive(Clone, Copy, Debug, PartialEq, Eq, Structural)]
pub enum FrameRequest {
    /// An empty unconfirmed frame, which flushes the MAC's own commands.
    Flush { datarate: i8 },
    /// The payload, unconfirmed.
    Unconfirmed { port: u8, size: u16, datarate: i8 },
    /// The payload, to be acknowledged.
    Confirmed { port: u8, size: u16, trials: u8, datarate: i8 },
}

// The commissioning of the device.

/// The identifier of the device.
pub open spec fn commissioned_dev_eui() -> Seq<u8> {
    seq![0x10u8, 0x00, 0x00, 0x00, 0x00, 0x00, 0x00, 0x01]
}

/// The identifier of the application.
pub open spec fn commissioned_app_eui() -> Seq<u8> {
    seq![0x00u8, 0x00, 0x00, 0x00, 0x00, 0x00, 0x00, 0x00]
}

/// The key for joining over the air.
pub open spec fn commissioned_app_key() -> Seq<u8> {
    seq![
        0x20u8, 0x00, 0x00, 0x00, 0x00, 0x00, 0x00, 0x00,
        0x00, 0x00, 0x00, 0x00, 0x00, 0x00, 0x00, 0x01,
    ]
}

/// The network session key of a personalised device.
pub open spec fn commissioned_nwk_skey() -> Seq<u8> {
    seq![
        0xd7u8, 0x2c, 0x78, 0x75, 0x8c, 0xdc, 0xca, 0xbf,
        0x55, 0xee, 0x4a, 0x77, 0x8d, 0x16, 0xef, 0x67,
    ]
}

/// The application session key of a personalised device.
pub open spec fn commissioned_app_skey() -> Seq<u8> {
    seq![
        0x15u8, 0xb1, 0xd0, 0xef, 0xa4, 0x63, 0xdf, 0xbe,
        0x3d, 0x11, 0x18, 0x1e, 0x1e, 0xc7, 0xda, 0x85,
    ]
}

/// The device: its keys, the frame it sends, and where it is in its cycle.
pub struct App {
    pub dev_eui: [u8; 8],
    pub app_eui: [u8; 8],
    pub app_key: [u8; 16],
    /// Network session key, for activation by personalisation.
    pub nwk_skey: [u8; 16],
    /// Application session key, for activation by personalisation.
    pub app_skey: [u8; 16],
    /// Device address, for activation by personalisation.
    pub dev_addr: u32,
    pub app_port: u8,
    /// The number of payload bytes in `app_data`.
    pub app_data_size: u16,
    pub app_data: [u8; 16],
    pub is_tx_confirmed: bool,
    /// The interval to the next frame, in milliseconds.
    pub tx_duty_cycle_time: u32,
    /// Whether a frame is due when the device next comes to `Send`.
    pub next_tx: bool,
    pub device_state: DeviceState,
}

impl App {
    /// The payload buffer once a frame has been prepared in it: the bytes 0,
    /// 1, 2 and 3 at its start, the rest as before.
    pub open spec fn prepared(old_data: Seq<u8>) -> Seq<u8> {
        old_data.update(0, 0x00u8).update(1, 0x01u8).update(2, 0x02u8).update(3, 0x03u8)
    }

    /// A device with the commissioning keys and the address `dev_addr`, not
    /// yet initialised, with a first frame due.
    pub fn new(dev_addr: u32) -> (app: App)
        ensures
            app.dev_eui@ == commissioned_dev_eui(),
            app.app_eui@ == commissioned_app_eui(),
            app.app_key@ == commissioned_app_key(),
            app.nwk_skey@ == commissioned_nwk_skey(),
            app.app_skey@ == commissioned_app_skey(),
            app.dev_addr == dev_addr,
            app.app_port == LORAWAN_APP_PORT,
            app.app_data_size == 4,
            app.app_data@ == Seq::new(16, |i: int| 0u8),
            app.is_tx_confirmed == LORAWAN_CONFIRMED_MSG_ON,
            app.tx_duty_cycle_time == APP_TX_DUTYCYCLE,
            app.next_tx,
            app.device_state == DeviceState::Init,
    {
        let app = App {
            dev_eui: [0x10, 0x00, 0x00, 0x00, 0x00, 0x00, 0x00, 0x01],
            app_eui: [0x00, 0x00, 0x00, 0x00, 0x00, 0x00, 0x00, 0x00],
            app_key: [
                0x20, 0x00, 0x00, 0x00, 0x00, 0x00, 0x00, 0x00,
                0x00, 0x00, 0x00, 0x00, 0x00, 0x00, 0x00, 0x01,
            ],
            nwk_skey: [
                0xd7, 0x2c, 0x78, 0x75, 0x8c, 0xdc, 0xca, 0xbf,
                0x55, 0xee, 0x4a, 0x77, 0x8d, 0x16, 0xef, 0x67,
            ],
            app_skey: [
                0x15, 0xb1, 0xd0, 0xef, 0xa4, 0x63, 0xdf, 0xbe,
                0x3d, 0x11, 0x18, 0x1e, 0x1e, 0xc7, 0xda, 0x85,
            ],
            dev_addr,
            app_port: LORAWAN_APP_PORT,
            app_data_size: 4,
            app_data: [0u8; 16],
            is_tx_confirmed: LORAWAN_CONFIRMED_MSG_ON,
            tx_duty_cycle_time: APP_TX_DUTYCYCLE,
            next_tx: true,
            device_state: DeviceState::Init,
        };
        assert(app.dev_eui@ =~= commissioned_dev_eui());
        assert(app.app_eui@ =~= commissioned_app_eui());
        assert(app.app_key@ =~= commissioned_app_key());
        assert(app.nwk_skey@ =~= commissioned_nwk_skey());
        assert(app.app_skey@ =~= commissioned_app_skey());
        assert(app.app_data@ =~= Seq::new(16, |i: int| 0u8));
        app
    }

    /// Puts the payload of the next frame in place. The port is not looked
    /// at: every frame carries the same four bytes.
    pub fn prepare_tx_frame(&mut self, _port: u8)
        ensures
            final(self).app_data@ == Self::prepared(old(self).app_data@),
            *final(self) == (App {
                app_data_size: 4,
                app_data: final(self).app_data,
                ..*old(self)
            }),
    {
        self.app_data_size = 4;
        self.app_data[0] = 0x00;
        self.app_data[1] = 0x01;
        self.app_data[2] = 0x02;
        self.app_data[3] = 0x03;
    }

    /// The MAC has been initialised and given its parameters: the device has
    /// to be activated next.
    pub fn mac_ready(&mut self)
        ensures
            *final(self) == (App { device_state: DeviceState::Join, ..*old(self) }),
    {
        self.device_state = DeviceState::Join;
    }

    /// How the device is to be activated.
    pub fn activation(&self, over_the_air: bool) -> (how: Activation)
        ensures
            how == if over_the_air {
                Activation::OverTheAir(JoinRequest { trials: LORAWAN_NB_TRIALS })
            } else {
                Activation::Personalised
            },
    {
        if over_the_air {
            Activation::OverTheAir(JoinRequest { trials: LORAWAN_NB_TRIALS })
        } else {
            Activation::Personalised
        }
    }

    /// The MAC has answered a join request. If it took the request, the
    /// device sleeps until the MAC confirms the join; if it did not, the
    /// device goes round its cycle and comes back to joining by the timer.
    pub fn join_answered(&mut self, accepted: bool)
        ensures
            *final(self) == (App {
                device_state: if accepted {
                    DeviceState::Sleep
                } else {
                    DeviceState::Cycle
                },
                ..*old(self)
            }),
    {
        if accepted {
            self.device_state = DeviceState::Sleep;
        } else {
            self.device_state = DeviceState::Cycle;
        }
    }

    /// The device has been activated by personalisation: it can send.
    pub fn personalised(&mut self)
        ensures
            *final(self) == (App { device_state: DeviceState::Send, ..*old(self) }),
    {
        self.device_state = DeviceState::Send;
    }

    /// The device serves `Send`. Says whether a frame is due, and puts its
    /// payload in place if one is.
    pub fn begin_send(&mut self) -> (due: bool)
        ensures
            due == old(self).next_tx,
            !due ==> *final(self) == *old(self),
            due ==> final(self).app_data@ == Self::prepared(old(self).app_data@),
            due ==> *final(self) == (App {
                app_data_size: 4,
                app_data: final(self).app_data,
                ..*old(self)
            }),
    {
        if self.next_tx {
            let port = self.app_port;
            self.prepare_tx_frame(port);
        }
        self.next_tx
    }

    /// The data request for the frame that is due. `tx_possible` is the MAC's
    /// answer to whether a payload of `app_data_size` bytes can be sent now.
    /// Where it cannot, an empty frame is sent in its place.
    pub fn send_frame(&self, tx_possible: bool) -> (request: FrameRequest)
        ensures
            request == if !tx_possible {
                FrameRequest::Flush { datarate: LORAWAN_DEFAULT_DATARATE }
            } else if !self.is_tx_confirmed {
                FrameRequest::Unconfirmed {
                    port: self.app_port,
                    size: self.app_data_size,
                    datarate: LORAWAN_DEFAULT_DATARATE,
                }
            } else {
                FrameRequest::Confirmed {
                    port: self.app_port,
                    size: self.app_data_size,
                    trials: LORAWAN_NB_TRIALS,
                    datarate: LORAWAN_DEFAULT_DATARATE,
                }
            },
    {
        if !tx_possible {
            FrameRequest::Flush { datarate: LORAWAN_DEFAULT_DATARATE }
        } else if !self.is_tx_confirmed {
            FrameRequest::Unconfirmed {
                port: self.app_port,
                size: self.app_data_size,
                datarate: LORAWAN_DEFAULT_DATARATE,
            }
        } else {
            FrameRequest::Confirmed {
                port: self.app_port,
                size: self.app_data_size,
                trials: LORAWAN_NB_TRIALS,
                datarate: LORAWAN_DEFAULT_DATARATE,
            }
        }
    }

    /// The MAC has answered the data request. A frame that it did not take
    /// stays due.
    pub fn frame_answered(&mut self, accepted: bool)
        ensures
            *final(self) == (App { next_tx: !accepted, ..*old(self) }),
    {
        self.next_tx = !accepted;
    }

    /// The device has served `Send`: the interval to the next frame is the
    /// base interval and `jitter`, and the timer has to be started.
    pub fn schedule_next_tx(&mut self, jitter: u32)
        requires
            APP_TX_DUTYCYCLE + jitter <= u32::MAX,
        ensures
            *final(self) == (App {
                tx_duty_cycle_time: (APP_TX_DUTYCYCLE + jitter) as u32,
                device_state: DeviceState::Cycle,
                ..*old(self)
            }),
    {
        self.tx_duty_cycle_time = APP_TX_DUTYCYCLE + jitter;
        self.device_state = DeviceState::Cycle;
    }

    /// The device serves `Cycle`: it goes to sleep, and the loop starts the
    /// timer with the interval that is returned.
    pub fn start_cycle(&mut self) -> (interval: u32)
        ensures
            interval == old(self).tx_duty_cycle_time,
            *final(self) == (App { device_state: DeviceState::Sleep, ..*old(self) }),
    {
        self.device_state = DeviceState::Sleep;
        self.tx_duty_cycle_time
    }

    /// The timer for the next frame has run out and has been stopped.
    /// `joined` is the MAC's answer to whether the network has been joined,
    /// or nothing if the MAC gave none; then nothing happens. A device that
    /// has joined sends; one that has not asks to join once more, with the
    /// request that is returned.
    pub fn on_tx_next_packet_timer_event(&mut self, joined: Option<bool>) -> (request: Option<
        JoinRequest,
    >)
        ensures
            request == if joined == Some(false) {
                Some(JoinRequest { trials: 0 })
            } else {
                None
            },
            *final(self) == if joined == Some(true) {
                App { device_state: DeviceState::Send, next_tx: true, ..*old(self) }
            } else {
                *old(self)
            },
    {
        match joined {
            Some(true) => {
                self.device_state = DeviceState::Send;
                self.next_tx = true;
                None
            },
            Some(false) => Some(JoinRequest { trials: 0 }),
            None => None,
        }
    }

    /// The MAC confirms a data request: whatever it reports, the next frame
    /// is due.
    pub fn mcps_confirm(&mut self, confirm: &McpsConfirm)
        ensures
            *final(self) == (App { next_tx: true, ..*old(self) }),
    {
        self.next_tx = true;
    }

    /// The MAC reports a received frame. A frame that did not arrive well is
    /// passed over. Of one that did, the loop shows the signal and the
    /// payload, and schedules an uplink at once where the network holds more
    /// data.
    pub fn mcps_indication(&self, indication: &McpsIndication) -> (received: Option<Received>)
        ensures
            received == if indication.status_ok {
                Some(
                    Received {
                        uplink: indication.frame_pending,
                        has_payload: indication.buffer_size != 0,
                    },
                )
            } else {
                None
            },
    {
        if indication.status_ok {
            Some(
                Received {
                    uplink: indication.frame_pending,
                    has_payload: indication.buffer_size != 0,
                },
            )
        } else {
            None
        }
    }

    /// The MAC confirms a management request. A join that succeeded lets the
    /// device send; one that failed is tried again, with the request that is
    /// returned. In every case the next frame is due.
    pub fn mlme_confirm(&mut self, confirm: &MlmeConfirm) -> (outcome: MlmeOutcome)
        ensures
            outcome == if confirm.request != MlmeKind::Join {
                MlmeOutcome::Other
            } else if confirm.status_ok {
                MlmeOutcome::Joined
            } else {
                MlmeOutcome::JoinFailed(JoinRequest { trials: LORAWAN_NB_TRIALS })
            },
            *final(self) == (App {
                next_tx: true,
                device_state: if confirm.request == MlmeKind::Join && confirm.status_ok {
                    DeviceState::Send
                } else {
                    old(self).device_state
                },
                ..*old(self)
            }),
    {
        self.next_tx = true;
        match confirm.request {
            MlmeKind::Join => {
                if confirm.status_ok {
                    self.device_state = DeviceState::Send;
                    MlmeOutcome::Joined
                } else {
                    MlmeOutcome::JoinFailed(JoinRequest { trials: LORAWAN_NB_TRIALS })
                }
            },
            _ => MlmeOutcome::Other,
        }
    }

    /// The MAC gives a management notice. Says whether an uplink has to be
    /// scheduled at once, as the MAC asks with `ScheduleUplink`; the loop
    /// then stops the timer and reports to
    /// [`App::on_tx_next_packet_timer_event`].
    pub fn mlme_indication(&self, indication: MlmeIndicationKind) -> (uplink: bool)
        ensures
            uplink == (indication == MlmeIndicationKind::ScheduleUplink),
    {
        match indication {
            MlmeIndicationKind::ScheduleUplink => true,
            MlmeIndicationKind::Other => false,
        }
    }
}

} // verus!
