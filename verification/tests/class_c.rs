use lora_rs::class_c::{
    Activation, App, DeviceState, FrameRequest, JoinRequest, McpsConfirm, McpsIndication,
    McpsKind, MlmeConfirm, MlmeIndicationKind, MlmeKind, MlmeOutcome, Received,
    APP_TX_DUTYCYCLE, APP_TX_DUTYCYCLE_RND, LORAWAN_ADR_ON, LORAWAN_APP_DATA_MAX_SIZE,
    LORAWAN_APP_PORT, LORAWAN_CONFIRMED_MSG_ON, LORAWAN_DEFAULT_DATARATE, LORAWAN_NB_TRIALS,
};

#[test]
fn the_constants_of_the_application() {
    assert_eq!(APP_TX_DUTYCYCLE, 30_000);
    assert_eq!(APP_TX_DUTYCYCLE_RND, 1_000);
    assert_eq!(LORAWAN_DEFAULT_DATARATE, 0);
    assert!(LORAWAN_CONFIRMED_MSG_ON);
    assert_eq!(LORAWAN_ADR_ON, 1);
    assert_eq!(LORAWAN_APP_PORT, 2);
    assert_eq!(LORAWAN_APP_DATA_MAX_SIZE, 16);
    assert_eq!(LORAWAN_NB_TRIALS, 8);
}

#[test]
fn a_new_device_is_not_initialised_and_has_a_frame_due() {
    let app = App::new(0x007E_6AE1);
    assert_eq!(app.dev_eui, [0x10, 0, 0, 0, 0, 0, 0, 0x01]);
    assert_eq!(app.app_eui, [0; 8]);
    assert_eq!(app.app_key, [0x20, 0, 0, 0, 0, 0, 0, 0, 0, 0, 0, 0, 0, 0, 0, 0x01]);
    assert_eq!(
        app.nwk_skey,
        [
            0xd7, 0x2c, 0x78, 0x75, 0x8c, 0xdc, 0xca, 0xbf, 0x55, 0xee, 0x4a, 0x77, 0x8d, 0x16,
            0xef, 0x67
        ]
    );
    assert_eq!(
        app.app_skey,
        [
            0x15, 0xb1, 0xd0, 0xef, 0xa4, 0x63, 0xdf, 0xbe, 0x3d, 0x11, 0x18, 0x1e, 0x1e, 0xc7,
            0xda, 0x85
        ]
    );
    assert_eq!(app.dev_addr, 0x007E_6AE1);
    assert_eq!(app.app_port, 2);
    assert_eq!(app.app_data_size, 4);
    assert_eq!(app.app_data, [0; 16]);
    assert!(app.is_tx_confirmed);
    assert_eq!(app.tx_duty_cycle_time, 30_000);
    assert!(app.next_tx);
    assert_eq!(app.device_state, DeviceState::Init);
}

#[test]
fn the_frame_holds_four_counting_bytes() {
    let mut app = App::new(1);
    app.app_data = [0xEE; 16];
    app.app_data_size = 9;
    app.prepare_tx_frame(2);
    assert_eq!(app.app_data_size, 4);
    assert_eq!(&app.app_data[..4], &[0, 1, 2, 3]);
    assert_eq!(&app.app_data[4..], &[0xEE; 12]);
    assert_eq!(app.device_state, DeviceState::Init);
    assert!(app.next_tx);
    app.prepare_tx_frame(200);
    assert_eq!(&app.app_data[..4], &[0, 1, 2, 3]);
}

#[test]
fn the_device_goes_from_init_to_join() {
    let mut app = App::new(1);
    app.mac_ready();
    assert_eq!(app.device_state, DeviceState::Join);
    assert!(app.next_tx);
}

#[test]
fn activation_over_the_air_is_a_join_request_with_eight_trials() {
    let app = App::new(1);
    assert_eq!(app.activation(true), Activation::OverTheAir(JoinRequest { trials: 8 }));
    assert_eq!(app.activation(false), Activation::Personalised);
}

#[test]
fn a_join_request_that_is_taken_lets_the_device_sleep() {
    let mut app = App::new(1);
    app.mac_ready();
    app.join_answered(true);
    assert_eq!(app.device_state, DeviceState::Sleep);
    app.join_answered(false);
    assert_eq!(app.device_state, DeviceState::Cycle);
}

#[test]
fn a_personalised_device_sends_at_once() {
    let mut app = App::new(1);
    app.mac_ready();
    app.personalised();
    assert_eq!(app.device_state, DeviceState::Send);
}

#[test]
fn the_frame_is_confirmed_unconfirmed_or_empty() {
    let mut app = App::new(1);
    app.prepare_tx_frame(2);
    assert_eq!(
        app.send_frame(true),
        FrameRequest::Confirmed { port: 2, size: 4, trials: 8, datarate: 0 }
    );
    assert_eq!(app.send_frame(false), FrameRequest::Flush { datarate: 0 });
    app.is_tx_confirmed = false;
    app.app_port = 7;
    app.app_data_size = 11;
    assert_eq!(app.send_frame(true), FrameRequest::Unconfirmed { port: 7, size: 11, datarate: 0 });
    assert_eq!(app.send_frame(false), FrameRequest::Flush { datarate: 0 });
}

#[test]
fn a_frame_that_the_mac_did_not_take_stays_due() {
    let mut app = App::new(1);
    app.frame_answered(true);
    assert!(!app.next_tx);
    app.frame_answered(false);
    assert!(app.next_tx);
}

#[test]
fn the_interval_is_the_base_and_the_jitter() {
    let mut app = App::new(1);
    app.personalised();
    app.schedule_next_tx(0);
    assert_eq!(app.tx_duty_cycle_time, 30_000);
    assert_eq!(app.device_state, DeviceState::Cycle);
    app.schedule_next_tx(1_000);
    assert_eq!(app.tx_duty_cycle_time, 31_000);
    app.schedule_next_tx(417);
    assert_eq!(app.tx_duty_cycle_time, 30_417);
    app.schedule_next_tx(0xFFFF_8ACF);
    assert_eq!(app.tx_duty_cycle_time, 0xFFFF_FFFF);
}

#[test]
fn the_cycle_starts_the_timer_and_sleeps() {
    let mut app = App::new(1);
    app.schedule_next_tx(250);
    assert_eq!(app.start_cycle(), 30_250);
    assert_eq!(app.device_state, DeviceState::Sleep);
    assert_eq!(app.tx_duty_cycle_time, 30_250);
}

#[test]
fn the_timer_sends_on_a_joined_device() {
    let mut app = App::new(1);
    app.join_answered(true);
    app.frame_answered(true);
    assert_eq!(app.on_tx_next_packet_timer_event(Some(true)), None);
    assert_eq!(app.device_state, DeviceState::Send);
    assert!(app.next_tx);
}

#[test]
fn the_timer_joins_again_on_a_device_that_has_not_joined() {
    let mut app = App::new(1);
    app.join_answered(true);
    app.frame_answered(true);
    assert_eq!(app.on_tx_next_packet_timer_event(Some(false)), Some(JoinRequest { trials: 0 }));
    assert_eq!(app.device_state, DeviceState::Sleep);
    assert!(!app.next_tx);
    app.join_answered(false);
    assert_eq!(app.device_state, DeviceState::Cycle);
}

#[test]
fn the_timer_does_nothing_without_an_answer_of_the_mac() {
    let mut app = App::new(1);
    app.join_answered(false);
    app.frame_answered(true);
    assert_eq!(app.on_tx_next_packet_timer_event(None), None);
    assert_eq!(app.device_state, DeviceState::Cycle);
    assert!(!app.next_tx);
}

#[test]
fn every_data_confirmation_makes_the_next_frame_due() {
    for status_ok in [true, false] {
        for request in
            [McpsKind::Unconfirmed, McpsKind::Confirmed, McpsKind::Proprietary, McpsKind::Other]
        {
            let mut app = App::new(1);
            app.personalised();
            app.frame_answered(true);
            app.mcps_confirm(&McpsConfirm { status_ok, request });
            assert!(app.next_tx);
            assert_eq!(app.device_state, DeviceState::Send);
        }
    }
}

#[test]
fn a_frame_that_arrived_well_is_shown_and_may_ask_for_an_uplink() {
    let app = App::new(1);
    let seen = |status_ok, frame_pending, buffer_size| {
        app.mcps_indication(&McpsIndication { status_ok, frame_pending, buffer_size })
    };
    assert_eq!(seen(true, true, 3), Some(Received { uplink: true, has_payload: true }));
    assert_eq!(seen(true, false, 1), Some(Received { uplink: false, has_payload: true }));
    assert_eq!(seen(true, true, 0), Some(Received { uplink: true, has_payload: false }));
    assert_eq!(seen(true, false, 0), Some(Received { uplink: false, has_payload: false }));
    assert_eq!(seen(true, false, 255), Some(Received { uplink: false, has_payload: true }));
}

#[test]
fn a_frame_that_did_not_arrive_well_is_passed_over() {
    let app = App::new(1);
    for frame_pending in [true, false] {
        for buffer_size in [0u8, 4] {
            let indication = McpsIndication { status_ok: false, frame_pending, buffer_size };
            assert_eq!(app.mcps_indication(&indication), None);
        }
    }
}

#[test]
fn a_due_frame_is_prepared_when_the_device_comes_to_send() {
    let mut app = App::new(1);
    app.app_data = [0xEE; 16];
    app.app_data_size = 9;
    assert!(app.begin_send());
    assert_eq!(app.app_data_size, 4);
    assert_eq!(&app.app_data[..5], &[0, 1, 2, 3, 0xEE]);
    assert!(app.next_tx);
    app.frame_answered(true);
    app.app_data = [0xAA; 16];
    app.app_data_size = 7;
    assert!(!app.begin_send());
    assert_eq!(app.app_data_size, 7);
    assert_eq!(app.app_data, [0xAA; 16]);
}

#[test]
fn a_confirmed_join_lets_the_device_send() {
    let mut app = App::new(1);
    app.join_answered(true);
    app.frame_answered(true);
    let outcome = app.mlme_confirm(&MlmeConfirm { status_ok: true, request: MlmeKind::Join });
    assert_eq!(outcome, MlmeOutcome::Joined);
    assert_eq!(app.device_state, DeviceState::Send);
    assert!(app.next_tx);
}

#[test]
fn a_failed_join_is_tried_again() {
    let mut app = App::new(1);
    app.join_answered(true);
    app.frame_answered(true);
    let outcome = app.mlme_confirm(&MlmeConfirm { status_ok: false, request: MlmeKind::Join });
    assert_eq!(outcome, MlmeOutcome::JoinFailed(JoinRequest { trials: 8 }));
    assert_eq!(app.device_state, DeviceState::Sleep);
    assert!(app.next_tx);
    app.join_answered(false);
    assert_eq!(app.device_state, DeviceState::Cycle);
    assert!(app.next_tx);
}

#[test]
fn another_confirmation_changes_only_the_due_frame() {
    for request in [MlmeKind::LinkCheck, MlmeKind::Other] {
        for status_ok in [true, false] {
            let mut app = App::new(1);
            app.join_answered(true);
            app.frame_answered(true);
            let outcome = app.mlme_confirm(&MlmeConfirm { status_ok, request });
            assert_eq!(outcome, MlmeOutcome::Other);
            assert_eq!(app.device_state, DeviceState::Sleep);
            assert!(app.next_tx);
        }
    }
}

#[test]
fn the_mac_can_ask_for_an_uplink() {
    let app = App::new(1);
    assert!(app.mlme_indication(MlmeIndicationKind::ScheduleUplink));
    assert!(!app.mlme_indication(MlmeIndicationKind::Other));
}

#[test]
fn a_round_of_the_device_from_start_to_sleep() {
    let mut app = App::new(0x1234);
    app.mac_ready();
    match app.activation(true) {
        Activation::OverTheAir(request) => assert_eq!(request.trials, 8),
        Activation::Personalised => panic!("activation over the air was asked for"),
    }
    app.join_answered(true);
    assert_eq!(app.device_state, DeviceState::Sleep);
    app.mlme_confirm(&MlmeConfirm { status_ok: true, request: MlmeKind::Join });
    assert_eq!(app.device_state, DeviceState::Send);
    assert!(app.next_tx);
    assert!(app.begin_send());
    let request = app.send_frame(true);
    assert_eq!(request, FrameRequest::Confirmed { port: 2, size: 4, trials: 8, datarate: 0 });
    app.frame_answered(true);
    app.schedule_next_tx(500);
    assert_eq!(app.device_state, DeviceState::Cycle);
    assert_eq!(app.start_cycle(), 30_500);
    assert_eq!(app.device_state, DeviceState::Sleep);
    app.mcps_confirm(&McpsConfirm { status_ok: true, request: McpsKind::Confirmed });
    assert_eq!(app.on_tx_next_packet_timer_event(Some(true)), None);
    assert_eq!(app.device_state, DeviceState::Send);
}
