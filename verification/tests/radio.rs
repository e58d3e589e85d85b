use lora_rs::radio::{
    lamp_of, Node, Reaction, States_t, BUFFER_LEN, RF_FREQUENCY, RX_TIMEOUT_VALUE,
    TX_OUTPUT_POWER,
};

#[test]
fn the_constants_of_the_link() {
    assert_eq!(RF_FREQUENCY, 470_000_000);
    assert_eq!(TX_OUTPUT_POWER, 14);
    assert_eq!(RX_TIMEOUT_VALUE, 1800);
    assert_eq!(BUFFER_LEN, 5);
}

#[test]
fn a_new_node_has_nothing_to_serve() {
    let mut node = Node::new();
    assert_eq!(node.state, States_t::LowPower);
    assert_eq!(node.buffer_size, 5);
    assert_eq!(node.buffer, [0; 5]);
    assert_eq!(node.rssi_value, 0);
    assert_eq!(node.snr_value, 0);
    assert_eq!(node.serve(), Reaction { listen: false, received: None, toggle: None });
    assert_eq!(node.state, States_t::LowPower);
}

#[test]
fn the_lamps_are_named_by_letters() {
    assert_eq!(lamp_of(b'R'), Some(5));
    assert_eq!(lamp_of(b'G'), Some(4));
    assert_eq!(lamp_of(b'B'), Some(3));
    assert_eq!(lamp_of(b'r'), None);
    assert_eq!(lamp_of(0), None);
    assert_eq!(lamp_of(0xFF), None);
}

#[test]
fn a_received_frame_is_kept_with_its_signal() {
    let mut node = Node::new();
    node.on_rx_done(&[b'G', 7, 8], -97, 6);
    assert_eq!(node.state, States_t::Rx);
    assert_eq!(node.buffer_size, 3);
    assert_eq!(node.buffer, [b'G', 7, 8, 0, 0]);
    assert_eq!(node.rssi_value, -97);
    assert_eq!(node.snr_value, 6);
    node.on_rx_done(&[1, 2, 3, 4, 5], -200, -3);
    assert_eq!(node.buffer_size, 5);
    assert_eq!(node.buffer, [1, 2, 3, 4, 5]);
    assert_eq!(node.rssi_value, 56);
    assert_eq!(node.snr_value, -3);
    node.on_rx_done(&[], 0, 0);
    assert_eq!(node.buffer_size, 0);
    assert_eq!(node.buffer, [1, 2, 3, 4, 5]);
}

#[test]
fn a_received_frame_toggles_its_lamp_and_listens_again() {
    for (letter, pin) in [(b'R', Some(5u8)), (b'G', Some(4)), (b'B', Some(3)), (b'x', None)] {
        let mut node = Node::new();
        node.on_rx_done(&[letter, 0, 1], -80, 5);
        assert_eq!(node.serve(), Reaction { listen: true, received: Some(letter), toggle: pin });
        assert_eq!(node.state, States_t::LowPower);
        assert_eq!(node.serve(), Reaction { listen: false, received: None, toggle: None });
    }
}

#[test]
fn an_empty_received_frame_is_served_by_doing_nothing() {
    let mut node = Node::new();
    node.on_rx_done(&[b'R'], -80, 5);
    node.serve();
    node.on_rx_done(&[], -80, 5);
    assert_eq!(node.buffer[0], b'R');
    assert_eq!(node.serve(), Reaction { listen: false, received: None, toggle: None });
    assert_eq!(node.state, States_t::LowPower);
}

#[test]
fn after_every_other_report_the_radio_listens_again() {
    let mut node = Node::new();
    node.on_tx_done();
    assert_eq!(node.state, States_t::Tx);
    assert_eq!(node.serve(), Reaction { listen: true, received: None, toggle: None });
    node.on_tx_timeout();
    assert_eq!(node.state, States_t::TxTimeout);
    assert_eq!(node.serve(), Reaction { listen: true, received: None, toggle: None });
    node.on_rx_timeout();
    assert_eq!(node.state, States_t::RxTimeout);
    assert_eq!(node.serve(), Reaction { listen: true, received: None, toggle: None });
    node.on_rx_error();
    assert_eq!(node.state, States_t::RxError);
    assert_eq!(node.serve(), Reaction { listen: true, received: None, toggle: None });
    assert_eq!(node.state, States_t::LowPower);
    assert_eq!(node.buffer, [0; 5]);
}

#[test]
fn a_byte_from_the_uart_heads_a_counting_frame() {
    let mut node = Node::new();
    node.frame_from_uart(b'R');
    assert_eq!(node.buffer, [b'R', 0, 1, 2, 3]);
    assert_eq!(node.buffer_size, 5);
    assert_eq!(node.state, States_t::LowPower);
}

#[test]
fn the_frame_from_the_uart_is_as_long_as_the_frame_before() {
    let mut node = Node::new();
    node.on_rx_done(&[9, 9, 9], -80, 5);
    node.serve();
    node.buffer = [9; 5];
    node.frame_from_uart(b'B');
    assert_eq!(node.buffer, [b'B', 0, 1, 9, 9]);
    assert_eq!(node.buffer_size, 3);
    node.on_rx_done(&[], -80, 5);
    node.buffer = [7; 5];
    node.frame_from_uart(b'G');
    assert_eq!(node.buffer, [b'G', 7, 7, 7, 7]);
    assert_eq!(node.buffer_size, 0);
}
