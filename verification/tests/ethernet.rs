use stm32f7_discovery::ethernet::start_send;
use stm32f7_discovery::ethernet::phy::{
    auto_negotiation_complete, auto_negotiation_result, link_established, mac_link_config,
    mii_clock_range, AutoNegotiationResult, MacLinkConfig, Speed,
};
use stm32f7_discovery::ethernet::tx::TxDescriptor;
use stm32f7_discovery::ethernet::{
    mac_address_registers, phy, Error, PortInUse, RxConfig, TxConfig, TxDevice, ETH_ADDR, MTU,
};

#[test]
fn tx_descriptor_empty_is_free() {
    let d = TxDescriptor::empty();
    assert!(!d.own());
    assert_eq!(d.buffer_1_address(), 0);
    assert_eq!(d.buffer_1_size(), 0);
}

#[test]
fn tx_descriptor_set_data_hands_buffer_to_dma() {
    let mut d = TxDescriptor::empty();
    d.set_end_of_ring(true);
    let old = d.set_data(0x2000_0000, 1500);
    assert_eq!(old, None);
    assert!(d.own());
    assert_eq!(d.buffer_1_address(), 0x2000_0000);
    assert_eq!(d.buffer_1_size(), 1500);
    // the DMA releases the descriptor
    d.set_own(false);
    assert_eq!(d.buffer(), Some((0x2000_0000, 1500)));
    assert_eq!(d.buffer(), None);
}

#[test]
fn tx_descriptor_set_data_returns_previous_buffer() {
    let mut d = TxDescriptor::empty();
    d.set_data(0x100, 64);
    d.set_own(false);
    let old = d.set_data(0x200, 128);
    assert_eq!(old, Some((0x100, 64)));
    assert_eq!(d.buffer_1_address(), 0x200);
    assert_eq!(d.buffer_1_size(), 128);
}

#[test]
fn tx_descriptor_size_field_keeps_other_bits() {
    let mut d = TxDescriptor::empty();
    d.set_buffer_1_size(0x1fff);
    assert_eq!(d.buffer_1_size(), 0x1fff);
    d.set_buffer_1_size(5);
    assert_eq!(d.buffer_1_size(), 5);
}

#[test]
fn rx_config_default_layout() {
    let config = RxConfig::default();
    assert_eq!(config.descriptor_buffer_size(0), 64);
    assert_eq!(config.descriptor_buffer_size(126), 64);
    assert_eq!(config.descriptor_buffer_size(127), MTU);
    assert_eq!(config.descriptor_buffer_offset(0), 0);
    assert_eq!(config.descriptor_buffer_offset(127), 127 * 64);
    // the buffers tile the receive buffer
    let mut total = 0;
    for i in 0..128 {
        assert_eq!(config.descriptor_buffer_offset(i), total);
        total += config.descriptor_buffer_size(i);
    }
    assert_eq!(total, 64 * 127 + MTU);
}

#[test]
fn tx_device_ring() {
    let mut dev = TxDevice::new(TxConfig::default());
    assert!(dev.queue_empty());
    assert!(!dev.front_of_queue().own());
    let freed = dev.insert(0x1000, 100);
    assert!(freed.is_empty());
    assert!(!dev.queue_empty());
    assert!(dev.front_of_queue().own());
    let freed = dev.cleanup();
    assert!(freed.is_empty());
}

#[test]
fn phy_decodes_special_status() {
    let done = 1u16 << 12;
    let r = auto_negotiation_result(done | (0b110 << 2)).unwrap();
    assert!(r.duplex);
    assert_eq!(r.speed, Speed::Speed100M);
    let r = auto_negotiation_result(done | (0b001 << 2)).unwrap();
    assert!(!r.duplex);
    assert_eq!(r.speed, Speed::Speed10M);
    let r = auto_negotiation_result(done | (0b101 << 2)).unwrap();
    assert!(r.duplex);
    assert_eq!(r.speed, Speed::Speed10M);
    let r = auto_negotiation_result(done | (0b010 << 2)).unwrap();
    assert!(!r.duplex);
    assert_eq!(r.speed, Speed::Speed100M);
    assert!(auto_negotiation_result(done | (0b111 << 2)).is_none());
    assert!(auto_negotiation_result(0b110 << 2).is_none());
}

#[test]
fn phy_basic_status_bits() {
    assert!(link_established(0b100));
    assert!(!link_established(0b011));
    assert!(auto_negotiation_complete(0b10_0000));
    assert!(!auto_negotiation_complete(0b01_1111));
}

#[test]
fn mac_address_register_values() {
    let (low, high) = mac_address_registers(&ETH_ADDR);
    assert_eq!(low, 0xab_dc_08_00);
    assert_eq!(high, 0xef_cd);
}

#[test]
fn port_in_use_and_errors() {
    let p = PortInUse::new(true, 80, "server");
    assert!(p.tcp);
    assert_eq!(p.port, 80);
    assert_eq!(p.f, "server");
    assert_eq!(
        Error::from_init_error(phy::Error::LinkTimeout),
        Error::Initialization(phy::Error::LinkTimeout)
    );
}

use stm32f7_discovery::ethernet::rx::RxStatus;
use stm32f7_discovery::ethernet::{packet_data_is_defined, RxDevice};

fn dma_owned() -> RxStatus {
    RxStatus { own: true, first: false, last: false, error: false, checksum_error: false, frame_len: 0 }
}

fn filled(first: bool, last: bool, frame_len: usize) -> RxStatus {
    RxStatus { own: false, first, last, error: false, checksum_error: false, frame_len }
}

#[test]
fn rx_device_layout() {
    let (_device, buffers) = RxDevice::new(RxConfig::default());
    assert_eq!(buffers.len(), 128);
    assert_eq!(buffers[0], (0, 64));
    assert_eq!(buffers[1], (64, 64));
    assert_eq!(buffers[127], (127 * 64, 1536));
}

#[test]
fn rx_device_receives_a_frame() {
    let config = RxConfig::default();
    let (mut device, _) = RxDevice::new(RxConfig::default());
    let mut statuses = vec![dma_owned(); 128];

    // nothing received yet
    assert!(packet_data_is_defined(&config, &statuses, 0));
    let ret = device.packet_data(&statuses, 0);
    assert_eq!(ret, Err(Error::Exhausted));
    assert_eq!(device.receive(&statuses, &ret), Vec::<usize>::new());

    // a frame of 150 bytes in descriptors 0, 1, 2
    statuses[0] = filled(true, false, 0);
    statuses[1] = filled(false, false, 0);
    // the last part is not yet there
    assert_eq!(device.packet_data(&statuses, 0), Err(Error::Exhausted));
    statuses[2] = filled(false, true, 150);
    assert!(packet_data_is_defined(&config, &statuses, 0));
    let ret = device.packet_data(&statuses, 0);
    assert_eq!(ret, Ok((0, 150)));
    assert_eq!(device.receive(&statuses, &ret), vec![1, 2, 0]);

    // the next frame starts at descriptor 3: one descriptor with a checksum error
    statuses[3] = RxStatus { checksum_error: true, ..filled(true, true, 60) };
    let ret = device.packet_data(&statuses, 3);
    assert_eq!(ret, Err(Error::Checksum));
    assert_eq!(device.receive(&statuses, &ret), vec![3]);

    // a truncated frame at 4, 5
    statuses[4] = filled(true, false, 0);
    statuses[5] = RxStatus { error: true, ..filled(false, true, 10) };
    let ret = device.packet_data(&statuses, 4);
    assert_eq!(ret, Err(Error::Truncated));
    assert_eq!(device.receive(&statuses, &ret), vec![4]);
    // the network stack refuses a good frame at 5 (its own error): only that descriptor goes back
    statuses[5] = filled(true, true, 42);
    assert_eq!(device.packet_data(&statuses, 5), Ok((5 * 64, 42)));
    let refused: Result<(), Error> = Err(Error::Unknown);
    assert_eq!(device.receive(&statuses, &refused), vec![5]);
}

#[test]
fn rx_device_checks_frames_against_the_ring() {
    let config = RxConfig::default();
    let mut statuses = vec![dma_owned(); 128];
    // a frame that would wrap around the end of the ring
    statuses[127] = filled(true, false, 0);
    assert!(!packet_data_is_defined(&config, &statuses, 127));
    // a frame without a first descriptor
    statuses[10] = filled(false, true, 20);
    assert!(!packet_data_is_defined(&config, &statuses, 10));
    // a frame longer than the buffer
    statuses[126] = filled(true, false, 0);
    statuses[127] = filled(false, true, 64 + 1536 + 1);
    assert!(!packet_data_is_defined(&config, &statuses, 126));
    statuses[127] = filled(false, true, 64 + 1536);
    assert!(packet_data_is_defined(&config, &statuses, 126));
    // out of the ring
    assert!(!packet_data_is_defined(&config, &statuses, 128));
}

#[test]
fn rx_device_wraps_to_the_start() {
    let (mut device, _) = RxDevice::new(RxConfig::default());
    let mut statuses = vec![dma_owned(); 128];
    for i in 0..127 {
        statuses[i] = filled(true, true, 10);
        let ret = device.packet_data(&statuses, i);
        assert_eq!(device.receive(&statuses, &ret), vec![i]);
    }
    statuses[127] = filled(true, true, 10);
    let ret = device.packet_data(&statuses, 127);
    assert_eq!(ret, Ok((127 * 64, 10)));
    assert_eq!(device.receive(&statuses, &ret), vec![127]);
    // back at descriptor 0
    statuses[0] = dma_owned();
    let ret = device.packet_data(&statuses, 0);
    assert_eq!(device.receive(&statuses, &ret), Vec::<usize>::new());
    statuses[0] = filled(true, true, 5);
    let ret = device.packet_data(&statuses, 0);
    assert_eq!(device.receive(&statuses, &ret), vec![0]);
}

#[test]
fn ethernet_start_send_wakes_a_suspended_process() {
    assert!(start_send(0b110, false));
    assert!(!start_send(0b110, true));
    for running in [0b001u8, 0b010, 0b011, 0b111] {
        assert!(!start_send(running, false));
    }
}

#[test]
fn port_in_use_message() {
    let p = PortInUse::new(true, 80, ());
    assert_eq!(String::from_utf8(p.message()).unwrap(), "TCP port 80 already in use\n");
    let p = PortInUse::new(false, 0, ());
    assert_eq!(String::from_utf8(p.message()).unwrap(), "UDP port 0 already in use\n");
    let p = PortInUse::new(false, 65535, ());
    assert_eq!(String::from_utf8(p.message()).unwrap(), "UDP port 65535 already in use\n");
}

#[test]
fn ethernet_init_checks() {
    assert_eq!(mii_clock_range(216_000_000), Some(0b100));
    assert_eq!(mii_clock_range(150_000_000), Some(0b100));
    assert_eq!(mii_clock_range(149_999_999), None);
    let full_100 = AutoNegotiationResult { duplex: true, speed: Speed::Speed100M };
    assert_eq!(
        mac_link_config(&full_100),
        Some(MacLinkConfig { fast_ethernet: true, full_duplex: true })
    );
    assert_eq!(mac_link_config(&AutoNegotiationResult { duplex: false, speed: Speed::Speed100M }), None);
    assert_eq!(mac_link_config(&AutoNegotiationResult { duplex: true, speed: Speed::Speed10M }), None);
}
