// The state machine stepped by hand, and the word and parameter APIs.

use multiboot::ExchangeUnit;
use multiboot::MultibootParameter;
use multiboot::MultibootTransferMode;
use multiboot::params::handshake_of;
use multiboot::session::MultibootSession;
use multiboot::session::Phase;
use multiboot::session::Step;
use multiboot::session::ERR_PAYLOAD_SIZE;

fn unit(command: u8, data: u8) -> ExchangeUnit {
    ExchangeUnit::new(command, data)
}

fn all_absent() -> [ExchangeUnit; 3] {
    [unit(0xFF, 0xFF), unit(0xFF, 0xFF), unit(0xFF, 0xFF)]
}

fn sample_payload(len: usize) -> Vec<u8> {
    (0..len).map(|i| (i % 251) as u8).collect()
}

#[test]
fn word_round_trip() {
    for &(c, d) in &[(0x00u8, 0x00u8), (0x72, 0x02), (0x62, 0x00), (0xFF, 0xFF), (0x01, 0x80)] {
        let w = ExchangeUnit::new(c, d).to_word();
        assert_eq!(w, ((c as u16) << 8) | d as u16);
        let u = ExchangeUnit::from_word(w);
        assert_eq!(u.command, c);
        assert_eq!(u.data, d);
    }
    for &w in &[0x0000u16, 0x7202, 0x6200, 0xFFFF, 0x1234] {
        let u = ExchangeUnit::from_word(w);
        assert_eq!(u.to_word(), w);
    }
}

#[test]
fn handshake_arithmetic() {
    assert_eq!(handshake_of(0, 0, 0), 0x11);
    assert_eq!(handshake_of(0xAA, 0xFF, 0xFF), 0xB9);
    assert_eq!(handshake_of(0x10, 0x20, 0x30), 0x71);
    assert_eq!(handshake_of(0xFF, 0xFF, 0xFF), 0x0E);
    assert_eq!(handshake_of(0xEF, 0, 0), 0x00);
}

#[test]
fn parameter_defaults() {
    let p = MultibootParameter::default();
    assert_eq!(p.handshake_data, 0);
    assert_eq!(p.client_data, [0xFF, 0xFF, 0xFF]);
    assert_eq!(p.palette_data, 0x81);
    assert_eq!(p.client_bit, 0);
    assert_eq!(p.boot_srcp, 0);
    assert_eq!(p.boot_endp, 0);
}

#[test]
fn transfer_mode_values() {
    assert_eq!(MultibootTransferMode::Normal.mode_value(), 0);
    assert_eq!(MultibootTransferMode::MultiPlay.mode_value(), 1);
    assert_eq!(MultibootTransferMode::NormalUnstable.mode_value(), 2);
}

#[test]
fn size_gate_on_new() {
    assert!(MultibootSession::new(&sample_payload(447), 0x81, 0).err() == Some(ERR_PAYLOAD_SIZE));
    assert!(MultibootSession::new(&sample_payload(432), 0x81, 0).err() == Some(ERR_PAYLOAD_SIZE));
    assert!(
        MultibootSession::new(&sample_payload(0x40000), 0x81, 0).err() == Some(ERR_PAYLOAD_SIZE)
    );
    assert!(
        MultibootSession::new(&sample_payload(447), 0x81, 0).err() == Some(0b0_00111_00111_00111)
    );
    assert!(MultibootSession::new(&sample_payload(448), 0x81, 0).is_ok());
    assert!(MultibootSession::new(&sample_payload(0x3FFF0), 0x81, 0).is_ok());
}

#[test]
fn new_parameter_block() {
    let base = 0x0800_0000usize;
    let sess = MultibootSession::new(&sample_payload(448), 0x93, base).unwrap();
    assert!(sess.phase == Phase::LinkInit);
    assert_eq!(sess.params.palette_data, 0x93);
    assert_eq!(sess.params.client_data, [0xFF, 0xFF, 0xFF]);
    assert_eq!(sess.params.client_bit, 0);
    assert_eq!(sess.params.boot_srcp, base + 0xC0);
    assert_eq!(sess.params.boot_endp, base + 448);
}

#[test]
fn client_bit_discipline() {
    let payload = sample_payload(448);
    let mut sess = MultibootSession::new(&payload, 0x81, 0).unwrap();
    assert!(sess.on_control(0x2103 | 0x0008) == Step::Send(0x6200));
    assert!(sess.on_response(all_absent(), &payload) == Step::Send(0x6200));
    // Clients in slots 1 and 2 only: bits 0x04 and 0x08.
    let resp = [unit(0xFF, 0xFF), unit(0x72, 0x04), unit(0x72, 0x08)];
    assert!(sess.on_response(resp, &payload) == Step::Send(0x610C));
    assert!(sess.phase == Phase::Registration);
    assert_eq!(sess.params.client_bit, 0x0C);
    assert!(sess.clients_present == [false, true, true]);
}

#[test]
fn discovery_rejects_wrong_mask_bit() {
    let payload = sample_payload(448);
    let mut sess = MultibootSession::new(&payload, 0x81, 0).unwrap();
    sess.on_control(0x2103 | 0x0008);
    sess.on_response(all_absent(), &payload);
    // Slot 1 announces itself with slot 0's mask bit: unacceptable, so
    // the machine retries instead of registering.
    let resp = [unit(0xFF, 0xFF), unit(0x72, 0x02), unit(0xFF, 0xFF)];
    assert!(sess.on_response(resp, &payload) == Step::Send(0x6200));
    assert!(sess.phase == (Phase::Discovery { tries_used: 2 }));
}

#[test]
fn header_expected_commands() {
    let payload = sample_payload(448);
    let mut sess = MultibootSession::new(&payload, 0x81, 0).unwrap();
    sess.on_control(0x2103 | 0x0008);
    sess.on_response(all_absent(), &payload); // priming
    let disc = [unit(0x72, 0x02), unit(0xFF, 0xFF), unit(0xFF, 0xFF)];
    sess.on_response(disc, &payload); // discovery
    let step = sess.on_response(all_absent(), &payload); // registration
    // First header word, little-endian from payload bytes 0 and 1.
    let word0 = ((payload[1] as u16) << 8) | payload[0] as u16;
    assert!(step == Step::Send(word0));
    assert!(sess.phase == (Phase::Header { index: 0 }));
    // Walk the header: the expected command starts at 0x60 and falls to
    // 0x01 for the last word.
    let mut expected = 0x60u8;
    let mut step = step;
    for i in (0..0xC0usize).step_by(2) {
        assert!(sess.phase == (Phase::Header { index: i }));
        let resp = [unit(expected, 0x02), unit(0xFF, 0xFF), unit(0xFF, 0xFF)];
        step = sess.on_response(resp, &payload);
        expected -= 1;
    }
    assert_eq!(expected, 0);
    assert!(step == Step::Send(0x6200));
    assert!(sess.phase == Phase::ConcludeFirst);
}

#[test]
fn palette_and_firmware() {
    let payload = sample_payload(448);
    let mut sess = MultibootSession::new(&payload, 0x93, 0).unwrap();
    sess.on_control(0x2103 | 0x0008);
    sess.on_response(all_absent(), &payload);
    let disc = [unit(0x72, 0x02), unit(0x72, 0x04), unit(0xFF, 0xFF)];
    assert!(sess.on_response(disc, &payload) == Step::Send(0x6106));
    let mut step = sess.on_response(all_absent(), &payload);
    for _ in 0..96 {
        let e = match sess.phase {
            Phase::Header { index } => ((0xC0 - index) / 2) as u8,
            _ => unreachable!(),
        };
        let resp = [unit(e, 0x02), unit(e, 0x04), unit(0xFF, 0xFF)];
        step = sess.on_response(resp, &payload);
    }
    assert!(step == Step::Send(0x6200));
    assert!(sess.on_response(all_absent(), &payload) == Step::Send(0x6206));
    assert!(sess.on_response(all_absent(), &payload) == Step::Send(0x6393));
    let palette = [unit(0x73, 0x41), unit(0x73, 0x42), unit(0xFF, 0xFF)];
    // handshake: (0x11 + 0x41 + 0x42 + 0xFF) mod 256 == 0x93
    assert!(sess.on_response(palette, &payload) == Step::Send(0x6493));
    assert_eq!(sess.params.client_data, [0x41, 0x42, 0xFF]);
    assert_eq!(sess.params.handshake_data, 0x93);
    assert!(sess.on_response(all_absent(), &payload) == Step::Boot);
    assert!(sess.phase == Phase::Firmware);
    assert_eq!(sess.params.client_bit, 0x06);
    assert!(sess.on_firmware(true) == Step::Done);
    assert!(sess.phase == Phase::Complete);
}
