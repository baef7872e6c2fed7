use binrw::helpers::until_eof;
use binrw::io::{Cursor, Read, Seek};
use binrw::{BinRead, BinResult, Endian};
use fan_remote::error::Failure;
use fan_remote::ir::{
    bl_parse_ticks, broadlink_to_signal, packet_to_signal, BLPacket, BLSymbol, PinState, Pulse,
    Symbol, POWER, SPEED, TIMER,
};
use fan_remote::state::Key;

fn symbol(high: u16, low: u16) -> Symbol {
    Symbol {
        first: Pulse { pin_state: PinState::High, ticks: high },
        second: Pulse { pin_state: PinState::Low, ticks: low },
    }
}

fn microseconds(t: u16) -> u16 {
    let tick: f64 = 1000. * 269. / 8192.;
    std::cmp::min((tick * t as f64) as u16, 0x7FFF)
}

/// A symbol that is read by another library.
struct OtherSymbol(u16, u16);

fn other_ticks<R: Read + Seek>(reader: &mut R) -> BinResult<u16> {
    let mut t = u8::read(reader)? as u16;
    if t == 0 {
        t = u16::read_be(reader)?;
    }
    Ok(microseconds(t))
}

impl BinRead for OtherSymbol {
    type Args<'a> = ();

    fn read_options<R: Read + Seek>(reader: &mut R, _: Endian, _: ()) -> BinResult<Self> {
        Ok(OtherSymbol(other_ticks(reader)?, other_ticks(reader)?))
    }
}

fn other_signal(bytes: &[u8]) -> Vec<Symbol> {
    let read: Vec<OtherSymbol> =
        until_eof(&mut Cursor::new(&bytes[4..]), Endian::Big, ()).unwrap();
    read.iter().map(|s| symbol(s.0, s.1)).collect()
}

#[test]
fn ticks_are_scaled_and_cut() {
    assert_eq!(bl_parse_ticks(&[1], 0), Some((32, 1)));
    assert_eq!(bl_parse_ticks(&[0x24], 0), Some((1182, 1)));
    assert_eq!(bl_parse_ticks(&[255], 0), Some((8373, 1)));
    assert_eq!(bl_parse_ticks(&[9, 0, 3, 0xE5], 1), Some((32738, 4)));
    assert_eq!(bl_parse_ticks(&[0, 3, 0xE6], 0), Some((0x7FFF, 3)));
    assert_eq!(bl_parse_ticks(&[0, 0, 0], 0), Some((0, 3)));
    assert_eq!(bl_parse_ticks(&[0, 0xFF, 0xFF], 0), Some((0x7FFF, 3)));
    assert_eq!(bl_parse_ticks(&[], 0), None);
    assert_eq!(bl_parse_ticks(&[5], 1), None);
    assert_eq!(bl_parse_ticks(&[0], 0), None);
    assert_eq!(bl_parse_ticks(&[0, 1], 0), None);
}

#[test]
fn ticks_are_those_of_floating_point() {
    for t in 0..=u16::MAX {
        let [hi, lo] = t.to_be_bytes();
        assert_eq!(bl_parse_ticks(&[0, hi, lo], 0), Some((microseconds(t), 3)));
        if 0 < t && t < 256 {
            assert_eq!(bl_parse_ticks(&[lo], 0), Some((microseconds(t), 1)));
        }
    }
}

#[test]
fn packet_header_is_read() {
    let pkt = BLPacket::read(&[0x26, 2, 0x34, 0x12, 1, 2]).unwrap();
    assert_eq!((pkt.pkt_type, pkt.n_repeats, pkt.len), (0x26, 2, 0x1234));
    assert_eq!(pkt.symbols, vec![BLSymbol { high: 32, low: 65 }]);
    assert!(BLPacket::read(&[0x26, 0, 0]).is_none());
}

#[test]
fn unfinished_symbols_are_dropped() {
    let whole = [0x26, 0, 0, 0, 10, 20, 30, 40];
    let signal = packet_to_signal(&whole).unwrap();
    assert_eq!(signal, vec![symbol(328, 656), symbol(985, 1313)]);
    let tails: [&[u8]; 6] = [&[5], &[0], &[0, 1], &[0, 1, 2], &[5, 0], &[5, 0, 1]];
    for tail in tails {
        let mut bytes = whole.to_vec();
        bytes.extend_from_slice(tail);
        assert_eq!(packet_to_signal(&bytes), Ok(signal.clone()));
    }
}

#[test]
fn short_packets_are_refused() {
    assert_eq!(packet_to_signal(&[]), Err(Failure::Fail));
    assert_eq!(packet_to_signal(&[0x26, 0, 0]), Err(Failure::Fail));
    assert_eq!(packet_to_signal(&[0x26, 0, 0, 0]), Ok(vec![]));
}

#[test]
fn written_packets_read_back() {
    let pairs: [(u16, u16); 4] = [(36, 14), (1, 255), (256, 300), (0, 65535)];
    let mut bytes = vec![1, 2, 3, 4];
    for (high, low) in pairs {
        for t in [high, low] {
            if 0 < t && t < 256 {
                bytes.push(t as u8);
            } else {
                bytes.push(0);
                bytes.extend_from_slice(&t.to_be_bytes());
            }
        }
    }
    let expected: Vec<Symbol> =
        pairs.iter().map(|p| symbol(microseconds(p.0), microseconds(p.1))).collect();
    assert_eq!(packet_to_signal(&bytes), Ok(expected));
}

#[test]
fn symbols_are_those_of_binrw() {
    let mut seed: u32 = 1;
    for len in 0..300 {
        let mut bytes = vec![0x26, 0, 0, 0];
        for _ in 0..len {
            seed = seed.wrapping_mul(1664525).wrapping_add(1013904223);
            let byte = (seed >> 24) as u8;
            bytes.push(if byte < 64 { 0 } else { byte });
        }
        let signal = packet_to_signal(&bytes).unwrap();
        assert_eq!(signal, other_signal(&bytes));
        for s in &signal {
            assert!(s.first.ticks <= 0x7FFF && s.second.ticks <= 0x7FFF);
        }
    }
}

#[test]
fn power_code() {
    let signal = broadlink_to_signal(POWER).unwrap();
    assert_eq!(signal.len(), 120);
    assert_eq!(signal[0], symbol(1182, 459));
    assert_eq!(signal[2], symbol(459, 1379));
    assert_eq!(signal[119], symbol(1379, 32767));
}

#[test]
fn timer_code() {
    let signal = broadlink_to_signal(TIMER).unwrap();
    assert_eq!(signal.len(), 36);
    assert_eq!(signal[0], symbol(1247, 492));
    assert_eq!(signal[35], symbol(394, 32767));
}

#[test]
fn speed_code() {
    let signal = broadlink_to_signal(SPEED).unwrap();
    assert_eq!(signal.len(), 120);
    assert_eq!(signal[0], symbol(1214, 459));
    assert_eq!(signal[119], symbol(426, 32767));
}

#[test]
fn keys_have_their_codes() {
    assert_eq!(Key::Power.code(), POWER);
    assert_eq!(Key::Speed.code(), SPEED);
    assert_eq!(Key::Timer.code(), TIMER);
}

#[test]
fn other_texts_are_refused() {
    assert_eq!(broadlink_to_signal("not base64!"), Err(Failure::Fail));
    assert_eq!(broadlink_to_signal("JgDyA"), Err(Failure::Fail));
    assert_eq!(broadlink_to_signal("JgBO"), Err(Failure::Fail));
    assert_eq!(broadlink_to_signal(""), Err(Failure::Fail));
    assert_eq!(broadlink_to_signal("JgBOAA=="), Ok(vec![]));
    assert_eq!(broadlink_to_signal("JgBOAAEC"), Ok(vec![symbol(32, 65)]));
}
