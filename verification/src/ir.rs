//! Infrared codes: what the Broadlink format writes down, as the pulses that
//! an infrared transmitter sends.

use vstd::prelude::*;

use base64ct::Encoding;

use crate::error::Failure;
use crate::state::Key;

verus! {

/// The length of a Broadlink tick is `BL_TICK_NUM / BL_TICK_DEN` microseconds.
pub const BL_TICK_NUM: u32 = 269_000;

pub const BL_TICK_DEN: u32 = 8192;

/// The longest pulse that the transmitter takes.
pub const MAX_TICKS: u16 = 0x7FFF;

/// The number of bytes before the first symbol of a packet.
pub const HEADER_LEN: usize = 4;

// The codes of the three keys, as Broadlink packets in Base64.

pub const POWER: &'static str = "\
JgDyACQOKg4OKioOKg4NKw4qDikPKQ4qDior8SoOKg4NKioOLAwOKg4qDioOKQ4qDioq8ioOKw0NKyoO\
Kg4NKg8pDioOKg4pDykr8CwNKg4OKioOKg4NKw4pDykOKg4qDioq8SsNLAwOKioOLAwOKg4qDioOKQ8p\
Dioq8isNKQ8NKyoOKg4NKg8pDioOKg4pDykr8SsNKg4OKioOKg4NKw4qDikPKQ4qDioq8ioOKg4NKyoO\
Kg4NKg8pDioOKg4qDikr8SsNKg4OKisNKw0OKg4qDioOKQ8pDioq8ioOKg4NKyoOKg4NKw4pDykOKg4q\
DioqAA0F";

pub const TIMER: &'static str = "\
JgBOACYPJw8MKycPKA8MKgwqDSkoDg0qDCoMAAEDKA4oDg0qJw8nDwwqDSoNKicPDCoNKQ0AAQApDigQ\
CysoDigODSoMKgwqKA4NKQ0qDAANBQ==";

pub const SPEED: &'static str = "\
JgAEASUOKg4NKisNKw0OKg4qDioOKQ8pKg4OAAEOKw0qDg0qKw0rDQ4qDioOKg4pDykrDQ4AAQ4qDioO\
DSsqDikPDSoPJhEqDioOKSoODgABDioOKg4NKyoOKQ8NKg4qDykOKg4qKQ8NAAEOKw0qDg4qKg4qDg4q\
DikPKQ8pDioqDg0AAQ4rDSsNDiorDSoODioOKg4pDykPKSoODgABDioOKQ8NKyoNKw0OKg8pDioOKg4p\
Kw0OAAEOKw0rDQ4qKg4qDg0rDikPKQ8pDioqDg0AAQ8qDioODSorDSsNDioOKg4qDioOKSsNDgABDioO\
Kg4NKykPKg4NKw4pDykOKg4qKg4NAA0F";

impl Key {
    /// The code of the key.
    pub fn code(&self) -> (code: &'static str)
        ensures
            code@ == match self {
                Key::Power => POWER@,
                Key::Speed => SPEED@,
                Key::Timer => TIMER@,
            },
    {
        match self {
            Key::Power => POWER,
            Key::Speed => SPEED,
            Key::Timer => TIMER,
        }
    }
}

/// The level of the transmitter's pin.
#[derive(Clone, Copy, Debug, PartialEq, Eq, Structural)]
pub enum PinState {
    Low,
    High,
}

/// A level that is held for a number of microseconds.
#[derive(Clone, Copy, Debug, PartialEq, Eq, Structural)]
pub struct Pulse {
    pub pin_state: PinState,
    pub ticks: u16,
}

/// Two pulses that are sent one after the other.
#[derive(Clone, Copy, Debug, PartialEq, Eq, Structural)]
pub struct Symbol {
    pub first: Pulse,
    pub second: Pulse,
}

/// A high and a low pulse of a Broadlink packet, in microseconds.
#[derive(Clone, Copy, Debug, PartialEq, Eq, Structural)]
pub struct BLSymbol {
    pub high: u16,
    pub low: u16,
}

/// A Broadlink packet.
#[derive(Debug)]
pub struct BLPacket {
    pub pkt_type: u8,
    pub n_repeats: u8,
    pub len: u16,
    pub symbols: Vec<BLSymbol>,
}

/// The length of `t` Broadlink ticks in whole microseconds, up to the longest
/// that can be sent.
pub open spec fn microseconds(t: int) -> u16 {
    let exact = t * BL_TICK_NUM / BL_TICK_DEN as int;
    if exact < MAX_TICKS {
        exact as u16
    } else {
        MAX_TICKS
    }
}

/// The number of ticks that `s` starts with, after the number of bytes that
/// hold it: one byte, or a zero byte and two bytes, the higher first.
pub open spec fn ticks_at(s: Seq<u8>) -> Option<(int, int)> {
    if s.len() >= 1 && s[0] != 0 {
        Some((1, s[0] as int))
    } else if s.len() >= 3 {
        Some((3, s[1] * 256 + s[2]))
    } else {
        None
    }
}

/// The symbols that `s` consists of. What is left at the end and is no whole
/// symbol does not count.
pub open spec fn symbols_in(s: Seq<u8>) -> Seq<BLSymbol>
    decreases s.len(),
{
    match ticks_at(s) {
        Some((n, high)) => match ticks_at(s.skip(n)) {
            Some((m, low)) => seq![
                BLSymbol { high: microseconds(high), low: microseconds(low) },
            ] + symbols_in(s.skip(n + m)),
            None => Seq::empty(),
        },
        None => Seq::empty(),
    }
}

/// The symbol that is sent for a symbol of a packet.
pub open spec fn sent_symbol(s: BLSymbol) -> Symbol {
    Symbol {
        first: Pulse { pin_state: PinState::High, ticks: s.high },
        second: Pulse { pin_state: PinState::Low, ticks: s.low },
    }
}

/// What is sent for the symbols of a packet.
pub open spec fn sent(symbols: Seq<BLSymbol>) -> Seq<Symbol> {
    Seq::new(symbols.len(), |i: int| sent_symbol(symbols[i]))
}

/// What is sent for the packet that `bytes` hold: none if the header is not
/// whole.
pub open spec fn signal_in(bytes: Seq<u8>) -> Option<Seq<Symbol>> {
    if bytes.len() < HEADER_LEN {
        None
    } else {
        Some(sent(symbols_in(bytes.skip(HEADER_LEN as int))))
    }
}

/// What is sent for a code that decodes to `decoded`.
pub open spec fn signal_for(decoded: Option<Seq<u8>>) -> Option<Seq<Symbol>> {
    match decoded {
        Some(bytes) => signal_in(bytes),
        None => None,
    }
}

/// The length of `t` Broadlink ticks, in microseconds.
///
/// A tick is a whole number of 1024ths of a microsecond, so that rounding down
/// happens once, in the division.
fn tick_time(t: u16) -> (us: u16)
    ensures
        us == microseconds(t as int),
{
    let exact: u64 = t as u64 * BL_TICK_NUM as u64 / BL_TICK_DEN as u64;
    if exact < MAX_TICKS as u64 {
        exact as u16
    } else {
        MAX_TICKS
    }
}

/// Reads the length of one pulse at `pos`. Returns it, in microseconds, with
/// the position after it.
pub fn bl_parse_ticks(bytes: &[u8], pos: usize) -> (res: Option<(u16, usize)>)
    requires
        pos <= bytes@.len(),
    ensures
        match res {
            Some((us, next)) => {
                &&& pos < next <= bytes@.len()
                &&& ticks_at(bytes@.skip(pos as int)) matches Some((n, t))
                &&& next == pos + n
                &&& us == microseconds(t)
            },
            None => ticks_at(bytes@.skip(pos as int)) is None,
        },
{
    let left: usize = bytes.len() - pos;
    if left == 0 {
        return None;
    }
    let first: u8 = bytes[pos];
    if first != 0 {
        return Some((tick_time(first as u16), pos + 1));
    }
    if left < 3 {
        return None;
    }
    let t: u16 = bytes[pos + 1] as u16 * 256 + bytes[pos + 2] as u16;
    Some((tick_time(t), pos + 3))
}

impl BLPacket {
    /// Reads a packet. Only a header that is not whole is an error; an
    /// unfinished symbol at the end is left out.
    pub fn read(bytes: &[u8]) -> (res: Option<BLPacket>)
        ensures
            match res {
                Some(pkt) => {
                    &&& bytes@.len() >= HEADER_LEN
                    &&& pkt.pkt_type == bytes@[0]
                    &&& pkt.n_repeats == bytes@[1]
                    &&& pkt.len == bytes@[2] + bytes@[3] * 256
                    &&& pkt.symbols@ == symbols_in(bytes@.skip(HEADER_LEN as int))
                },
                None => bytes@.len() < HEADER_LEN,
            },
    {
        if bytes.len() < HEADER_LEN {
            return None;
        }
        let mut symbols: Vec<BLSymbol> = Vec::new();
        let mut pos: usize = HEADER_LEN;
        let mut open: bool = true;
        while open
            invariant
                pos <= bytes@.len(),
                open ==> symbols_in(bytes@.skip(HEADER_LEN as int)) == symbols@ + symbols_in(
                    bytes@.skip(pos as int),
                ),
                !open ==> symbols_in(bytes@.skip(HEADER_LEN as int)) == symbols@,
            decreases bytes@.len() - pos + (if open { 1int } else { 0int }),
        {
            match bl_parse_ticks(bytes, pos) {
                Some((high, mid)) => {
                    assert(bytes@.skip(pos as int).skip(mid - pos) =~= bytes@.skip(mid as int));
                    match bl_parse_ticks(bytes, mid) {
                        Some((low, next)) => {
                            assert(bytes@.skip(pos as int).skip(next - pos) =~= bytes@.skip(
                                next as int,
                            ));
                            symbols.push(BLSymbol { high, low });
                            pos = next;
                        },
                        None => {
                            open = false;
                        },
                    }
                },
                None => {
                    open = false;
                },
            }
        }
        let len: u16 = bytes[2] as u16 + bytes[3] as u16 * 256;
        Some(BLPacket { pkt_type: bytes[0], n_repeats: bytes[1], len, symbols })
    }
}

/// What is sent for the packet that `bytes` hold.
pub fn packet_to_signal(bytes: &[u8]) -> (res: Result<Vec<Symbol>, Failure>)
    ensures
        match res {
            Ok(signal) => signal_in(bytes@) == Some(signal@),
            Err(e) => e == Failure::Fail && signal_in(bytes@) is None,
        },
{
    match BLPacket::read(bytes) {
        Some(pkt) => {
            let mut signal: Vec<Symbol> = Vec::new();
            let mut i: usize = 0;
            while i < pkt.symbols.len()
                invariant
                    i <= pkt.symbols@.len(),
                    signal@ == sent(pkt.symbols@.take(i as int)),
                decreases pkt.symbols@.len() - i,
            {
                let s: BLSymbol = pkt.symbols[i];
                signal.push(
                    Symbol {
                        first: Pulse { pin_state: PinState::High, ticks: s.high },
                        second: Pulse { pin_state: PinState::Low, ticks: s.low },
                    },
                );
                i = i + 1;
            }
            assert(pkt.symbols@.take(i as int) =~= pkt.symbols@);
            Ok(signal)
        },
        None => Err(Failure::Fail),
    }
}

/// Why a text is no Base64.
#[verifier::external_type_specification]
#[verifier::external_body]
pub struct ExBase64Error(base64ct::Error);

/// The bytes that a text in padded standard Base64 stands for, as
/// `base64ct::Base64::decode_vec` gives them; none where it refuses the text.
pub uninterp spec fn base64_decoded(text: Seq<char>) -> Option<Seq<u8>>;

/// Calls `base64ct::Base64::decode_vec`. What it returns is determined by the
/// text and is named `base64_decoded`; nothing more is claimed of it.
#[verifier::external_body]
fn base64_decode(text: &str) -> (res: Result<Vec<u8>, base64ct::Error>)
    ensures
        match res {
            Ok(bytes) => base64_decoded(text@) == Some(bytes@),
            Err(_) => base64_decoded(text@) is None,
        },
{
    base64ct::Base64::decode_vec(text)
}

/// What is sent for a code in the Broadlink format, written in Base64.
pub fn broadlink_to_signal(blcode: &str) -> (res: Result<Vec<Symbol>, Failure>)
    ensures
        match res {
            Ok(signal) => signal_for(base64_decoded(blcode@)) == Some(signal@),
            Err(e) => e == Failure::Fail && signal_for(base64_decoded(blcode@)) is None,
        },
{
    match base64_decode(blcode) {
        Ok(bytes) => packet_to_signal(bytes.as_slice()),
        Err(_) => Err(Failure::Fail),
    }
}

/// A pulse of `t` ticks as a packet holds it: in one byte where that is
/// possible.
pub open spec fn encoded_ticks(t: u16) -> Seq<u8> {
    if 0 < t < 256 {
        seq![t as u8]
    } else {
        seq![0u8, (t / 256) as u8, (t % 256) as u8]
    }
}

/// Pairs of pulses as a packet holds them.
pub open spec fn encoded_pairs(pairs: Seq<(u16, u16)>) -> Seq<u8>
    decreases pairs.len(),
{
    if pairs.len() == 0 {
        Seq::empty()
    } else {
        encoded_ticks(pairs[0].0) + encoded_ticks(pairs[0].1) + encoded_pairs(pairs.drop_first())
    }
}

/// The symbols that pairs of pulses are.
pub open spec fn pair_symbols(pairs: Seq<(u16, u16)>) -> Seq<BLSymbol> {
    Seq::new(
        pairs.len(),
        |i: int|
            BLSymbol {
                high: microseconds(pairs[i].0 as int),
                low: microseconds(pairs[i].1 as int),
            },
    )
}

proof fn lemma_ticks_read_back(t: u16, rest: Seq<u8>)
    ensures
        ticks_at(encoded_ticks(t) + rest) == Some((encoded_ticks(t).len() as int, t as int)),
{
}

proof fn lemma_symbol_read_back(first: Seq<u8>, high: int, second: Seq<u8>, low: int, after: Seq<u8>)
    requires
        ticks_at(first + (second + after)) == Some((first.len() as int, high)),
        ticks_at(second + after) == Some((second.len() as int, low)),
    ensures
        symbols_in(first + second + after) == seq![
            BLSymbol { high: microseconds(high), low: microseconds(low) },
        ] + symbols_in(after),
{
    let all = first + second + after;
    assert(all =~= first + (second + after));
    assert(all.skip(first.len() as int) =~= second + after);
    assert(all.skip((first.len() + second.len()) as int) =~= after);
}

proof fn lemma_pairs_read_back(pairs: Seq<(u16, u16)>, tail: Seq<u8>)
    ensures
        symbols_in(encoded_pairs(pairs) + tail) == pair_symbols(pairs) + symbols_in(tail),
    decreases pairs.len(),
{
    if pairs.len() == 0 {
        assert(encoded_pairs(pairs) + tail =~= tail);
        assert(pair_symbols(pairs) + symbols_in(tail) =~= symbols_in(tail));
    } else {
        let (h, l) = pairs[0];
        let rest = pairs.drop_first();
        let after = encoded_pairs(rest) + tail;
        lemma_pairs_read_back(rest, tail);
        lemma_ticks_read_back(h, encoded_ticks(l) + after);
        lemma_ticks_read_back(l, after);
        lemma_symbol_read_back(encoded_ticks(h), h as int, encoded_ticks(l), l as int, after);
        assert(encoded_pairs(pairs) + tail == encoded_ticks(h) + encoded_ticks(l) + after) by {
            lemma_add_associates(encoded_ticks(h) + encoded_ticks(l), encoded_pairs(rest), tail);
        }
        let first = BLSymbol { high: microseconds(h as int), low: microseconds(l as int) };
        assert(pair_symbols(pairs) =~= seq![first] + pair_symbols(rest));
        lemma_add_associates(seq![first], pair_symbols(rest), symbols_in(tail));
    }
}

proof fn lemma_add_associates<A>(a: Seq<A>, b: Seq<A>, c: Seq<A>)
    ensures
        a + b + c == a + (b + c),
{
    assert(a + b + c =~= a + (b + c));
}

/// A packet is read as it was written: whatever the header, the pulses that
/// were written come out in their order, each rounded down to a microsecond
/// and cut at the longest that can be sent, and after them what the rest of
/// the packet gives.
pub proof fn law_packet_reads_back(header: Seq<u8>, pairs: Seq<(u16, u16)>, tail: Seq<u8>)
    requires
        header.len() == HEADER_LEN,
    ensures
        signal_in(header + encoded_pairs(pairs) + tail) == Some(
            sent(pair_symbols(pairs) + symbols_in(tail)),
        ),
{
    lemma_pairs_read_back(pairs, tail);
    assert((header + encoded_pairs(pairs) + tail).skip(HEADER_LEN as int) =~= encoded_pairs(pairs)
        + tail);
}

/// An unfinished symbol at the end of a packet changes nothing.
pub proof fn law_unfinished_symbol_is_dropped(
    header: Seq<u8>,
    pairs: Seq<(u16, u16)>,
    tail: Seq<u8>,
)
    requires
        header.len() == HEADER_LEN,
        match ticks_at(tail) {
            Some((n, _)) => ticks_at(tail.skip(n)) is None,
            None => true,
        },
    ensures
        signal_in(header + encoded_pairs(pairs) + tail) == signal_in(
            header + encoded_pairs(pairs),
        ),
{
    law_packet_reads_back(header, pairs, tail);
    law_packet_reads_back(header, pairs, Seq::empty());
    assert(header + encoded_pairs(pairs) + Seq::<u8>::empty() =~= header + encoded_pairs(pairs));
}

/// Every symbol that is sent is a high pulse and then a low one, and neither
/// is longer than what the transmitter takes.
pub proof fn law_signal_can_be_sent(bytes: Seq<u8>, i: int)
    requires
        signal_in(bytes) is Some,
        0 <= i < signal_in(bytes)->0.len(),
    ensures
        signal_in(bytes)->0[i].first.pin_state == PinState::High,
        signal_in(bytes)->0[i].first.ticks <= MAX_TICKS,
        signal_in(bytes)->0[i].second.pin_state == PinState::Low,
        signal_in(bytes)->0[i].second.ticks <= MAX_TICKS,
{
    lemma_symbols_fit(bytes.skip(HEADER_LEN as int), i);
}

proof fn lemma_symbols_fit(s: Seq<u8>, i: int)
    requires
        0 <= i < symbols_in(s).len(),
    ensures
        symbols_in(s)[i].high <= MAX_TICKS,
        symbols_in(s)[i].low <= MAX_TICKS,
    decreases s.len(),
{
    let (n, high) = ticks_at(s)->0;
    let (m, low) = ticks_at(s.skip(n))->0;
    if i > 0 {
        lemma_symbols_fit(s.skip(n + m), i - 1);
    }
}

/// A pulse is sent for as many whole microseconds as its ticks last, a tick
/// being 269000 / 8192 of one, up to the longest that can be sent.
pub proof fn law_pulses_last_their_ticks(t: int)
    requires
        0 <= t,
    ensures
        microseconds(t) <= 32767,
        microseconds(t) * 8192 <= t * 269000,
        microseconds(t) < 32767 ==> t * 269000 < (microseconds(t) + 1) * 8192,
{
}

/// How a pulse is read: one byte that is not zero is the number of its ticks;
/// after a zero byte the next two are, the higher first; and where those are
/// missing there is no pulse.
pub proof fn law_pulses_are_read(s: Seq<u8>)
    ensures
        s.len() > 0 && s[0] != 0 ==> ticks_at(s) == Some((1int, s[0] as int)),
        s.len() > 2 && s[0] == 0 ==> ticks_at(s) == Some((3int, 256 * s[1] + s[2])),
        ticks_at(s) is None <==> s.len() == 0 || (s[0] == 0 && s.len() < 3),
{
}

/// How a symbol is read: the first pulse is its high one, the second its low
/// one, and what follows gives the symbols that follow. Where either pulse is
/// missing there are no more symbols.
pub proof fn law_symbols_are_read(s: Seq<u8>)
    ensures
        match ticks_at(s) {
            None => symbols_in(s).len() == 0,
            Some((n, high)) => match ticks_at(s.skip(n)) {
                None => symbols_in(s).len() == 0,
                Some((m, low)) => {
                    &&& symbols_in(s).len() > 0
                    &&& symbols_in(s)[0].high == microseconds(high)
                    &&& symbols_in(s)[0].low == microseconds(low)
                    &&& symbols_in(s).skip(1) == symbols_in(s.skip(n + m))
                },
            },
        },
{
    if let Some((n, _)) = ticks_at(s) {
        if let Some((m, _)) = ticks_at(s.skip(n)) {
            assert(symbols_in(s).skip(1) =~= symbols_in(s.skip(n + m)));
        }
    }
}

/// Whatever the bytes of a packet are: the header is left out, and for each
/// symbol behind it the high pulse is sent for its length and then the low one
/// for its length, in the order of the symbols. Bytes that are no whole header
/// give nothing, and so does a text that is no Base64.
pub proof fn law_symbols_are_sent(bytes: Seq<u8>, i: int)
    ensures
        signal_in(bytes) is None <==> bytes.len() < 4,
        signal_for(None) is None,
        signal_for(Some(bytes)) == signal_in(bytes),
        signal_in(bytes) matches Some(signal) ==> {
            let symbols = symbols_in(bytes.skip(4));
            &&& signal.len() == symbols.len()
            &&& 0 <= i < symbols.len() ==> {
                &&& signal[i].first.pin_state == PinState::High
                &&& signal[i].first.ticks == symbols[i].high
                &&& signal[i].second.pin_state == PinState::Low
                &&& signal[i].second.ticks == symbols[i].low
            }
        },
{
}

/// The pulses that were written into a packet are the ones that are sent: of
/// the symbol at each position, the first pulse is high and lasts as long as
/// the high pulse of the pair there, and the second is low and lasts as long
/// as the low one.
pub proof fn law_pulses_are_sent(header: Seq<u8>, pairs: Seq<(u16, u16)>, i: int)
    requires
        header.len() == HEADER_LEN,
        0 <= i < pairs.len(),
    ensures
        signal_in(header + encoded_pairs(pairs)) matches Some(signal) && {
            &&& signal.len() == pairs.len()
            &&& signal[i].first.pin_state == PinState::High
            &&& signal[i].first.ticks == microseconds(pairs[i].0 as int)
            &&& signal[i].second.pin_state == PinState::Low
            &&& signal[i].second.ticks == microseconds(pairs[i].1 as int)
        },
{
    law_packet_reads_back(header, pairs, Seq::empty());
    assert(header + encoded_pairs(pairs) + Seq::<u8>::empty() =~= header + encoded_pairs(pairs));
    assert(pair_symbols(pairs) + symbols_in(Seq::empty()) =~= pair_symbols(pairs));
}

} // verus!
