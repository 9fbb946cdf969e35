//! Decoder for telemetry frames.
//!
//! A frame starts with a ten byte header, all integers big-endian:
//! `event_type: u16 | len: u32 | cht_id: u32`. When the event type is
//! [`STATION_REPORT`], a count byte follows and then that many station
//! records of [`STAT_STA_LEN`] bytes each, without padding.
//!
//! The meaning of a byte string is given by [`spec_parser`]; the executable
//! [`parser`] is proved to compute it.

use vstd::prelude::*;
use vstd::slice::{slice_subrange, slice_to_vec};

pub mod laws;

verus! {

/// Event type of a frame that carries station records.
pub const STATION_REPORT: u16 = 0x1cba;

/// Number of bytes of the frame header.
pub const HEADER_LEN: usize = 10;

/// Number of bytes of one station record on the wire.
pub const STAT_STA_LEN: usize = 57;

/// Bits that a flags byte may carry; the upper four are reserved.
pub const WIFI_FLAGS_MASK: u8 = 0x0f;

/// The channel is 40 MHz wide.
pub const IS_40_MHZ: u8 = 0x01;

/// A short guard interval is in use.
pub const IS_SHORT_GI: u8 = 0x02;

/// The rate is an HT rate.
pub const IS_HT: u8 = 0x04;

/// The rate is a VHT rate.
pub const IS_VHT: u8 = 0x08;

/// Why a byte string is not a frame.
#[derive(Clone, Copy, Debug, PartialEq, Eq, Structural)]
pub enum DecodeError {
    /// The input ends before the frame does.
    Incomplete,
    /// A flags byte of a station record has a reserved bit set.
    InvalidFlags,
}

/// Link flags of one direction of a station: a set over the four low bits
/// of a byte.
#[derive(Clone, Copy, Debug, PartialEq, Eq, Structural)]
pub struct WifiFlags {
    bits: u8,
}

impl View for WifiFlags {
    type V = u8;

    /// The byte that holds the set.
    closed spec fn view(&self) -> u8 {
        self.bits
    }
}

impl WifiFlags {
    /// No reserved bit is set.
    #[verifier::type_invariant]
    pub closed spec fn inv(self) -> bool {
        self.bits <= WIFI_FLAGS_MASK
    }

    /// Whether a byte is a set of flags: no bit above bit 3 is set.
    pub open spec fn valid_bits(bits: u8) -> bool {
        bits <= WIFI_FLAGS_MASK
    }

    /// The empty set.
    pub fn empty() -> (r: WifiFlags)
        ensures
            r@ == 0,
    {
        WifiFlags { bits: 0 }
    }

    /// The set of all four flags.
    pub fn all() -> (r: WifiFlags)
        ensures
            r@ == WIFI_FLAGS_MASK,
    {
        WifiFlags { bits: WIFI_FLAGS_MASK }
    }

    /// The byte that holds the set. It never has a reserved bit.
    pub fn bits(&self) -> (r: u8)
        ensures
            r == self@,
            Self::valid_bits(r),
    {
        proof {
            use_type_invariant(self);
        }
        self.bits
    }

    /// The set held by `bits`, unless a reserved bit is set.
    pub fn from_bits(bits: u8) -> (r: Option<WifiFlags>)
        ensures
            Self::valid_bits(bits) ==> (r matches Some(f) && f@ == bits),
            !Self::valid_bits(bits) ==> r is None,
    {
        if bits <= WIFI_FLAGS_MASK {
            Some(WifiFlags { bits })
        } else {
            None
        }
    }

    /// The set held by the four low bits of `bits`.
    pub fn from_bits_truncate(bits: u8) -> (r: WifiFlags)
        ensures
            r@ == bits & WIFI_FLAGS_MASK,
    {
        let low: u8 = bits & WIFI_FLAGS_MASK;
        assert(bits & 0x0f <= 0x0f) by (bit_vector);
        WifiFlags { bits: low }
    }

    /// Whether every flag of `other` is in this set.
    pub fn contains(&self, other: WifiFlags) -> (r: bool)
        ensures
            r == (self@ & other@ == other@),
    {
        self.bits & other.bits == other.bits
    }

    /// Whether the set is empty.
    pub fn is_empty(&self) -> (r: bool)
        ensures
            r == (self@ == 0),
    {
        self.bits == 0
    }

    /// The set as the integer that the sink stores.
    pub fn to_integer(&self) -> (r: i64)
        ensures
            r == self@,
            0 <= r <= WIFI_FLAGS_MASK,
    {
        self.bits() as i64
    }
}

/// The hardware address of a station: raw bytes, not text.
#[derive(Debug, PartialEq, Eq)]
pub struct Mac(Vec<u8>);

impl View for Mac {
    type V = Seq<u8>;

    /// The bytes of the address, in wire order.
    closed spec fn view(&self) -> Seq<u8> {
        self.0@
    }
}

/// The conversion from bytes is stated by the view of its result, in the
/// contract of `from`: two addresses of the same bytes need not be the same
/// value, so no spec function can name the result itself.
impl<'a> vstd::std_specs::convert::FromSpecImpl<&'a [u8]> for Mac {
    open spec fn obeys_from_spec() -> bool {
        false
    }

    open spec fn from_spec(s: &'a [u8]) -> Mac {
        arbitrary()
    }
}

impl<'a> From<&'a [u8]> for Mac {
    /// The address made of the bytes of `s`.
    fn from(s: &'a [u8]) -> (r: Mac)
        ensures
            r@ == s@,
    {
        Mac(slice_to_vec(s))
    }
}

impl Mac {
    /// The bytes of the address.
    pub fn bytes(&self) -> (r: &Vec<u8>)
        ensures
            r@ == self@,
    {
        &self.0
    }
}

/// Link statistics of one wireless client at one instant.
#[derive(Debug, PartialEq, Eq)]
pub struct StatSta {
    /// Hardware address of the station.
    pub mac: Mac,
    /// Signal-to-noise ratio.
    pub snr: u8,
    /// Signal power in dBm.
    pub signal: i8,
    /// Noise power in dBm.
    pub noise: i8,
    /// Received packets.
    pub rx_packets: u32,
    /// Transmitted packets.
    pub tx_packets: u32,
    /// Transmit rate.
    pub tx_rate: u32,
    /// Transmit MCS index; -1 where none applies.
    pub tx_mcs: i8,
    /// Transmit flags.
    pub tx_flags: WifiFlags,
    /// Transmit bandwidth in MHz.
    pub tx_mhz: u8,
    /// Transmit spatial streams.
    pub tx_vht_nss: u8,
    /// Receive rate.
    pub rx_rate: u32,
    /// Receive MCS index; -1 where none applies.
    pub rx_mcs: i8,
    /// Receive flags.
    pub rx_flags: WifiFlags,
    /// Receive bandwidth in MHz.
    pub rx_mhz: u8,
    /// Receive spatial streams.
    pub rx_vht_nss: u8,
    /// Received bytes.
    pub rx_bytes: u32,
    /// Transmitted bytes.
    pub tx_bytes: u32,
    /// Retries.
    pub rx_retries: u32,
    /// Failures.
    pub rx_failed: u32,
    /// Whole seconds since the Unix epoch: the wire carries milliseconds,
    /// the record keeps second resolution.
    pub timestamp: i64,
}

/// What a station record holds, as plain values.
pub struct StatStaView {
    pub mac: Seq<u8>,
    pub snr: u8,
    pub signal: i8,
    pub noise: i8,
    pub rx_packets: u32,
    pub tx_packets: u32,
    pub tx_rate: u32,
    pub tx_mcs: i8,
    pub tx_flags: u8,
    pub tx_mhz: u8,
    pub tx_vht_nss: u8,
    pub rx_rate: u32,
    pub rx_mcs: i8,
    pub rx_flags: u8,
    pub rx_mhz: u8,
    pub rx_vht_nss: u8,
    pub rx_bytes: u32,
    pub tx_bytes: u32,
    pub rx_retries: u32,
    pub rx_failed: u32,
    pub timestamp: i64,
}

impl View for StatSta {
    type V = StatStaView;

    open spec fn view(&self) -> StatStaView {
        StatStaView {
            mac: self.mac@,
            snr: self.snr,
            signal: self.signal,
            noise: self.noise,
            rx_packets: self.rx_packets,
            tx_packets: self.tx_packets,
            tx_rate: self.tx_rate,
            tx_mcs: self.tx_mcs,
            tx_flags: self.tx_flags@,
            tx_mhz: self.tx_mhz,
            tx_vht_nss: self.tx_vht_nss,
            rx_rate: self.rx_rate,
            rx_mcs: self.rx_mcs,
            rx_flags: self.rx_flags@,
            rx_mhz: self.rx_mhz,
            rx_vht_nss: self.rx_vht_nss,
            rx_bytes: self.rx_bytes,
            tx_bytes: self.tx_bytes,
            rx_retries: self.rx_retries,
            rx_failed: self.rx_failed,
            timestamp: self.timestamp,
        }
    }
}

/// A decoded frame.
#[derive(Debug, PartialEq, Eq)]
pub struct CHTHeader {
    /// Code of the event that the frame reports.
    pub event_type: u16,
    /// Length that the sender declared. It is advisory: the decoder never
    /// bounds its reading by it.
    pub len: u32,
    /// Identifier of the collector that sent the frame.
    pub cht_id: u32,
    /// The station records; present exactly in a station report.
    pub data: Option<Vec<StatSta>>,
}

/// What a decoded frame holds, as plain values.
pub struct CHTHeaderView {
    pub event_type: u16,
    pub len: u32,
    pub cht_id: u32,
    pub data: Option<Seq<StatStaView>>,
}

/// The plain values of a sequence of station records.
pub open spec fn station_views(stas: Seq<StatSta>) -> Seq<StatStaView> {
    Seq::new(stas.len(), |i: int| stas[i]@)
}

impl View for CHTHeader {
    type V = CHTHeaderView;

    open spec fn view(&self) -> CHTHeaderView {
        CHTHeaderView {
            event_type: self.event_type,
            len: self.len,
            cht_id: self.cht_id,
            data: match self.data {
                Some(stas) => Some(station_views(stas@)),
                None => None,
            },
        }
    }
}

/// The unsigned 16-bit integer that two bytes at `at` hold, big-endian.
pub open spec fn spec_be_u16(s: Seq<u8>, at: int) -> u16 {
    (s[at] as int * 0x100 + s[at + 1] as int) as u16
}

/// The unsigned 32-bit integer that four bytes at `at` hold, big-endian.
pub open spec fn spec_be_u32(s: Seq<u8>, at: int) -> u32 {
    (s[at] as int * 0x100_0000 + s[at + 1] as int * 0x1_0000 + s[at + 2] as int * 0x100 + s[at
        + 3] as int) as u32
}

/// The unsigned 64-bit integer that eight bytes at `at` hold, big-endian.
pub open spec fn spec_be_u64(s: Seq<u8>, at: int) -> u64 {
    (spec_be_u32(s, at) as int * 0x1_0000_0000 + spec_be_u32(s, at + 4) as int) as u64
}

/// The signed byte with the bits of `b`, in two's complement.
pub open spec fn spec_i8(b: u8) -> i8 {
    if b < 0x80 {
        b as i8
    } else {
        (b as int - 0x100) as i8
    }
}

/// The signed 64-bit integer with the bits of `v`, in two's complement.
pub open spec fn spec_i64(v: u64) -> i64 {
    if v < 0x8000_0000_0000_0000 {
        v as i64
    } else {
        (v as int - 0x1_0000_0000_0000_0000) as i64
    }
}

/// The signed 64-bit integer that eight bytes at `at` hold, big-endian.
pub open spec fn spec_be_i64(s: Seq<u8>, at: int) -> i64 {
    spec_i64(spec_be_u64(s, at))
}

/// Milliseconds cut down to whole seconds, rounding toward zero.
pub open spec fn spec_whole_seconds(ms: i64) -> i64 {
    if ms >= 0 {
        (ms as int / 1000) as i64
    } else {
        (-((-(ms as int)) / 1000)) as i64
    }
}

/// Reads the byte at `at`.
fn be_u8(input: &[u8], at: usize) -> (r: u8)
    requires
        at < input.len(),
    ensures
        r == input@[at as int],
{
    input[at]
}

/// Reads the byte at `at` as a signed integer.
fn be_i8(input: &[u8], at: usize) -> (r: i8)
    requires
        at < input.len(),
    ensures
        r == spec_i8(input@[at as int]),
{
    let b: u8 = input[at];
    assert(b < 0x80 ==> (b as i8) as int == b as int) by (bit_vector);
    assert(b >= 0x80 ==> (b as i8) as int == b as int - 0x100) by (bit_vector);
    #[verifier::truncate]
    (b as i8)
}

/// Reads two bytes at `at` as a big-endian unsigned integer.
fn be_u16(input: &[u8], at: usize) -> (r: u16)
    requires
        at + 2 <= input.len(),
    ensures
        r == spec_be_u16(input@, at as int),
{
    (input[at] as u16) * 0x100 + (input[at + 1] as u16)
}

/// Reads four bytes at `at` as a big-endian unsigned integer.
fn be_u32(input: &[u8], at: usize) -> (r: u32)
    requires
        at + 4 <= input.len(),
    ensures
        r == spec_be_u32(input@, at as int),
{
    (input[at] as u32) * 0x100_0000 + (input[at + 1] as u32) * 0x1_0000 + (input[at + 2] as u32)
        * 0x100 + (input[at + 3] as u32)
}

/// Reads eight bytes at `at` as a big-endian signed integer.
fn be_i64(input: &[u8], at: usize) -> (r: i64)
    requires
        at + 8 <= input.len(),
    ensures
        r == spec_be_i64(input@, at as int),
{
    let hi: u32 = be_u32(input, at);
    let lo: u32 = be_u32(input, at + 4);
    let v: u64 = (hi as u64) * 0x1_0000_0000 + (lo as u64);
    assert(v < 0x8000_0000_0000_0000 ==> (v as i64) as int == v as int) by (bit_vector);
    assert(v >= 0x8000_0000_0000_0000 ==> (v as i64) as int == v as int
        - 0x1_0000_0000_0000_0000) by (bit_vector);
    #[verifier::truncate]
    (v as i64)
}

/// Cuts milliseconds down to whole seconds, rounding toward zero.
pub fn whole_seconds(ms: i64) -> (r: i64)
    ensures
        r == spec_whole_seconds(ms),
{
    ms / 1000
}

/// The plain values of the record that the first [`STAT_STA_LEN`] bytes of
/// `s` hold, field after field in wire order.
pub open spec fn spec_record(s: Seq<u8>) -> StatStaView {
    StatStaView {
        mac: s.subrange(0, 6),
        snr: s[6],
        signal: spec_i8(s[7]),
        noise: spec_i8(s[8]),
        rx_packets: spec_be_u32(s, 9),
        tx_packets: spec_be_u32(s, 13),
        tx_rate: spec_be_u32(s, 17),
        tx_mcs: spec_i8(s[21]),
        tx_flags: s[22],
        tx_mhz: s[23],
        tx_vht_nss: s[24],
        rx_rate: spec_be_u32(s, 25),
        rx_mcs: spec_i8(s[29]),
        rx_flags: s[30],
        rx_mhz: s[31],
        rx_vht_nss: s[32],
        rx_bytes: spec_be_u32(s, 33),
        tx_bytes: spec_be_u32(s, 37),
        rx_retries: spec_be_u32(s, 41),
        rx_failed: spec_be_u32(s, 45),
        timestamp: spec_whole_seconds(spec_be_i64(s, 49)),
    }
}

/// Whether both flags bytes of the record at the start of `s` are free of
/// reserved bits.
pub open spec fn spec_flags_valid(s: Seq<u8>) -> bool {
    WifiFlags::valid_bits(s[22]) && WifiFlags::valid_bits(s[30])
}

/// What decoding one station record from the start of `s` gives.
pub open spec fn spec_stat_sta(s: Seq<u8>) -> Result<StatStaView, DecodeError> {
    if s.len() < STAT_STA_LEN {
        Err(DecodeError::Incomplete)
    } else if !spec_flags_valid(s) {
        Err(DecodeError::InvalidFlags)
    } else {
        Ok(spec_record(s))
    }
}

/// The bytes of `s` behind its first `k` station records.
pub open spec fn spec_skip_records(s: Seq<u8>, k: nat) -> Seq<u8> {
    s.skip(STAT_STA_LEN * k)
}

/// What decoding `n` station records in a row from the start of `s` gives:
/// the records in order, or the error of the first record that fails.
pub open spec fn spec_stations(s: Seq<u8>, n: nat) -> Result<Seq<StatStaView>, DecodeError>
    decreases n,
{
    if n == 0 {
        Ok(Seq::empty())
    } else {
        match spec_stations(s, (n - 1) as nat) {
            Err(e) => Err(e),
            Ok(stas) => match spec_stat_sta(spec_skip_records(s, (n - 1) as nat)) {
                Err(e) => Err(e),
                Ok(sta) => Ok(stas.push(sta)),
            },
        }
    }
}

/// What decoding a count byte and the records it announces gives.
pub open spec fn spec_vec_stat_sta(s: Seq<u8>) -> Result<Seq<StatStaView>, DecodeError> {
    if s.len() < 1 {
        Err(DecodeError::Incomplete)
    } else {
        spec_stations(s.skip(1), s[0] as nat)
    }
}

/// The header fields of a frame, with the given records.
pub open spec fn spec_header(s: Seq<u8>, data: Option<Seq<StatStaView>>) -> CHTHeaderView {
    CHTHeaderView {
        event_type: spec_be_u16(s, 0),
        len: spec_be_u32(s, 2),
        cht_id: spec_be_u32(s, 6),
        data,
    }
}

/// What decoding a frame from the start of `s` gives: the frame and the
/// number of bytes it takes, or the error.
pub open spec fn spec_parser(s: Seq<u8>) -> Result<(CHTHeaderView, nat), DecodeError> {
    if s.len() < HEADER_LEN {
        Err(DecodeError::Incomplete)
    } else if spec_be_u16(s, 0) != STATION_REPORT {
        Ok((spec_header(s, None), HEADER_LEN as nat))
    } else {
        match spec_vec_stat_sta(s.skip(HEADER_LEN as int)) {
            Err(e) => Err(e),
            Ok(stas) => Ok(
                (spec_header(s, Some(stas)), (HEADER_LEN + 1 + STAT_STA_LEN * stas.len()) as nat),
            ),
        }
    }
}

/// Once a record has failed, reading further records changes nothing.
pub proof fn lemma_stations_error_persists(s: Seq<u8>, m: nat, n: nat, e: DecodeError)
    requires
        m <= n,
        spec_stations(s, m) == Err::<Seq<StatStaView>, DecodeError>(e),
    ensures
        spec_stations(s, n) == Err::<Seq<StatStaView>, DecodeError>(e),
    decreases n,
{
    if m < n {
        lemma_stations_error_persists(s, m, (n - 1) as nat, e);
    }
}

/// Decodes one station record from the start of `input`.
///
/// Returns the record and the input behind it. Fails with `Incomplete`
/// when fewer than [`STAT_STA_LEN`] bytes are there, and with
/// `InvalidFlags` when a flags byte of a complete record has a reserved
/// bit set.
pub fn stat_sta<'a>(input: &'a [u8]) -> (r: Result<(&'a [u8], StatSta), DecodeError>)
    ensures
        match r {
            Ok((rest, sta)) => spec_stat_sta(input@) == Ok::<StatStaView, DecodeError>(sta@)
                && rest@ == input@.skip(STAT_STA_LEN as int),
            Err(e) => spec_stat_sta(input@) == Err::<StatStaView, DecodeError>(e),
        },
{
    if input.len() < STAT_STA_LEN {
        return Err(DecodeError::Incomplete);
    }
    let tx_flags = match WifiFlags::from_bits(be_u8(input, 22)) {
        Some(flags) => flags,
        None => {
            return Err(DecodeError::InvalidFlags);
        },
    };
    let rx_flags = match WifiFlags::from_bits(be_u8(input, 30)) {
        Some(flags) => flags,
        None => {
            return Err(DecodeError::InvalidFlags);
        },
    };
    let sta = StatSta {
        mac: Mac::from(slice_subrange(input, 0, 6)),
        snr: be_u8(input, 6),
        signal: be_i8(input, 7),
        noise: be_i8(input, 8),
        rx_packets: be_u32(input, 9),
        tx_packets: be_u32(input, 13),
        tx_rate: be_u32(input, 17),
        tx_mcs: be_i8(input, 21),
        tx_flags,
        tx_mhz: be_u8(input, 23),
        tx_vht_nss: be_u8(input, 24),
        rx_rate: be_u32(input, 25),
        rx_mcs: be_i8(input, 29),
        rx_flags,
        rx_mhz: be_u8(input, 31),
        rx_vht_nss: be_u8(input, 32),
        rx_bytes: be_u32(input, 33),
        tx_bytes: be_u32(input, 37),
        rx_retries: be_u32(input, 41),
        rx_failed: be_u32(input, 45),
        timestamp: whole_seconds(be_i64(input, 49)),
    };
    let rest = slice_subrange(input, STAT_STA_LEN, input.len());
    Ok((rest, sta))
}

/// Decodes a count byte and then as many station records as it says.
///
/// `_size` is the length that the frame declares; it is advisory and not
/// read. Returns the records in wire order and the input behind them, or
/// the error of the first record that fails.
pub fn vec_stat_sta<'a>(input: &'a [u8], _size: usize) -> (r: Result<
    (&'a [u8], Vec<StatSta>),
    DecodeError,
>)
    ensures
        match r {
            Ok((rest, stas)) => spec_vec_stat_sta(input@) == Ok::<Seq<StatStaView>, DecodeError>(
                station_views(stas@),
            ) && stas@.len() == input@[0] && 1 + STAT_STA_LEN * stas@.len() <= input@.len()
                && rest@ == input@.skip(1 + STAT_STA_LEN * stas@.len()),
            Err(e) => spec_vec_stat_sta(input@) == Err::<Seq<StatStaView>, DecodeError>(e),
        },
{
    if input.len() < 1 {
        return Err(DecodeError::Incomplete);
    }
    let num_stas: usize = be_u8(input, 0) as usize;
    let ghost body = input@.skip(1);
    let mut rest: &[u8] = slice_subrange(input, 1, input.len());
    let mut stas: Vec<StatSta> = Vec::new();
    let mut i: usize = 0;
    assert(station_views(stas@) =~= Seq::<StatStaView>::empty());
    while i < num_stas
        invariant
            i <= num_stas,
            num_stas == input@[0],
            body == input@.skip(1),
            input@.len() >= 1,
            stas@.len() == i,
            STAT_STA_LEN * i <= body.len(),
            rest@ == body.skip(STAT_STA_LEN * i),
            spec_stations(body, i as nat) == Ok::<Seq<StatStaView>, DecodeError>(
                station_views(stas@),
            ),
        decreases num_stas - i,
    {
        match stat_sta(rest) {
            Err(e) => {
                proof {
                    lemma_stations_error_persists(body, (i + 1) as nat, num_stas as nat, e);
                }
                return Err(e);
            },
            Ok((next, sta)) => {
                proof {
                    assert(station_views(stas@.push(sta)) =~= station_views(stas@).push(sta@));
                    assert(next@ =~= body.skip(STAT_STA_LEN * (i + 1)));
                }
                stas.push(sta);
                rest = next;
                i += 1;
            },
        }
    }
    Ok((rest, stas))
}

/// Decodes one frame from the start of `input`.
///
/// Returns the frame and the input behind it; bytes behind the frame are
/// no error. Fails with `Incomplete` when the input ends before the header,
/// the count byte or a record does, and with `InvalidFlags` when a flags
/// byte of a complete record has a reserved bit set; of two records that
/// fail, the first decides.
pub fn parser<'a>(input: &'a [u8]) -> (r: Result<(&'a [u8], CHTHeader), DecodeError>)
    ensures
        match r {
            Ok((rest, header)) => spec_parser(input@) matches Ok((view, consumed)) && view
                == header@ && consumed <= input@.len() && rest@ == input@.skip(consumed as int),
            Err(e) => spec_parser(input@) == Err::<(CHTHeaderView, nat), DecodeError>(e),
        },
{
    if input.len() < HEADER_LEN {
        return Err(DecodeError::Incomplete);
    }
    let event_type = be_u16(input, 0);
    let len = be_u32(input, 2);
    let cht_id = be_u32(input, 6);
    let body = slice_subrange(input, HEADER_LEN, input.len());
    assert(body@ =~= input@.skip(HEADER_LEN as int));
    if event_type == STATION_REPORT {
        match vec_stat_sta(body, len as usize) {
            Err(e) => Err(e),
            Ok((rest, stas)) => {
                proof {
                    assert(rest@ =~= input@.skip(HEADER_LEN + 1 + STAT_STA_LEN * stas@.len()));
                }
                Ok((rest, CHTHeader { event_type, len, cht_id, data: Some(stas) }))
            },
        }
    } else {
        Ok((body, CHTHeader { event_type, len, cht_id, data: None }))
    }
}

} // verus!
