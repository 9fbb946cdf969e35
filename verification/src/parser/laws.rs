//! What holds of every decoded frame.
//!
//! The statements are over [`spec_parser`], which [`parser`](super::parser)
//! is proved to compute, so each of them holds of every call of the decoder.
//!
//! Between them they say what becomes of every input. One that is shorter
//! than a header is incomplete. One that is no station report decodes to
//! its header. Of a station report, the first record that fails decides:
//! if a record that is wholly there has a reserved flag bit, the report is
//! refused for its flags; if not, it is incomplete where it ends before its
//! last record does, and decodes to all its records where it does not.

use super::{
    lemma_stations_error_persists, spec_be_u16, spec_flags_valid, spec_header, spec_parser,
    spec_record, spec_skip_records, spec_stat_sta, spec_stations, CHTHeaderView, DecodeError,
    StatStaView, HEADER_LEN, STATION_REPORT, STAT_STA_LEN,
};
use vstd::prelude::*;

verus! {

/// Whether `s` starts with the header of a station report.
pub open spec fn is_station_report(s: Seq<u8>) -> bool {
    s.len() >= HEADER_LEN && spec_be_u16(s, 0) == STATION_REPORT
}

/// The number of records that a station report announces: its count byte.
pub open spec fn spec_station_count(s: Seq<u8>) -> nat {
    s[HEADER_LEN as int] as nat
}

/// The length of a station report of `n` records: header, count byte and
/// records.
pub open spec fn spec_frame_len(n: nat) -> nat {
    (HEADER_LEN + 1 + STAT_STA_LEN * n) as nat
}

/// The bytes of a station report from the start of record `k` on.
pub open spec fn spec_station_bytes(s: Seq<u8>, k: nat) -> Seq<u8> {
    s.skip(spec_frame_len(k) as int)
}

/// Whether record `k` lies wholly in `s` and has a reserved flag bit set.
pub open spec fn has_invalid_flags(s: Seq<u8>, k: nat) -> bool {
    spec_frame_len(k + 1) <= s.len() && !spec_flags_valid(spec_station_bytes(s, k))
}

/// The records behind a count byte lie where the frame's offsets say.
proof fn lemma_body_offsets(s: Seq<u8>, k: nat)
    requires
        spec_frame_len(k) <= s.len(),
    ensures
        spec_skip_records(s.skip(HEADER_LEN as int).skip(1), k) == spec_station_bytes(s, k),
        s.skip(HEADER_LEN as int).skip(1).len() == s.len() - HEADER_LEN - 1,
{
    assert(spec_skip_records(s.skip(HEADER_LEN as int).skip(1), k) =~= spec_station_bytes(s, k));
}

/// Records that are all there and all valid decode to themselves.
proof fn lemma_stations_ok(b: Seq<u8>, n: nat)
    requires
        STAT_STA_LEN * n <= b.len(),
        forall|k: nat| k < n ==> spec_flags_valid(#[trigger] spec_skip_records(b, k)),
    ensures
        spec_stations(b, n) == Ok::<Seq<StatStaView>, DecodeError>(
            Seq::new(n, |k: int| spec_record(spec_skip_records(b, k as nat))),
        ),
    decreases n,
{
    if n > 0 {
        let m = (n - 1) as nat;
        lemma_stations_ok(b, m);
        assert(spec_flags_valid(spec_skip_records(b, m)));
        assert(Seq::new(m, |k: int| spec_record(spec_skip_records(b, k as nat))).push(
            spec_record(spec_skip_records(b, m)),
        ) =~= Seq::new(n, |k: int| spec_record(spec_skip_records(b, k as nat))));
    } else {
        assert(Seq::<StatStaView>::empty() =~= Seq::new(
            n,
            |k: int| spec_record(spec_skip_records(b, k as nat)),
        ));
    }
}

/// Records that are all there never fail for want of input.
proof fn lemma_stations_complete(b: Seq<u8>, n: nat)
    requires
        STAT_STA_LEN * n <= b.len(),
    ensures
        spec_stations(b, n) != Err::<Seq<StatStaView>, DecodeError>(DecodeError::Incomplete),
    decreases n,
{
    if n > 0 {
        lemma_stations_complete(b, (n - 1) as nat);
    }
}

/// As many records as were asked for come out.
proof fn lemma_stations_len(b: Seq<u8>, n: nat)
    ensures
        spec_stations(b, n) matches Ok(stas) ==> stas.len() == n && STAT_STA_LEN * n <= b.len(),
    decreases n,
{
    if n > 0 {
        lemma_stations_len(b, (n - 1) as nat);
    }
}

/// A frame that is no station report decodes to its header alone, and takes
/// ten bytes, whatever follows them.
pub proof fn law_other_event_takes_header_only(s: Seq<u8>)
    requires
        s.len() >= HEADER_LEN,
        !is_station_report(s),
    ensures
        spec_parser(s) == Ok::<(CHTHeaderView, nat), DecodeError>(
            (spec_header(s, None), HEADER_LEN as nat),
        ),
{
}

/// A station report whose `n` announced records are all in the input, none
/// with a reserved flag bit, decodes to exactly those records in order and
/// takes `10 + 1 + n * 57` bytes.
pub proof fn law_station_report_takes_all_records(s: Seq<u8>)
    requires
        is_station_report(s),
        spec_frame_len(spec_station_count(s)) <= s.len(),
        forall|k: nat| k < spec_station_count(s) ==> !#[trigger] has_invalid_flags(s, k),
    ensures
        spec_parser(s) == Ok::<(CHTHeaderView, nat), DecodeError>(
            (
                spec_header(
                    s,
                    Some(
                        Seq::new(
                            spec_station_count(s),
                            |k: int| spec_record(spec_station_bytes(s, k as nat)),
                        ),
                    ),
                ),
                spec_frame_len(spec_station_count(s)),
            ),
        ),
{
    let n = spec_station_count(s);
    let b = s.skip(HEADER_LEN as int).skip(1);
    assert forall|k: nat| k < n implies spec_flags_valid(#[trigger] spec_skip_records(b, k)) by {
        lemma_body_offsets(s, k);
        assert(!has_invalid_flags(s, k));
    }
    lemma_body_offsets(s, 0);
    lemma_stations_ok(b, n);
    assert forall|k: nat| k < n implies #[trigger] spec_skip_records(b, k) == spec_station_bytes(
        s,
        k,
    ) by {
        lemma_body_offsets(s, k);
    }
    assert(Seq::new(n, |k: int| spec_record(spec_skip_records(b, k as nat))) =~= Seq::new(
        n,
        |k: int| spec_record(spec_station_bytes(s, k as nat)),
    ));
}

/// Whenever a station report decodes, it holds as many records as its count
/// byte says and takes `10 + 1 + n * 57` bytes.
pub proof fn law_station_report_length(s: Seq<u8>)
    requires
        is_station_report(s),
        spec_parser(s) is Ok,
    ensures
        s.len() > HEADER_LEN,
        spec_parser(s) matches Ok((header, consumed)) && header.data matches Some(stas)
            && stas.len() == spec_station_count(s) && consumed == spec_frame_len(
            spec_station_count(s),
        ) && consumed <= s.len(),
{
    let n = spec_station_count(s);
    let b = s.skip(HEADER_LEN as int).skip(1);
    lemma_stations_len(b, n);
}

/// An input shorter than a header is incomplete.
pub proof fn law_short_header_is_incomplete(s: Seq<u8>)
    requires
        s.len() < HEADER_LEN,
    ensures
        spec_parser(s) == Err::<(CHTHeaderView, nat), DecodeError>(DecodeError::Incomplete),
{
}

/// A station report that ends before its count byte or before the last
/// record that the count byte announces is incomplete, unless a record that
/// is wholly there has a reserved flag bit set.
pub proof fn law_short_station_report_is_incomplete(s: Seq<u8>)
    requires
        is_station_report(s),
        s.len() == HEADER_LEN || s.len() < spec_frame_len(spec_station_count(s)),
        forall|k: nat| k < spec_station_count(s) ==> !#[trigger] has_invalid_flags(s, k),
    ensures
        spec_parser(s) == Err::<(CHTHeaderView, nat), DecodeError>(DecodeError::Incomplete),
{
    if s.len() > HEADER_LEN {
        let n = spec_station_count(s);
        let b = s.skip(HEADER_LEN as int).skip(1);
        lemma_body_offsets(s, 0);
        // The number of records that are wholly there.
        let m = (b.len() / STAT_STA_LEN as nat) as nat;
        assert(STAT_STA_LEN * m <= b.len() < STAT_STA_LEN * (m + 1));
        assert(m < n) by (nonlinear_arith)
            requires
                b.len() < STAT_STA_LEN * n,
                STAT_STA_LEN * m <= b.len(),
        ;
        assert forall|k: nat| k < m implies spec_flags_valid(
            #[trigger] spec_skip_records(b, k),
        ) by {
            assert(STAT_STA_LEN * (k + 1) <= STAT_STA_LEN * m) by (nonlinear_arith)
                requires
                    k < m,
            ;
            lemma_body_offsets(s, k);
            assert(!has_invalid_flags(s, k));
        }
        lemma_stations_ok(b, m);
        assert(spec_stations(b, m + 1) == Err::<Seq<StatStaView>, DecodeError>(
            DecodeError::Incomplete,
        ));
        lemma_stations_error_persists(b, m + 1, n, DecodeError::Incomplete);
    }
}

/// A station report in which a record that is wholly there has a reserved
/// flag bit set is refused for its flags.
pub proof fn law_reserved_flag_bit_is_refused(s: Seq<u8>, k: nat)
    requires
        is_station_report(s),
        k < spec_station_count(s),
        has_invalid_flags(s, k),
    ensures
        spec_parser(s) == Err::<(CHTHeaderView, nat), DecodeError>(DecodeError::InvalidFlags),
{
    let n = spec_station_count(s);
    let b = s.skip(HEADER_LEN as int).skip(1);
    lemma_body_offsets(s, k);
    lemma_stations_complete(b, k);
    lemma_stations_complete(b, k + 1);
    assert(spec_stations(b, k + 1) == Err::<Seq<StatStaView>, DecodeError>(
        DecodeError::InvalidFlags,
    ));
    lemma_stations_error_persists(b, k + 1, n, DecodeError::InvalidFlags);
}

} // verus!
