//! The points that are written to the time-series store.
//!
//! One point is written per station record. Its fields are the numeric
//! attributes of the record, each under the name of the attribute, and the
//! identifier of the collector under `cht_id`. The hardware address is no
//! field, and the instant of the record is the point's time, not a field.
//!
//! Points are values of the store's client library. What this module proves
//! of them rests on the contracts of [`new_point`], [`add_integer_field`] and
//! [`add_timestamp`], which are stated, not proved.

use crate::parser::{CHTHeader, StatSta, StatStaView};
use influx_db_client::{Point, Value};
use vstd::prelude::*;

verus! {

/// The point type of the store's client library. Values of it are carried,
/// never looked into.
#[verifier::external_type_specification]
#[verifier::external_body]
pub struct ExPoint<'a>(influx_db_client::Point<'a>);

/// Name of the database that holds the records.
pub const DATABASE: &'static str = "agent-rs";

/// The measurement that a point belongs to.
pub uninterp spec fn point_measurement(point: Point<'static>) -> Seq<char>;

/// The integer fields of a point, by name.
pub uninterp spec fn point_fields(point: Point<'static>) -> Map<Seq<char>, int>;

/// The time of a point, where one was set.
pub uninterp spec fn point_timestamp(point: Point<'static>) -> Option<int>;

/// Whether a point holds nothing but integer fields: no tag, and no field
/// of another kind.
pub uninterp spec fn point_is_plain(point: Point<'static>) -> bool;

/// The fields of a point that has none.
pub open spec fn spec_no_fields() -> Map<Seq<char>, int> {
    Map::empty()
}

/// `influx_db_client::Point::new`: a point of the given measurement that has
/// no tag, no field and no time.
#[verifier::external_body]
fn new_point(measurement: &str) -> (r: Point<'static>)
    ensures
        point_measurement(r) == measurement@,
        point_fields(r) == spec_no_fields(),
        point_timestamp(r) is None,
        point_is_plain(r),
{
    Point::new(measurement)
}

/// `influx_db_client::Point::add_field` with a `Value::Integer`: the point
/// with the field set to the value, whether or not it had a field of that
/// name before; measurement, time and tags stay, and no field of another
/// kind comes in.
#[verifier::external_body]
fn add_integer_field(point: Point<'static>, field: &str, value: i64) -> (r: Point<'static>)
    ensures
        point_fields(r) == point_fields(point).insert(field@, value as int),
        point_measurement(r) == point_measurement(point),
        point_timestamp(r) == point_timestamp(point),
        point_is_plain(point) ==> point_is_plain(r),
{
    point.add_field(field, Value::Integer(value))
}

/// `influx_db_client::Point::add_timestamp`: the point with its time set;
/// measurement, tags and fields stay.
#[verifier::external_body]
fn add_timestamp(point: Point<'static>, timestamp: i64) -> (r: Point<'static>)
    ensures
        point_timestamp(r) == Some(timestamp as int),
        point_measurement(r) == point_measurement(point),
        point_fields(r) == point_fields(point),
        point_is_plain(r) == point_is_plain(point),
{
    point.add_timestamp(timestamp)
}

/// The measurement under which station records are stored.
pub open spec fn spec_measurement() -> Seq<char> {
    "StatSta"@
}

/// The fields of the point of a station record: every numeric attribute
/// under its own name.
pub open spec fn spec_fields(sta: StatStaView) -> Map<Seq<char>, int> {
    spec_no_fields().insert("snr"@, sta.snr as int).insert(
        "signal"@,
        sta.signal as int,
    ).insert("noise"@, sta.noise as int).insert("rx_packets"@, sta.rx_packets as int).insert(
        "tx_packets"@,
        sta.tx_packets as int,
    ).insert("tx_rate"@, sta.tx_rate as int).insert("tx_mcs"@, sta.tx_mcs as int).insert(
        "tx_flags"@,
        sta.tx_flags as int,
    ).insert("tx_mhz"@, sta.tx_mhz as int).insert("tx_vht_nss"@, sta.tx_vht_nss as int).insert(
        "rx_rate"@,
        sta.rx_rate as int,
    ).insert("rx_mcs"@, sta.rx_mcs as int).insert("rx_flags"@, sta.rx_flags as int).insert(
        "rx_mhz"@,
        sta.rx_mhz as int,
    ).insert("rx_vht_nss"@, sta.rx_vht_nss as int).insert("rx_bytes"@, sta.rx_bytes as int).insert(
        "tx_bytes"@,
        sta.tx_bytes as int,
    ).insert("rx_retries"@, sta.rx_retries as int).insert("rx_failed"@, sta.rx_failed as int)
}

/// Whether `point` is the point to write for the record `sta` that came
/// from the collector `cht_id`.
pub open spec fn spec_is_write(point: Point<'static>, cht_id: u32, sta: StatStaView) -> bool {
    &&& point_measurement(point) == spec_measurement()
    &&& point_fields(point) == spec_fields(sta).insert("cht_id"@, cht_id as int)
    &&& point_timestamp(point) == Some(sta.timestamp as int)
    &&& point_is_plain(point)
}

/// A record that the store can hold.
pub trait Influx {
    /// The point that holds the record.
    fn push(&self) -> Point<'static>;
}

impl Influx for StatSta {
    /// The point of the record: measurement `StatSta`, one integer field per
    /// numeric attribute and nothing else, and the record's instant as its
    /// time.
    fn push(&self) -> (r: Point<'static>)
        ensures
            point_measurement(r) == spec_measurement(),
            point_fields(r) == spec_fields(self@),
            point_timestamp(r) == Some(self.timestamp as int),
            point_is_plain(r),
    {
        let point = new_point("StatSta");
        let point = add_integer_field(point, "snr", self.snr as i64);
        let point = add_integer_field(point, "signal", self.signal as i64);
        let point = add_integer_field(point, "noise", self.noise as i64);
        let point = add_integer_field(point, "rx_packets", self.rx_packets as i64);
        let point = add_integer_field(point, "tx_packets", self.tx_packets as i64);
        let point = add_integer_field(point, "tx_rate", self.tx_rate as i64);
        let point = add_integer_field(point, "tx_mcs", self.tx_mcs as i64);
        let point = add_integer_field(point, "tx_flags", self.tx_flags.to_integer());
        let point = add_integer_field(point, "tx_mhz", self.tx_mhz as i64);
        let point = add_integer_field(point, "tx_vht_nss", self.tx_vht_nss as i64);
        let point = add_integer_field(point, "rx_rate", self.rx_rate as i64);
        let point = add_integer_field(point, "rx_mcs", self.rx_mcs as i64);
        let point = add_integer_field(point, "rx_flags", self.rx_flags.to_integer());
        let point = add_integer_field(point, "rx_mhz", self.rx_mhz as i64);
        let point = add_integer_field(point, "rx_vht_nss", self.rx_vht_nss as i64);
        let point = add_integer_field(point, "rx_bytes", self.rx_bytes as i64);
        let point = add_integer_field(point, "tx_bytes", self.tx_bytes as i64);
        let point = add_integer_field(point, "rx_retries", self.rx_retries as i64);
        let point = add_integer_field(point, "rx_failed", self.rx_failed as i64);
        add_timestamp(point, self.timestamp)
    }
}

/// The point to write for one station record of a frame: the record's own
/// point, with the identifier of the frame's collector added under `cht_id`.
pub fn push(cht: &CHTHeader, stat_sta: &StatSta) -> (r: Point<'static>)
    ensures
        spec_is_write(r, cht.cht_id, stat_sta@),
{
    let point = stat_sta.push();
    add_integer_field(point, "cht_id", cht.cht_id as i64)
}

/// Whether `name` is the name of a field of a written point.
pub open spec fn spec_is_field_name(name: Seq<char>) -> bool {
    ||| name == "snr"@
    ||| name == "signal"@
    ||| name == "noise"@
    ||| name == "rx_packets"@
    ||| name == "tx_packets"@
    ||| name == "tx_rate"@
    ||| name == "tx_mcs"@
    ||| name == "tx_flags"@
    ||| name == "tx_mhz"@
    ||| name == "tx_vht_nss"@
    ||| name == "rx_rate"@
    ||| name == "rx_mcs"@
    ||| name == "rx_flags"@
    ||| name == "rx_mhz"@
    ||| name == "rx_vht_nss"@
    ||| name == "rx_bytes"@
    ||| name == "tx_bytes"@
    ||| name == "rx_retries"@
    ||| name == "rx_failed"@
    ||| name == "cht_id"@
}

/// The names of the attributes differ from each other, so a written point
/// holds each numeric attribute of its record under the attribute's name,
/// the collector under `cht_id`, and no other field: neither the hardware
/// address nor the instant is one.
pub proof fn law_point_holds_each_attribute(sta: StatStaView, cht_id: u32)
    ensures
        ({
            let fields = spec_fields(sta).insert("cht_id"@, cht_id as int);
            &&& forall|name: Seq<char>| fields.dom().contains(name) <==> spec_is_field_name(name)
            &&& !spec_is_field_name("mac"@)
            &&& !spec_is_field_name("timestamp"@)
            &&& fields["cht_id"@] == cht_id
            &&& fields["snr"@] == sta.snr
            &&& fields["signal"@] == sta.signal
            &&& fields["noise"@] == sta.noise
            &&& fields["rx_packets"@] == sta.rx_packets
            &&& fields["tx_packets"@] == sta.tx_packets
            &&& fields["tx_rate"@] == sta.tx_rate
            &&& fields["tx_mcs"@] == sta.tx_mcs
            &&& fields["tx_flags"@] == sta.tx_flags
            &&& fields["tx_mhz"@] == sta.tx_mhz
            &&& fields["tx_vht_nss"@] == sta.tx_vht_nss
            &&& fields["rx_rate"@] == sta.rx_rate
            &&& fields["rx_mcs"@] == sta.rx_mcs
            &&& fields["rx_flags"@] == sta.rx_flags
            &&& fields["rx_mhz"@] == sta.rx_mhz
            &&& fields["rx_vht_nss"@] == sta.rx_vht_nss
            &&& fields["rx_bytes"@] == sta.rx_bytes
            &&& fields["tx_bytes"@] == sta.tx_bytes
            &&& fields["rx_retries"@] == sta.rx_retries
            &&& fields["rx_failed"@] == sta.rx_failed
        }),
{
    reveal_strlit("snr");
    reveal_strlit("signal");
    reveal_strlit("noise");
    reveal_strlit("rx_packets");
    reveal_strlit("tx_packets");
    reveal_strlit("tx_rate");
    reveal_strlit("tx_mcs");
    reveal_strlit("tx_flags");
    reveal_strlit("tx_mhz");
    reveal_strlit("tx_vht_nss");
    reveal_strlit("rx_rate");
    reveal_strlit("rx_mcs");
    reveal_strlit("rx_flags");
    reveal_strlit("rx_mhz");
    reveal_strlit("rx_vht_nss");
    reveal_strlit("rx_bytes");
    reveal_strlit("tx_bytes");
    reveal_strlit("rx_retries");
    reveal_strlit("rx_failed");
    reveal_strlit("cht_id");
    reveal_strlit("mac");
    reveal_strlit("timestamp");
    assert("snr"@.len() == 3 && "snr"@[0] == 's');
    assert("signal"@.len() == 6 && "signal"@[0] == 's' && "signal"@[3] == 'n' && "signal"@[4] == 'a');
    assert("noise"@.len() == 5 && "noise"@[0] == 'n' && "noise"@[3] == 's' && "noise"@[4] == 'e');
    assert("rx_packets"@.len() == 10 && "rx_packets"@[0] == 'r' && "rx_packets"@[3] == 'p' && "rx_packets"@[4] == 'a');
    assert("tx_packets"@.len() == 10 && "tx_packets"@[0] == 't' && "tx_packets"@[3] == 'p' && "tx_packets"@[4] == 'a');
    assert("tx_rate"@.len() == 7 && "tx_rate"@[0] == 't' && "tx_rate"@[3] == 'r' && "tx_rate"@[4] == 'a');
    assert("tx_mcs"@.len() == 6 && "tx_mcs"@[0] == 't' && "tx_mcs"@[3] == 'm' && "tx_mcs"@[4] == 'c');
    assert("tx_flags"@.len() == 8 && "tx_flags"@[0] == 't' && "tx_flags"@[3] == 'f' && "tx_flags"@[4] == 'l');
    assert("tx_mhz"@.len() == 6 && "tx_mhz"@[0] == 't' && "tx_mhz"@[3] == 'm' && "tx_mhz"@[4] == 'h');
    assert("tx_vht_nss"@.len() == 10 && "tx_vht_nss"@[0] == 't' && "tx_vht_nss"@[3] == 'v' && "tx_vht_nss"@[4] == 'h');
    assert("rx_rate"@.len() == 7 && "rx_rate"@[0] == 'r' && "rx_rate"@[3] == 'r' && "rx_rate"@[4] == 'a');
    assert("rx_mcs"@.len() == 6 && "rx_mcs"@[0] == 'r' && "rx_mcs"@[3] == 'm' && "rx_mcs"@[4] == 'c');
    assert("rx_flags"@.len() == 8 && "rx_flags"@[0] == 'r' && "rx_flags"@[3] == 'f' && "rx_flags"@[4] == 'l');
    assert("rx_mhz"@.len() == 6 && "rx_mhz"@[0] == 'r' && "rx_mhz"@[3] == 'm' && "rx_mhz"@[4] == 'h');
    assert("rx_vht_nss"@.len() == 10 && "rx_vht_nss"@[0] == 'r' && "rx_vht_nss"@[3] == 'v' && "rx_vht_nss"@[4] == 'h');
    assert("rx_bytes"@.len() == 8 && "rx_bytes"@[0] == 'r' && "rx_bytes"@[3] == 'b' && "rx_bytes"@[4] == 'y');
    assert("tx_bytes"@.len() == 8 && "tx_bytes"@[0] == 't' && "tx_bytes"@[3] == 'b' && "tx_bytes"@[4] == 'y');
    assert("rx_retries"@.len() == 10 && "rx_retries"@[0] == 'r' && "rx_retries"@[3] == 'r' && "rx_retries"@[4] == 'e');
    assert("rx_failed"@.len() == 9 && "rx_failed"@[0] == 'r' && "rx_failed"@[3] == 'f' && "rx_failed"@[4] == 'a');
    assert("cht_id"@.len() == 6 && "cht_id"@[0] == 'c' && "cht_id"@[3] == '_' && "cht_id"@[4] == 'i');
    assert("mac"@.len() == 3 && "mac"@[0] == 'm');
    assert("timestamp"@.len() == 9 && "timestamp"@[0] == 't' && "timestamp"@[3] == 'e' && "timestamp"@[4] == 's');
}

} // verus!
