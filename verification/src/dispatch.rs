//! What the agent does with each message that the broker delivers.
//!
//! The consumer loop receives a delivery, decodes its payload, hands the
//! frame to a pool of workers and acknowledges the delivery to the broker.
//! A worker writes one point per station record to the store. Receiving,
//! handing over, acknowledging and writing are input and output; which of
//! them happen for a delivery, and in what order, is decided here.

use crate::parser::{parser, spec_parser, CHTHeader, CHTHeaderView, DecodeError};
use crate::tsdb::push::{push, spec_is_write};
use influx_db_client::Point;
use vstd::prelude::*;

verus! {

/// Number of workers that write to the store, where no other is asked for.
pub const WORKERS: usize = 2;

/// One step that the consumer loop takes for a delivery.
#[derive(Debug, PartialEq, Eq)]
pub enum Action {
    /// Report that the payload is no frame. The payload is dropped.
    Reject(DecodeError),
    /// Report that this many bytes of the payload lie behind the frame.
    /// They are not read.
    Leftover(usize),
    /// Hand the frame to the worker pool.
    Dispatch(CHTHeader),
    /// Acknowledge the delivery with this tag to the broker.
    Ack(u64),
}

/// A step of the consumer loop, as plain values.
pub enum ActionView {
    Reject(DecodeError),
    Leftover(nat),
    Dispatch(CHTHeaderView),
    Ack(u64),
}

impl View for Action {
    type V = ActionView;

    open spec fn view(&self) -> ActionView {
        match self {
            Action::Reject(e) => ActionView::Reject(*e),
            Action::Leftover(n) => ActionView::Leftover(*n as nat),
            Action::Dispatch(header) => ActionView::Dispatch(header@),
            Action::Ack(tag) => ActionView::Ack(*tag),
        }
    }
}

/// The plain values of a sequence of steps.
pub open spec fn action_views(actions: Seq<Action>) -> Seq<ActionView> {
    Seq::new(actions.len(), |i: int| actions[i]@)
}

/// The steps to take for a delivery with payload `data` and tag
/// `delivery_tag`, in order.
pub open spec fn spec_on_delivery(data: Seq<u8>, delivery_tag: u64) -> Seq<ActionView> {
    match spec_parser(data) {
        Err(e) => seq![ActionView::Reject(e), ActionView::Ack(delivery_tag)],
        Ok((header, consumed)) => if consumed < data.len() {
            seq![
                ActionView::Leftover((data.len() - consumed) as nat),
                ActionView::Dispatch(header),
                ActionView::Ack(delivery_tag),
            ]
        } else {
            seq![ActionView::Dispatch(header), ActionView::Ack(delivery_tag)]
        },
    }
}

/// Decides what to do with a delivery.
///
/// A payload that decodes is handed to the workers, after a report of the
/// bytes behind the frame if there are any; one that does not is reported
/// and dropped. Either way the delivery is acknowledged, as the last step:
/// after the hand-over, and without waiting for any write to the store.
pub fn on_delivery(data: &[u8], delivery_tag: u64) -> (r: Vec<Action>)
    ensures
        action_views(r@) == spec_on_delivery(data@, delivery_tag),
{
    let mut actions: Vec<Action> = Vec::new();
    match parser(data) {
        Err(e) => {
            actions.push(Action::Reject(e));
        },
        Ok((rest, header)) => {
            if rest.len() > 0 {
                actions.push(Action::Leftover(rest.len()));
            }
            actions.push(Action::Dispatch(header));
        },
    }
    actions.push(Action::Ack(delivery_tag));
    assert(action_views(actions@) =~= spec_on_delivery(data@, delivery_tag));
    actions
}

/// The points to write for a frame: one for each station record, in the
/// order of the records, and none for a frame without records.
pub fn handle(msg: &CHTHeader) -> (r: Vec<Point<'static>>)
    ensures
        msg.data is None ==> r@.len() == 0,
        msg.data matches Some(stas) ==> r@.len() == stas@.len() && forall|i: int|
            0 <= i < stas@.len() ==> spec_is_write(#[trigger] r@[i], msg.cht_id, stas@[i]@),
{
    let mut points: Vec<Point<'static>> = Vec::new();
    if let Some(stas) = &msg.data {
        let mut i: usize = 0;
        while i < stas.len()
            invariant
                i <= stas@.len(),
                points@.len() == i,
                forall|j: int|
                    0 <= j < i ==> spec_is_write(#[trigger] points@[j], msg.cht_id, stas@[j]@),
            decreases stas@.len() - i,
        {
            points.push(push(msg, &stas[i]));
            i += 1;
        }
    }
    points
}

/// Every delivery is acknowledged, whatever its payload, and nothing is
/// done for it after the acknowledgement.
pub proof fn law_every_delivery_is_acknowledged(data: Seq<u8>, delivery_tag: u64)
    ensures
        spec_on_delivery(data, delivery_tag).len() >= 2,
        spec_on_delivery(data, delivery_tag).last() == ActionView::Ack(delivery_tag),
        forall|i: int|
            0 <= i < spec_on_delivery(data, delivery_tag).len() - 1 ==> !(#[trigger] spec_on_delivery(
                data,
                delivery_tag,
            )[i] is Ack),
{
}

/// A payload is handed over exactly when it decodes, then as the frame that
/// it decodes to, and before the acknowledgement.
pub proof fn law_decoded_frame_is_dispatched(data: Seq<u8>, delivery_tag: u64)
    ensures
        spec_parser(data) matches Ok((header, _)) ==> {
            let actions = spec_on_delivery(data, delivery_tag);
            actions[actions.len() - 2] == ActionView::Dispatch(header)
        },
        spec_parser(data) is Err ==> forall|i: int|
            0 <= i < spec_on_delivery(data, delivery_tag).len() ==> !(#[trigger] spec_on_delivery(
                data,
                delivery_tag,
            )[i] is Dispatch),
{
}

} // verus!
