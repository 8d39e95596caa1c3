//! The protocol of one retrieval, as a transition function.
//!
//! A retrieval looks the entry up in the store. A hit is decoded and returned. A
//! miss, a store that does not answer and an entry that does not decode all lead
//! to the resolver; its value is encoded, written through to the store and
//! returned, whether or not the store took the write.
use crate::error::Failure;
use vstd::prelude::*;

verus! {

/// Where a retrieval stands: what it waits for, and the value it keeps meanwhile.
#[derive(Debug, PartialEq, Eq)]
pub enum Stage<V> {
    /// The store is being asked for the entry.
    Lookup,
    /// The entry that the store held is being decoded.
    Decode,
    /// The resolver is being asked for the value.
    Resolve,
    /// The resolved value is being encoded.
    Encode { value: V },
    /// The encoded value is being written to the store.
    WriteThrough { value: V },
    /// The outcome has been handed out.
    Done,
}

/// What the surroundings of a retrieval report back to it.
pub enum EventView<V> {
    /// The store answered the lookup: with the entry, or with none.
    Looked { entry: Option<Seq<u8>> },
    /// The store did not answer the lookup.
    LookupFailed,
    /// Decoding ended: with the value, or with none where the entry is corrupted.
    Decoded { value: Option<V> },
    /// The resolver answered.
    Resolved { outcome: Result<V, Failure> },
    /// Encoding ended: with the entry, or with the reason why the value has none.
    Encoded { encoding: Result<Seq<u8>, Seq<char>> },
    /// The write ended: acknowledged by the store, or not.
    Written { acknowledged: bool },
}

/// What a retrieval asks of its surroundings next.
pub enum ActionView<V> {
    /// Ask the store for the entry under `address`.
    Lookup { address: Seq<char> },
    /// Decode `entry`.
    Decode { entry: Seq<u8> },
    /// Ask the resolver for the value.
    Resolve,
    /// Encode the value that the retrieval keeps.
    Encode,
    /// Write `entry` to the store under `address`, in one operation.
    Store { address: Seq<char>, entry: Seq<u8> },
    /// Hand `outcome` to the caller: the retrieval is over.
    Return { outcome: Result<V, Failure> },
}

/// The action that opens a retrieval of the entry under `address`.
pub open spec fn opening<V>(address: Seq<char>) -> (Stage<V>, ActionView<V>) {
    (Stage::Lookup, ActionView::Lookup { address })
}

/// The stage that follows `stage` on `event`, and the action asked for then;
/// `None` where `stage` does not wait for `event`.
pub open spec fn next<V>(address: Seq<char>, stage: Stage<V>, event: EventView<V>) -> Option<
    (Stage<V>, ActionView<V>),
> {
    match (stage, event) {
        (Stage::Lookup, EventView::Looked { entry: Some(entry) }) => Some(
            (Stage::Decode, ActionView::Decode { entry }),
        ),
        (Stage::Lookup, EventView::Looked { entry: None }) => Some(
            (Stage::Resolve, ActionView::Resolve),
        ),
        (Stage::Lookup, EventView::LookupFailed) => Some((Stage::Resolve, ActionView::Resolve)),
        (Stage::Decode, EventView::Decoded { value: Some(value) }) => Some(
            (Stage::Done, ActionView::Return { outcome: Ok(value) }),
        ),
        (Stage::Decode, EventView::Decoded { value: None }) => Some(
            (Stage::Resolve, ActionView::Resolve),
        ),
        (Stage::Resolve, EventView::Resolved { outcome: Ok(value) }) => Some(
            (Stage::Encode { value }, ActionView::Encode),
        ),
        (Stage::Resolve, EventView::Resolved { outcome: Err(error) }) => Some(
            (Stage::Done, ActionView::Return { outcome: Err(error) }),
        ),
        (Stage::Encode { value }, EventView::Encoded { encoding: Ok(entry) }) => Some(
            (Stage::WriteThrough { value }, ActionView::Store { address, entry }),
        ),
        (Stage::Encode { value }, EventView::Encoded { encoding: Err(cause) }) => Some(
            (
                Stage::Done,
                ActionView::Return { outcome: Err(Failure::EncodingFailed { cause }) },
            ),
        ),
        (Stage::WriteThrough { value }, EventView::Written { acknowledged }) => Some(
            (Stage::Done, ActionView::Return { outcome: Ok(value) }),
        ),
        _ => None,
    }
}

/// A fault that a retrieval absorbs: it is worth a line in the log, and it never
/// fails the retrieval.
#[derive(Debug, Clone, Copy, PartialEq, Eq, Structural)]
pub enum Fault {
    /// The store did not answer a lookup or did not take a write. The retrieval
    /// goes on as after a miss, or as after the write.
    StoreDegraded,
    /// The entry that the store held does not decode. The retrieval goes on as
    /// after a miss, and overwrites the entry.
    CorruptedEntry,
}

/// The fault that `event` reports, if it reports one.
pub open spec fn fault<V>(event: EventView<V>) -> Option<Fault> {
    match event {
        EventView::LookupFailed => Some(Fault::StoreDegraded),
        EventView::Decoded { value: None } => Some(Fault::CorruptedEntry),
        EventView::Written { acknowledged: false } => Some(Fault::StoreDegraded),
        _ => None,
    }
}

/// How far along a retrieval is: the stages in the order in which they can come.
pub open spec fn rank<V>(stage: Stage<V>) -> nat {
    match stage {
        Stage::Lookup => 0,
        Stage::Decode => 1,
        Stage::Resolve => 2,
        Stage::Encode { .. } => 3,
        Stage::WriteThrough { .. } => 4,
        Stage::Done => 5,
    }
}

/// Every event that a retrieval takes moves it on to a later stage: no stage
/// comes twice, so the resolver is asked at most once, and at most five events
/// end the retrieval. A retrieval that is over takes no event.
pub proof fn next_moves_on<V>(address: Seq<char>, stage: Stage<V>, event: EventView<V>)
    ensures
        stage is Done ==> next(address, stage, event) is None,
        next(address, stage, event) matches Some((after, asked)) ==> {
            &&& rank(stage) < rank(after) <= 5
            &&& asked is Resolve <==> after is Resolve
            &&& asked is Return <==> after is Done
        },
{
}

/// Faults are absorbed: after an event that reports one, the retrieval turns to
/// the resolver or returns the resolved value. A retrieval fails only on the
/// failure of the resolver, which it returns as it is, and on the failure of the
/// encoder.
pub proof fn faults_are_absorbed<V>(address: Seq<char>, stage: Stage<V>, event: EventView<V>)
    ensures
        next(address, stage, event) matches Some((_, asked)) ==> match asked {
            ActionView::Return { outcome: Err(error) } => {
                ||| event == EventView::Resolved { outcome: Err::<V, Failure>(error) }
                ||| exists|cause: Seq<char>|
                    {
                        &&& event == EventView::<V>::Encoded { encoding: Err(cause) }
                        &&& error == Failure::EncodingFailed { cause }
                    }
            },
            ActionView::Return { outcome: Ok(_) } => true,
            ActionView::Resolve => true,
            _ => fault(event) is None,
        },
{
}

/// A failed write changes nothing for the caller: acknowledged or not, the
/// write-through ends the retrieval with the resolved value.
pub proof fn written_or_not<V>(address: Seq<char>, value: V, acknowledged: bool)
    ensures
        next(address, Stage::WriteThrough { value }, EventView::Written { acknowledged }) == Some(
            (Stage::<V>::Done, ActionView::Return { outcome: Ok(value) }),
        ),
{
}

} // verus!
