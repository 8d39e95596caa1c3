//! The machine that carries one retrieval through its protocol.
//!
//! The machine itself neither reads nor writes. Its driver performs each
//! [`Action`] against the store, the codec and the resolver, and reports how it
//! went in an [`Event`].
use crate::cache::protocol::{fault, next, opening, ActionView, EventView, Fault, Stage};
use crate::error::{outcome_view, CacheResolverError, Failure};
use crate::traits::CacheResolver;
use vstd::prelude::*;

verus! {

/// What the driver reports back to a retrieval.
#[derive(Debug, PartialEq, Eq)]
pub enum Event<V> {
    /// The store answered the lookup: with the entry, or with none.
    Looked { entry: Option<Vec<u8>> },
    /// The store did not answer the lookup.
    LookupFailed,
    /// Decoding ended: with the value, or with none where the entry is corrupted.
    Decoded { value: Option<V> },
    /// The resolver answered.
    Resolved { outcome: Result<V, CacheResolverError> },
    /// Encoding ended: with the entry, or with the reason why the value has none.
    Encoded { encoding: Result<Vec<u8>, String> },
    /// The write ended: acknowledged by the store, or not.
    Written { acknowledged: bool },
}

impl<V> View for Event<V> {
    type V = EventView<V>;

    open spec fn view(&self) -> EventView<V> {
        match *self {
            Event::Looked { entry: Some(entry) } => EventView::Looked { entry: Some(entry@) },
            Event::Looked { entry: None } => EventView::Looked { entry: None },
            Event::LookupFailed => EventView::LookupFailed,
            Event::Decoded { value } => EventView::Decoded { value },
            Event::Resolved { outcome } => EventView::Resolved { outcome: outcome_view(outcome) },
            Event::Encoded { encoding: Ok(entry) } => EventView::Encoded { encoding: Ok(entry@) },
            Event::Encoded { encoding: Err(cause) } => EventView::Encoded { encoding: Err(cause@) },
            Event::Written { acknowledged } => EventView::Written { acknowledged },
        }
    }
}

impl<V> Event<V> {
    /// The fault that this event reports, if it reports one: what the driver
    /// writes to the log, and the caller never sees.
    pub fn fault(&self) -> (reported: Option<Fault>)
        ensures
            reported == fault(self@),
    {
        match self {
            Event::LookupFailed => Some(Fault::StoreDegraded),
            Event::Decoded { value: None } => Some(Fault::CorruptedEntry),
            Event::Written { acknowledged: false } => Some(Fault::StoreDegraded),
            _ => None,
        }
    }
}

/// What a retrieval asks of its driver next.
#[derive(Debug, PartialEq, Eq)]
pub enum Action<V> {
    /// Ask the store for the entry under `address`.
    Lookup { address: String },
    /// Decode `entry`.
    Decode { entry: Vec<u8> },
    /// Ask the resolver for the value.
    Resolve,
    /// Encode the value that [`Retrieval::value`] shows.
    Encode,
    /// Write `entry` to the store under `address`, in one operation.
    Store { address: String, entry: Vec<u8> },
    /// Hand `outcome` to the caller: the retrieval is over.
    Return { outcome: Result<V, CacheResolverError> },
}

impl<V> View for Action<V> {
    type V = ActionView<V>;

    open spec fn view(&self) -> ActionView<V> {
        match *self {
            Action::Lookup { address } => ActionView::Lookup { address: address@ },
            Action::Decode { entry } => ActionView::Decode { entry: entry@ },
            Action::Resolve => ActionView::Resolve,
            Action::Encode => ActionView::Encode,
            Action::Store { address, entry } => ActionView::Store {
                address: address@,
                entry: entry@,
            },
            Action::Return { outcome } => ActionView::Return { outcome: outcome_view(outcome) },
        }
    }
}

/// One retrieval: the address of its entry in the store, and where it stands.
pub struct Retrieval<V> {
    address: String,
    stage: Stage<V>,
}

/// A retrieval as its contracts see it.
pub struct RetrievalView<V> {
    /// The address of the entry in the store.
    pub address: Seq<char>,
    /// Where the retrieval stands.
    pub stage: Stage<V>,
}

impl<V> RetrievalView<V> {
    /// The retrieval after `event`, and the action that it asks for then; `None`
    /// where it does not wait for `event`.
    pub open spec fn next(self, event: EventView<V>) -> Option<(RetrievalView<V>, ActionView<V>)> {
        match next(self.address, self.stage, event) {
            Some((stage, action)) => Some((RetrievalView { address: self.address, stage }, action)),
            None => None,
        }
    }
}

impl<V> View for Retrieval<V> {
    type V = RetrievalView<V>;

    closed spec fn view(&self) -> RetrievalView<V> {
        RetrievalView { address: self.address@, stage: self.stage }
    }
}

impl<V> Retrieval<V> {
    /// Opens the retrieval of the entry under `address`, the canonical store
    /// address of the key. The first action is the lookup of that address.
    pub fn begin(address: String) -> (opened: (Retrieval<V>, Action<V>))
        ensures
            (opened.0@.stage, opened.1@) == opening::<V>(address@),
            opened.0@.address == address@,
    {
        let asked = address.clone();
        (Retrieval { address, stage: Stage::Lookup }, Action::Lookup { address: asked })
    }

    /// Takes `event` and names the next action. Where the retrieval does not wait
    /// for `event`, it stays as it is and the answer is `None`.
    pub fn step(&mut self, event: Event<V>) -> (action: Option<Action<V>>)
        ensures
            old(self)@.next(event@) == match action {
                Some(asked) => Some((final(self)@, asked@)),
                None => None,
            },
            action is None ==> final(self)@ == old(self)@,
    {
        let mut stage = Stage::Done;
        core::mem::swap(&mut self.stage, &mut stage);
        match (stage, event) {
            (Stage::Lookup, Event::Looked { entry: Some(entry) }) => {
                self.stage = Stage::Decode;
                Some(Action::Decode { entry })
            },
            (Stage::Lookup, Event::Looked { entry: None }) => {
                self.stage = Stage::Resolve;
                Some(Action::Resolve)
            },
            (Stage::Lookup, Event::LookupFailed) => {
                self.stage = Stage::Resolve;
                Some(Action::Resolve)
            },
            (Stage::Decode, Event::Decoded { value: Some(value) }) => {
                Some(Action::Return { outcome: Ok(value) })
            },
            (Stage::Decode, Event::Decoded { value: None }) => {
                self.stage = Stage::Resolve;
                Some(Action::Resolve)
            },
            (Stage::Resolve, Event::Resolved { outcome: Ok(value) }) => {
                self.stage = Stage::Encode { value };
                Some(Action::Encode)
            },
            (Stage::Resolve, Event::Resolved { outcome: Err(error) }) => {
                Some(Action::Return { outcome: Err(error) })
            },
            (Stage::Encode { value }, Event::Encoded { encoding: Ok(entry) }) => {
                self.stage = Stage::WriteThrough { value };
                Some(Action::Store { address: self.address.clone(), entry })
            },
            (Stage::Encode { value }, Event::Encoded { encoding: Err(cause) }) => {
                Some(Action::Return { outcome: Err(CacheResolverError::EncodingFailed { cause }) })
            },
            (Stage::WriteThrough { value }, Event::Written { acknowledged }) => {
                Some(Action::Return { outcome: Ok(value) })
            },
            (stage, _) => {
                self.stage = stage;
                None
            },
        }
    }

    /// Where the retrieval waits for the resolver: asks `resolver` for the value of
    /// `key` and takes its answer. Anywhere else the resolver is left alone, the
    /// retrieval stays as it is and the answer is `None`.
    pub fn resolve_with<K, R: CacheResolver<K, V> + ?Sized>(
        &mut self,
        resolver: &R,
        key: K,
    ) -> (action: Option<Action<V>>)
        ensures
            old(self)@.stage is Resolve ==> action is Some && exists|outcome: Result<V, Failure>|
                {
                    &&& resolver.answers(key, outcome)
                    &&& #[trigger] old(self)@.next(EventView::Resolved { outcome }) == Some(
                        (final(self)@, action.unwrap()@),
                    )
                },
            !(old(self)@.stage is Resolve) ==> action is None && final(self)@ == old(self)@,
    {
        match &self.stage {
            Stage::Resolve => {
                let outcome = resolver.retrieve(key);
                self.step(Event::Resolved { outcome })
            },
            _ => None,
        }
    }

    /// The address of the entry in the store.
    pub fn address(&self) -> (address: &String)
        ensures
            address@ == self@.address,
    {
        &self.address
    }

    /// Where the retrieval stands.
    pub fn stage(&self) -> (stage: &Stage<V>)
        ensures
            *stage == self@.stage,
    {
        &self.stage
    }

    /// The resolved value, while it is being encoded and written through.
    pub fn value(&self) -> (value: Option<&V>)
        ensures
            value == match self@.stage {
                Stage::Encode { value } => Some(&value),
                Stage::WriteThrough { value } => Some(&value),
                _ => None,
            },
    {
        match &self.stage {
            Stage::Encode { value } => Some(value),
            Stage::WriteThrough { value } => Some(value),
            _ => None,
        }
    }

    /// Whether the outcome has been handed out.
    pub fn is_done(&self) -> (done: bool)
        ensures
            done == (self@.stage is Done),
    {
        match &self.stage {
            Stage::Done => true,
            _ => false,
        }
    }
}

} // verus!
