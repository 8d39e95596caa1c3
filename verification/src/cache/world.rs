//! A model of what surrounds a retrieval, to state what retrievals achieve.
//!
//! The store is a map from addresses to entries, the codec and the resolver are
//! functions, and a store operation either reaches the store or fails. A driver
//! that performs each action faithfully makes a retrieval run as [`run`] says.
use crate::cache::protocol::{next, opening, ActionView, EventView, Stage};
use crate::error::Failure;
use vstd::prelude::*;

verus! {

/// The store, the resolver and the codec around a retrieval.
#[verifier::reject_recursive_types(V)]
pub struct World<V> {
    /// What the store holds: entries by address.
    pub entries: Map<Seq<char>, Seq<u8>>,
    /// What the resolver answers for the key with a given address.
    pub resolver: spec_fn(Seq<char>) -> Result<V, Failure>,
    /// The encoding of a value, or why it has none.
    pub encode: spec_fn(V) -> Result<Seq<u8>, Seq<char>>,
    /// The value that an entry decodes to, where it decodes.
    pub decode: spec_fn(Seq<u8>) -> Option<V>,
}

impl<V> World<V> {
    /// The same surroundings around a store that holds `entries`.
    pub open spec fn holding(self, entries: Map<Seq<char>, Seq<u8>>) -> World<V> {
        World { entries, ..self }
    }

    /// Whether `value` has an encoding that decodes to `value` again.
    pub open spec fn round_trips(self, value: V) -> bool {
        match (self.encode)(value) {
            Ok(entry) => (self.decode)(entry) == Some(value),
            Err(_) => false,
        }
    }

    /// The entry under `address`, where the store holds one.
    pub open spec fn entry(self, address: Seq<char>) -> Option<Seq<u8>> {
        if self.entries.contains_key(address) {
            Some(self.entries[address])
        } else {
            None
        }
    }

    /// What performing `action` for a retrieval at `stage` leads to: the world
    /// after it and the event to report. A store operation goes through only
    /// where the store is `reachable`. `None` where nothing is left to perform.
    pub open spec fn respond(
        self,
        address: Seq<char>,
        stage: Stage<V>,
        action: ActionView<V>,
        reachable: bool,
    ) -> Option<(World<V>, EventView<V>)> {
        match action {
            ActionView::Lookup { address: asked } => if reachable {
                Some((self, EventView::Looked { entry: self.entry(asked) }))
            } else {
                Some((self, EventView::LookupFailed))
            },
            ActionView::Decode { entry } => Some(
                (self, EventView::Decoded { value: (self.decode)(entry) }),
            ),
            ActionView::Resolve => Some(
                (self, EventView::Resolved { outcome: (self.resolver)(address) }),
            ),
            ActionView::Encode => match stage {
                Stage::Encode { value } => Some(
                    (self, EventView::Encoded { encoding: (self.encode)(value) }),
                ),
                _ => None,
            },
            ActionView::Store { address: asked, entry } => if reachable {
                Some(
                    (
                        self.holding(self.entries.insert(asked, entry)),
                        EventView::Written { acknowledged: true },
                    ),
                )
            } else {
                Some((self, EventView::Written { acknowledged: false }))
            },
            ActionView::Return { outcome } => None,
        }
    }
}

/// How one retrieval finds the store: reachable or not, at its lookup and at its
/// write-through.
pub struct Reach {
    /// Whether the lookup reaches the store.
    pub lookup: bool,
    /// Whether the write-through reaches the store.
    pub write: bool,
}

impl Reach {
    /// Whether the store operation `action` reaches the store.
    pub open spec fn of<V>(self, action: ActionView<V>) -> bool {
        match action {
            ActionView::Lookup { .. } => self.lookup,
            _ => self.write,
        }
    }
}

/// How a retrieval ended.
pub struct Finish<V> {
    /// What the caller received.
    pub outcome: Result<V, Failure>,
    /// What the store holds afterwards.
    pub entries: Map<Seq<char>, Seq<u8>>,
    /// How many times the resolver was consulted.
    pub resolutions: nat,
}

/// Carries a retrieval on from `stage`, where `action` is the next thing to do,
/// for at most `steps` actions.
pub open spec fn drive<V>(
    world: World<V>,
    address: Seq<char>,
    stage: Stage<V>,
    action: ActionView<V>,
    reach: Reach,
    resolutions: nat,
    steps: nat,
) -> Option<Finish<V>>
    decreases steps,
{
    if let ActionView::Return { outcome } = action {
        Some(Finish { outcome, entries: world.entries, resolutions })
    } else if steps == 0 {
        None
    } else {
        match world.respond(address, stage, action, reach.of(action)) {
            Some((after, event)) => match next(address, stage, event) {
                Some((stage, asked)) => drive(
                    after,
                    address,
                    stage,
                    asked,
                    reach,
                    if action is Resolve {
                        resolutions + 1
                    } else {
                        resolutions
                    },
                    (steps - 1) as nat,
                ),
                None => None,
            },
            None => None,
        }
    }
}

/// The retrieval of the entry under `address` in `world`, from its first action
/// to its outcome.
pub open spec fn run<V>(world: World<V>, address: Seq<char>, reach: Reach) -> Option<Finish<V>> {
    drive(world, address, opening::<V>(address).0, opening::<V>(address).1, reach, 0, 5)
}

/// The value that a lookup finds and decodes, if any.
pub open spec fn hit<V>(world: World<V>, address: Seq<char>, reach: Reach) -> Option<V> {
    match world.entry(address) {
        Some(entry) if reach.lookup => (world.decode)(entry),
        _ => None,
    }
}

/// How the retrieval of the entry under `address` in `world` ends.
///
/// A hit is returned as it decodes, and the resolver is left alone. Otherwise
/// the resolver is consulted once: its failure is the outcome; a value without
/// an encoding is an encoding failure; any other value is the outcome and, where
/// the write reaches the store, the new entry.
pub open spec fn retrieved<V>(world: World<V>, address: Seq<char>, reach: Reach) -> Finish<V> {
    match hit(world, address, reach) {
        Some(value) => Finish { outcome: Ok(value), entries: world.entries, resolutions: 0 },
        None => match (world.resolver)(address) {
            Err(error) => Finish { outcome: Err(error), entries: world.entries, resolutions: 1 },
            Ok(value) => match (world.encode)(value) {
                Err(cause) => Finish {
                    outcome: Err(Failure::EncodingFailed { cause }),
                    entries: world.entries,
                    resolutions: 1,
                },
                Ok(entry) => Finish {
                    outcome: Ok(value),
                    entries: if reach.write {
                        world.entries.insert(address, entry)
                    } else {
                        world.entries
                    },
                    resolutions: 1,
                },
            },
        },
    }
}

/// One of several retrievals under way at once: where it stands, and the action
/// that it has asked for and that is yet to be performed.
pub struct Seat<V> {
    /// Where the retrieval stands.
    pub stage: Stage<V>,
    /// The action that it waits for.
    pub action: ActionView<V>,
}

/// One move of a schedule: the retrieval at `seat` has its action performed,
/// against a store that is then `reachable` or not.
pub struct Turn {
    /// Whose action is performed.
    pub seat: int,
    /// Whether the store can be reached for it.
    pub reachable: bool,
}

/// Retrievals of one key that share a world. The store performs one operation at
/// a time, so what they do together is some sequence of turns.
#[verifier::reject_recursive_types(V)]
pub struct Fleet<V> {
    /// The world that the retrievals share.
    pub world: World<V>,
    /// The retrievals.
    pub seats: Seq<Seat<V>>,
}

impl<V> Fleet<V> {
    /// `callers` retrievals of the entry under `address`, none of them started.
    pub open spec fn opened(world: World<V>, address: Seq<char>, callers: nat) -> Fleet<V> {
        Fleet {
            world,
            seats: Seq::new(
                callers,
                |seat: int|
                    Seat { stage: opening::<V>(address).0, action: opening::<V>(address).1 },
            ),
        }
    }

    /// The fleet after `turn`. A turn for a retrieval that is over, or for a seat
    /// that is not there, changes nothing.
    pub open spec fn turn(self, address: Seq<char>, turn: Turn) -> Fleet<V> {
        if 0 <= turn.seat < self.seats.len() {
            let seat = self.seats[turn.seat];
            match self.world.respond(address, seat.stage, seat.action, turn.reachable) {
                Some((world, event)) => match next(address, seat.stage, event) {
                    Some((stage, action)) => Fleet {
                        world,
                        seats: self.seats.update(turn.seat, Seat { stage, action }),
                    },
                    None => self,
                },
                None => self,
            }
        } else {
            self
        }
    }

    /// The fleet after `turns`, taken in order.
    pub open spec fn play(self, address: Seq<char>, turns: Seq<Turn>) -> Fleet<V>
        decreases turns.len(),
    {
        if turns.len() == 0 {
            self
        } else {
            self.play(address, turns.drop_last()).turn(address, turns.last())
        }
    }

    /// What the retrieval at `seat` has returned, once it is over.
    pub open spec fn outcome(self, seat: int) -> Option<Result<V, Failure>> {
        match self.seats[seat].action {
            ActionView::Return { outcome } => Some(outcome),
            _ => None,
        }
    }
}

/// How many of `turns` are turns of `seat`.
pub open spec fn turns_of(turns: Seq<Turn>, seat: int) -> nat
    decreases turns.len(),
{
    if turns.len() == 0 {
        0
    } else if turns.last().seat == seat {
        turns_of(turns.drop_last(), seat) + 1
    } else {
        turns_of(turns.drop_last(), seat)
    }
}

} // verus!
