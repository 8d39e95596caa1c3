//! What retrievals achieve, proved of the protocol in the modelled world.
use crate::cache::protocol::{rank, ActionView, Stage};
use crate::cache::world::{
    drive, hit, retrieved, run, turns_of, Finish, Fleet, Reach, Seat, Turn, World,
};
use crate::error::Failure;
use vstd::prelude::*;

verus! {

/// A retrieval runs to its end, and ends as [`retrieved`] says.
pub proof fn run_ends_as_retrieved<V>(world: World<V>, address: Seq<char>, reach: Reach)
    ensures
        run(world, address, reach) == Some(retrieved(world, address, reach)),
{
    reveal_with_fuel(drive, 6);
}

/// Cache-aside: a retrieval of a key that the store does not hold returns what
/// the resolver answers, and consults the resolver once. Where that is a value
/// and the write reaches the store, the store then holds the value's encoding
/// under the address. The retrieval after it returns the same; where it can read
/// what the first one wrote, it leaves the resolver alone.
///
/// Values that do not survive encoding and decoding are left out: one without an
/// encoding ends the first retrieval in an encoding failure, and one that
/// decodes to something else is returned as that by the second.
pub proof fn miss_populates_then_hits<V>(
    world: World<V>,
    address: Seq<char>,
    reach: Reach,
    later: Reach,
)
    requires
        world.entry(address) is None,
        (world.resolver)(address) matches Ok(value) ==> world.round_trips(value),
    ensures
        ({
            let first = retrieved(world, address, reach);
            let second = retrieved(world.holding(first.entries), address, later);
            &&& run(world, address, reach) == Some(first)
            &&& run(world.holding(first.entries), address, later) == Some(second)
            &&& first.outcome == (world.resolver)(address)
            &&& first.resolutions == 1
            &&& second.outcome == (world.resolver)(address)
            &&& match (world.resolver)(address) {
                Ok(value) if reach.write => {
                    &&& (world.encode)(value) matches Ok(entry) && first.entries
                        == world.entries.insert(address, entry)
                    &&& second.entries == first.entries
                    &&& later.lookup ==> second.resolutions == 0
                },
                _ => first.entries == world.entries,
            }
        }),
{
    let first = retrieved(world, address, reach);
    run_ends_as_retrieved(world, address, reach);
    run_ends_as_retrieved(world.holding(first.entries), address, later);
}

/// Resilience: where the store cannot be reached at all, a retrieval ends with
/// what the resolver answers, value or failure, and the store is as before.
///
/// A value without an encoding is left out: it ends the retrieval in an encoding
/// failure, whatever the store does.
pub proof fn unreachable_store_is_survived<V>(world: World<V>, address: Seq<char>)
    requires
        (world.resolver)(address) matches Ok(value) ==> (world.encode)(value) is Ok,
    ensures
        run(world, address, Reach { lookup: false, write: false }) == Some(
            Finish {
                outcome: (world.resolver)(address),
                entries: world.entries,
                resolutions: 1,
            },
        ),
{
    run_ends_as_retrieved(world, address, Reach { lookup: false, write: false });
}

/// Write-failure isolation: where the resolver has answered a value and the
/// value's encoding cannot be written, the retrieval returns the value all the
/// same, and the store is as before.
pub proof fn failed_write_is_survived<V>(
    world: World<V>,
    address: Seq<char>,
    lookup: bool,
    value: V,
)
    requires
        hit(world, address, Reach { lookup, write: false }) is None,
        (world.resolver)(address) == Ok::<V, Failure>(value),
        (world.encode)(value) is Ok,
    ensures
        run(world, address, Reach { lookup, write: false }) == Some(
            Finish { outcome: Ok(value), entries: world.entries, resolutions: 1 },
        ),
{
    run_ends_as_retrieved(world, address, Reach { lookup, write: false });
}

/// No fault of the store reaches the caller: a retrieval fails only with the
/// failure that the resolver answered, or with an encoding failure where the
/// resolved value has no encoding.
pub proof fn store_faults_are_absorbed<V>(world: World<V>, address: Seq<char>, reach: Reach)
    ensures
        match run(world, address, reach) {
            Some(finish) => match finish.outcome {
                Ok(_) => true,
                Err(error) => match (world.resolver)(address) {
                    Err(cause) => error == cause,
                    Ok(value) => (world.encode)(value) matches Err(cause) && error
                        == (Failure::EncodingFailed { cause }),
                },
            },
            None => false,
        },
{
    run_ends_as_retrieved(world, address, reach);
}

/// A retrieval touches no entry but that of its own address, and deletes none:
/// what the store held under an address, it holds afterwards or has had
/// overwritten.
pub proof fn entries_are_kept<V>(
    world: World<V>,
    address: Seq<char>,
    reach: Reach,
    other: Seq<char>,
)
    ensures
        run(world, address, reach) matches Some(finish) && {
            &&& other != address ==> world.holding(finish.entries).entry(other) == world.entry(
                other,
            )
            &&& world.entry(other) is Some ==> world.holding(finish.entries).entry(other) is Some
        },
{
    run_ends_as_retrieved(world, address, reach);
}

/// What the retrieval at a seat can hold while a fleet retrieves the key with
/// `address` in a world that started as `world`.
spec fn seat_agrees<V>(seat: Seat<V>, world: World<V>, address: Seq<char>) -> bool {
    match (seat.stage, seat.action) {
        (Stage::Lookup, ActionView::Lookup { address: asked }) => asked == address,
        (Stage::Decode, ActionView::Decode { entry }) => store_agrees(Some(entry), world, address),
        (Stage::Resolve, ActionView::Resolve) => true,
        (Stage::Encode { value }, ActionView::Encode) => (world.resolver)(address) == Ok::<
            V,
            Failure,
        >(value),
        (Stage::WriteThrough { value }, ActionView::Store { address: asked, entry }) => {
            &&& (world.resolver)(address) == Ok::<V, Failure>(value)
            &&& (world.encode)(value) == Ok::<Seq<u8>, Seq<char>>(entry)
            &&& asked == address
        },
        (Stage::Done, ActionView::Return { outcome }) => outcome == (world.resolver)(address),
        _ => false,
    }
}

/// What the store can hold under `address` meanwhile: nothing, or the encoding of
/// the value that the resolver answers.
spec fn store_agrees<V>(held: Option<Seq<u8>>, world: World<V>, address: Seq<char>) -> bool {
    held matches Some(entry) ==> match (world.resolver)(address) {
        Ok(value) => (world.encode)(value) == Ok::<Seq<u8>, Seq<char>>(entry),
        Err(_) => false,
    }
}

/// What holds of a fleet at every moment: the store and each seat hold what they
/// can, and each retrieval is as far along as the turns it has had.
spec fn fleet_agrees<V>(
    fleet: Fleet<V>,
    world: World<V>,
    address: Seq<char>,
    callers: nat,
    turns: Seq<Turn>,
) -> bool {
    &&& fleet.seats.len() == callers
    &&& fleet.world.resolver == world.resolver
    &&& fleet.world.encode == world.encode
    &&& fleet.world.decode == world.decode
    &&& store_agrees(fleet.world.entry(address), world, address)
    &&& forall|other: Seq<char>|
        other != address ==> #[trigger] fleet.world.entry(other) == world.entry(other)
    &&& forall|seat: int|
        0 <= seat < callers ==> {
            &&& seat_agrees(#[trigger] fleet.seats[seat], world, address)
            &&& rank(fleet.seats[seat].stage) >= turns_of(turns, seat)
                || fleet.seats[seat].stage is Done
        }
}

proof fn play_keeps_agreement<V>(
    world: World<V>,
    address: Seq<char>,
    callers: nat,
    turns: Seq<Turn>,
)
    requires
        world.entry(address) is None,
        (world.resolver)(address) matches Ok(value) ==> world.round_trips(value),
    ensures
        fleet_agrees(
            Fleet::opened(world, address, callers).play(address, turns),
            world,
            address,
            callers,
            turns,
        ),
    decreases turns.len(),
{
    if turns.len() > 0 {
        let before = Fleet::opened(world, address, callers).play(address, turns.drop_last());
        let after = before.turn(address, turns.last());
        play_keeps_agreement(world, address, callers, turns.drop_last());
        assert forall|seat: int| 0 <= seat < callers implies {
            &&& seat_agrees(#[trigger] after.seats[seat], world, address)
            &&& rank(after.seats[seat].stage) >= turns_of(turns, seat)
                || after.seats[seat].stage is Done
        } by {
            assert(seat_agrees(before.seats[seat], world, address));
        }
        assert forall|other: Seq<char>| other != address implies #[trigger] after.world.entry(
            other,
        ) == world.entry(other) by {
            assert(before.world.entry(other) == world.entry(other));
            if 0 <= turns.last().seat < callers {
                assert(seat_agrees(before.seats[turns.last().seat], world, address));
            }
        }
    }
}

/// Concurrent retrievals: any number of retrievals of one key that the store
/// does not hold, their actions interleaved in any order and the store failing
/// whenever it likes, each return what the resolver answers, at the latest with
/// their fifth turn. They leave in the store, under the address, nothing or the
/// encoding of the resolved value, and every other entry as it was. A retrieval
/// that follows them returns what they returned, and leaves the resolver alone
/// where it finds their entry. A retrieval that is abandoned midway has no more
/// turns, and does the others no harm.
///
/// Values that do not survive encoding and decoding are left out, as in
/// [`miss_populates_then_hits`].
pub proof fn concurrent_retrievals_agree<V>(
    world: World<V>,
    address: Seq<char>,
    callers: nat,
    turns: Seq<Turn>,
    later: Reach,
)
    requires
        world.entry(address) is None,
        (world.resolver)(address) matches Ok(value) ==> world.round_trips(value),
    ensures
        ({
            let end = Fleet::opened(world, address, callers).play(address, turns);
            &&& end.seats.len() == callers
            &&& forall|seat: int|
                0 <= seat < callers ==> {
                    &&& turns_of(turns, seat) >= 5 ==> #[trigger] end.outcome(seat) is Some
                    &&& end.outcome(seat) is Some ==> end.outcome(seat) == Some(
                        (world.resolver)(address),
                    )
                }
            &&& end.world.entry(address) matches Some(entry) ==> {
                &&& (world.resolver)(address) matches Ok(value)
                &&& (world.encode)(value) == Ok::<Seq<u8>, Seq<char>>(entry)
            }
            &&& forall|other: Seq<char>|
                other != address ==> #[trigger] end.world.entry(other) == world.entry(other)
            &&& run(end.world, address, later) matches Some(finish) && {
                &&& finish.outcome == (world.resolver)(address)
                &&& end.world.entry(address) is Some && later.lookup ==> finish.resolutions == 0
            }
        }),
{
    let end = Fleet::opened(world, address, callers).play(address, turns);
    play_keeps_agreement(world, address, callers, turns);
    run_ends_as_retrieved(end.world, address, later);
    assert forall|seat: int| 0 <= seat < callers implies {
        &&& turns_of(turns, seat) >= 5 ==> #[trigger] end.outcome(seat) is Some
        &&& end.outcome(seat) is Some ==> end.outcome(seat) == Some((world.resolver)(address))
    } by {
        assert(seat_agrees(end.seats[seat], world, address));
    }
}

} // verus!
