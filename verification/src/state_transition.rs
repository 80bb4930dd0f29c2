//! The command engine: validates a player-issued command against the
//! current galaxy state and, if valid, applies exactly one atomic state
//! transition; otherwise it leaves the state unchanged and reports a
//! descriptive failure.

use vstd::prelude::*;

use crate::Carrier;
use crate::CarrierId;
use crate::CommandError;
use crate::Either;
use crate::GameState;
use crate::Player;
use crate::PlayerId;
use crate::Star;
use crate::StarId;
use crate::Travel;

verus! {

/// A player-issued command. Only one command is defined so far: order a
/// carrier to a destination star.
pub enum Command {
    MoveCarrier { carrier_id: CarrierId, to: StarId },
}

/// The scalar travel time between two galaxy coordinates: the absolute
/// value of the sum of the two axis differences, `|dx + dy|`. Note that
/// this is not the Manhattan distance `|dx| + |dy|`: opposite axis
/// differences cancel. The quirk is part of the game's rules — travel
/// times across the galaxy depend on it — so it is stated and
/// implemented exactly, not corrected.
pub open spec fn distance_spec(from: (i16, i16), to: (i16, i16)) -> int {
    let s = from.0 - to.0 + from.1 - to.1;
    if s < 0 {
        -s
    } else {
        s
    }
}

/// Computes [`distance_spec`] between two coordinate pairs.
pub fn distance(from: (i16, i16), to: (i16, i16)) -> (r: i16)
    requires
        distance_spec(from, to) <= i16::MAX as int,
    ensures
        r as int == distance_spec(from, to),
{
    let s: i32 = from.0 as i32 - to.0 as i32 + from.1 as i32 - to.1 as i32;
    let a: i32 = if s < 0 {
        -s
    } else {
        s
    };
    a as i16
}

/// The failure, if any, that validating `MoveCarrier { carrier_id, to }`
/// issued by `player` reports against `state`. `None` means the command
/// is valid and will be applied. The checks run in the engine's fixed
/// order: carrier, player and destination star must exist, the issuer
/// must own the carrier, the carrier must be stationed, and the star it
/// is stationed at must itself exist.
pub open spec fn move_error(
    state: GameState,
    player: PlayerId,
    carrier_id: CarrierId,
    to: StarId,
) -> Option<CommandError> {
    if !state.carriers@.contains_key(carrier_id.0) {
        Some(CommandError::CarrierNotFound(carrier_id))
    } else if !state.players@.contains_key(player.0) {
        Some(CommandError::PlayerNotFound(player))
    } else if !state.stars@.contains_key(to.0) {
        Some(CommandError::StarNotFound(to))
    } else {
        let carrier = state.carriers@[carrier_id.0];
        if carrier.owner != state.players@[player.0].id {
            Some(CommandError::OwnershipViolation { carrier: carrier.id, player })
        } else {
            match carrier.at {
                Either::Right(_) => Some(CommandError::CarrierInTransit { carrier: carrier.id }),
                Either::Left(origin) => if !state.stars@.contains_key(origin.0) {
                    Some(CommandError::StarNotFound(origin))
                } else {
                    None
                },
            }
        }
    }
}

/// The travel time of a valid `MoveCarrier { carrier_id, to }`: the
/// [`distance_spec`] between the carrier's current star and the
/// destination star.
pub open spec fn move_ticks(state: GameState, carrier_id: CarrierId, to: StarId) -> int
    recommends
        state.carriers@.contains_key(carrier_id.0),
        state.carriers@[carrier_id.0].at is Left,
{
    match state.carriers@[carrier_id.0].at {
        Either::Left(origin) => distance_spec(
            state.stars@[origin.0].location,
            state.stars@[to.0].location,
        ),
        Either::Right(t) => t.ticks_to_reach as int,
    }
}

/// The in-transit record that a valid `MoveCarrier { carrier_id, to }`
/// attaches to the carrier: from its current star to the destination,
/// taking [`move_ticks`] time units.
pub open spec fn move_travel(state: GameState, carrier_id: CarrierId, to: StarId) -> Travel
    recommends
        state.carriers@.contains_key(carrier_id.0),
        state.carriers@[carrier_id.0].at is Left,
{
    match state.carriers@[carrier_id.0].at {
        Either::Left(origin) => Travel {
            from: state.stars@[origin.0].id,
            to: state.stars@[to.0].id,
            ticks_to_reach: move_ticks(state, carrier_id, to) as i16,
        },
        Either::Right(t) => t,
    }
}

/// The machine limit on a command: a valid move's travel time must fit
/// the tick counter. Commands that fail validation are not constrained.
pub open spec fn command_fits(state: GameState, player: PlayerId, command: Command) -> bool {
    match command {
        Command::MoveCarrier { carrier_id, to } => move_error(state, player, carrier_id, to)
            is None ==> move_ticks(state, carrier_id, to) <= i16::MAX as int,
    }
}

/// Validates `command` as issued by `player` and, if it is valid,
/// applies its one transition to `state`.
///
/// Exactly one of two things happens. Either validation fails with the
/// error that [`move_error`] predicts and the whole aggregate is left
/// untouched, or the command is applied: the moved carrier's location is
/// overwritten with the [`move_travel`] record and everything else —
/// every star, every player, every garrison, every other carrier and the
/// moved carrier's own identity, owner and ship count — stays as it was.
pub fn transition(state: &mut GameState, player: PlayerId, command: Command) -> (r: Result<
    (),
    CommandError,
>)
    requires
        command_fits(*old(state), player, command),
    ensures
        match command {
            Command::MoveCarrier { carrier_id, to } => match move_error(
                *old(state),
                player,
                carrier_id,
                to,
            ) {
                Some(e) => r == Err::<(), CommandError>(e) && *final(state) == *old(state),
                None => {
                    &&& r == Ok::<(), CommandError>(())
                    &&& final(state).carriers@ == old(state).carriers@.insert(
                        carrier_id.0,
                        (Carrier {
                            at: Either::Right(move_travel(*old(state), carrier_id, to)),
                            ..old(state).carriers@[carrier_id.0]
                        }),
                    )
                    &&& final(state).stars == old(state).stars
                    &&& final(state).players == old(state).players
                    &&& final(state).ships == old(state).ships
                },
            },
        },
{
    match command {
        Command::MoveCarrier { carrier_id, to } => {
            // Read phase: gather everything through immutable lookups and
            // validate before any mutation is attempted.
            let carrier: Carrier = match state.carrier(carrier_id) {
                Ok(c) => *c,
                Err(e) => {
                    return Err(e);
                },
            };
            let owner: Player = match state.player(player) {
                Ok(p) => *p,
                Err(e) => {
                    return Err(e);
                },
            };
            let destination: Star = match state.star(to) {
                Ok(s) => *s,
                Err(e) => {
                    return Err(e);
                },
            };
            if carrier.owner != owner.id {
                return Err(CommandError::OwnershipViolation { carrier: carrier.id, player });
            }
            let origin: StarId = match carrier.at {
                Either::Left(star) => star,
                Either::Right(_) => {
                    return Err(CommandError::CarrierInTransit { carrier: carrier.id });
                },
            };
            let carrier_star: Star = match state.star(origin) {
                Ok(s) => *s,
                Err(e) => {
                    return Err(e);
                },
            };
            let ticks_to_reach: i16 = distance(carrier_star.location, destination.location);
            // Write phase: exactly one mutation, overwriting the
            // carrier's location state.
            let moved = Carrier {
                at: Either::Right(
                    Travel { from: carrier_star.id, to: destination.id, ticks_to_reach },
                ),
                ..carrier
            };
            match state.carrier_mut(carrier_id, moved) {
                Ok(_) => Ok(()),
                Err(_) => vstd::pervasive::unreached(),
            }
        },
    }
}

/// State-machine legality: a carrier's location satisfies exactly one of
/// "stationed" and "in transit" — never both, never neither.
pub proof fn lemma_carrier_single_location(c: Carrier)
    ensures
        (c.at is Left) <==> !(c.at is Right),
{
}

/// Ownership enforcement: for every combination of an existing carrier,
/// an existing issuing player and an existing destination star, a move
/// issued by a player the carrier does not belong to fails with the
/// ownership violation naming that carrier and that player — and by
/// [`transition`]'s contract a failed command leaves the aggregate
/// untouched.
pub proof fn lemma_ownership_enforced(
    state: GameState,
    player: PlayerId,
    carrier_id: CarrierId,
    to: StarId,
)
    requires
        state.carriers@.contains_key(carrier_id.0),
        state.players@.contains_key(player.0),
        state.stars@.contains_key(to.0),
        state.carriers@[carrier_id.0].owner != state.players@[player.0].id,
    ensures
        move_error(state, player, carrier_id, to) == Some(
            CommandError::OwnershipViolation {
                carrier: state.carriers@[carrier_id.0].id,
                player,
            },
        ),
{
}

/// In-transit lock: once a carrier is in transit, any further move
/// command for it that gets as far as the state check — the carrier,
/// issuer and destination resolve, and the issuer owns the carrier —
/// fails with the in-transit error, whatever the destination. (A command
/// that fails an earlier check keeps that earlier error: a missing
/// destination, for instance, is reported as a missing star.)
pub proof fn lemma_in_transit_locked(
    state: GameState,
    player: PlayerId,
    carrier_id: CarrierId,
    to: StarId,
)
    requires
        state.carriers@.contains_key(carrier_id.0),
        state.players@.contains_key(player.0),
        state.stars@.contains_key(to.0),
        state.carriers@[carrier_id.0].owner == state.players@[player.0].id,
        state.carriers@[carrier_id.0].at is Right,
    ensures
        move_error(state, player, carrier_id, to) == Some(
            CommandError::CarrierInTransit { carrier: state.carriers@[carrier_id.0].id },
        ),
{
}

} // verus!

