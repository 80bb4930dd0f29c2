//! Galaxy state model for a persistent-universe space-strategy game.
//!
//! The galaxy is an aggregate of stars, players, carriers and ship
//! garrisons, each reachable only through typed identifiers. All lookups
//! are fallible: a missing identifier is reported as a [`CommandError`],
//! never a default value. The command engine that mutates this state
//! lives in [`state_transition`].

use std::collections::HashMap;
use vstd::prelude::*;

pub mod state_transition;

verus! {

broadcast use vstd::std_specs::hash::group_hash_axioms;

/// Identifier of a star. Distinct from the other identifier types even
/// though all wrap the same primitive, so one kind of entity can never be
/// looked up with another kind's identifier.
#[derive(Debug, Copy, Clone, Hash, Eq, PartialEq, Structural)]
pub struct StarId(pub u32);

/// Identifier of a player.
#[derive(Debug, Copy, Clone, Hash, Eq, PartialEq, Structural)]
pub struct PlayerId(pub u32);

/// Identifier of a carrier.
#[derive(Debug, Copy, Clone, Hash, Eq, PartialEq, Structural)]
pub struct CarrierId(pub u32);

/// A player, with an economic accumulator and four research levels.
#[derive(Debug, Copy, Clone, Hash, Eq, PartialEq, Structural)]
pub struct Player {
    pub id: PlayerId,
    pub cash: u32,
    pub planets_owned: u16,
    pub weapons_research: u8,
    pub terraforming_research: u8,
    pub experimentation_research: u8,
    pub scanning_research: u8,
}

/// A star: always owned by exactly one player, placed at fixed galaxy
/// coordinates, with three small development counters.
#[derive(Debug, Copy, Clone, Hash, Eq, PartialEq)]
pub struct Star {
    pub id: StarId,
    pub owned_by: PlayerId,
    pub location: (i16, i16),
    pub economy: u8,
    pub infrastructure: u8,
    pub science: u8,
}

/// A value of exactly one of two alternatives.
#[derive(Debug, Copy, Clone, Hash, Eq, PartialEq, Structural)]
pub enum Either<A, B> {
    Left(A),
    Right(B),
}

/// The in-transit record of a carrier: where it left, where it is bound,
/// and how many ticks remain until arrival.
#[derive(Debug, Copy, Clone, Hash, Eq, PartialEq, Structural)]
pub struct Travel {
    pub from: StarId,
    pub to: StarId,
    pub ticks_to_reach: i16,
}

/// A garrison of un-carried ships stationed at a star.
#[derive(Debug, Copy, Clone, Hash, Eq, PartialEq, Structural)]
pub struct ShipGroup {
    pub at: StarId,
    pub owner: PlayerId,
    pub count: u32,
}

/// A player-owned mobile fleet. Its location is exactly one of two
/// states: stationed at a star (`Left`) or in transit between two stars
/// (`Right`).
#[derive(Debug, Copy, Clone, Hash, Eq, PartialEq, Structural)]
pub struct Carrier {
    pub id: CarrierId,
    pub at: Either<StarId, Travel>,
    pub owner: PlayerId,
    pub count: u32,
}

/// Every way a lookup or a command can fail. Each variant carries enough
/// context to render a user-facing message; none is fatal.
#[derive(Debug, Copy, Clone, Hash, Eq, PartialEq, Structural)]
pub enum CommandError {
    /// No star with the given identifier exists in the aggregate.
    StarNotFound(StarId),
    /// No player with the given identifier exists in the aggregate.
    PlayerNotFound(PlayerId),
    /// No carrier with the given identifier exists in the aggregate.
    CarrierNotFound(CarrierId),
    /// The issuing player does not own the carrier it tried to command.
    OwnershipViolation { carrier: CarrierId, player: PlayerId },
    /// The carrier is in transit and cannot accept a new command.
    CarrierInTransit { carrier: CarrierId },
}

/// The aggregate root: sole owner of all entity storage. Every mapping is
/// keyed by the primitive inside the corresponding identifier type; all
/// other components hold only identifiers and re-resolve them here on
/// each use.
pub struct GameState {
    pub stars: HashMap<u32, Star>,
    pub ships: Vec<ShipGroup>,
    pub carriers: HashMap<u32, Carrier>,
    pub players: HashMap<u32, Player>,
}

impl GameState {
    /// An empty galaxy: no stars, ships, carriers or players.
    pub fn new() -> (s: GameState)
        ensures
            s.stars@ == Map::<u32, Star>::empty(),
            s.carriers@ == Map::<u32, Carrier>::empty(),
            s.players@ == Map::<u32, Player>::empty(),
            s.ships@ == Seq::<ShipGroup>::empty(),
    {
        GameState {
            stars: HashMap::new(),
            ships: Vec::new(),
            carriers: HashMap::new(),
            players: HashMap::new(),
        }
    }

    /// Looks a carrier up by its identifier; fails, with no side effect,
    /// exactly when no carrier is stored under it.
    pub fn carrier(&self, id: CarrierId) -> (r: Result<&Carrier, CommandError>)
        ensures
            match r {
                Ok(c) => self.carriers@.contains_key(id.0) && *c == self.carriers@[id.0],
                Err(e) => !self.carriers@.contains_key(id.0) && e == CommandError::CarrierNotFound(
                    id,
                ),
            },
    {
        match self.carriers.get(&id.0) {
            None => Err(CommandError::CarrierNotFound(id)),
            Some(c) => Ok(c),
        }
    }

    /// Replaces the carrier stored under `id`; fails, with no side
    /// effect, exactly when no carrier is stored under it. This is the
    /// engine's sanctioned mutable access: validate against read-only
    /// lookups first, then overwrite in one step.
    pub fn carrier_mut(&mut self, id: CarrierId, c: Carrier) -> (r: Result<(), CommandError>)
        ensures
            match r {
                Ok(_) => {
                    &&& old(self).carriers@.contains_key(id.0)
                    &&& final(self).carriers@ == old(self).carriers@.insert(id.0, c)
                    &&& final(self).stars == old(self).stars
                    &&& final(self).players == old(self).players
                    &&& final(self).ships == old(self).ships
                },
                Err(e) => {
                    &&& !old(self).carriers@.contains_key(id.0)
                    &&& e == CommandError::CarrierNotFound(id)
                    &&& *final(self) == *old(self)
                },
            },
    {
        if self.carriers.contains_key(&id.0) {
            self.carriers.insert(id.0, c);
            Ok(())
        } else {
            Err(CommandError::CarrierNotFound(id))
        }
    }

    /// Looks a player up by its identifier; fails, with no side effect,
    /// exactly when no player is stored under it.
    pub fn player(&self, id: PlayerId) -> (r: Result<&Player, CommandError>)
        ensures
            match r {
                Ok(p) => self.players@.contains_key(id.0) && *p == self.players@[id.0],
                Err(e) => !self.players@.contains_key(id.0) && e == CommandError::PlayerNotFound(
                    id,
                ),
            },
    {
        match self.players.get(&id.0) {
            None => Err(CommandError::PlayerNotFound(id)),
            Some(p) => Ok(p),
        }
    }

    /// Replaces the player stored under `id`; fails, with no side
    /// effect, exactly when no player is stored under it.
    pub fn player_mut(&mut self, id: PlayerId, p: Player) -> (r: Result<(), CommandError>)
        ensures
            match r {
                Ok(_) => {
                    &&& old(self).players@.contains_key(id.0)
                    &&& final(self).players@ == old(self).players@.insert(id.0, p)
                    &&& final(self).stars == old(self).stars
                    &&& final(self).carriers == old(self).carriers
                    &&& final(self).ships == old(self).ships
                },
                Err(e) => {
                    &&& !old(self).players@.contains_key(id.0)
                    &&& e == CommandError::PlayerNotFound(id)
                    &&& *final(self) == *old(self)
                },
            },
    {
        if self.players.contains_key(&id.0) {
            self.players.insert(id.0, p);
            Ok(())
        } else {
            Err(CommandError::PlayerNotFound(id))
        }
    }

    /// Looks a star up by its identifier; fails, with no side effect,
    /// exactly when no star is stored under it.
    pub fn star(&self, id: StarId) -> (r: Result<&Star, CommandError>)
        ensures
            match r {
                Ok(s) => self.stars@.contains_key(id.0) && *s == self.stars@[id.0],
                Err(e) => !self.stars@.contains_key(id.0) && e == CommandError::StarNotFound(id),
            },
    {
        match self.stars.get(&id.0) {
            None => Err(CommandError::StarNotFound(id)),
            Some(s) => Ok(s),
        }
    }

    /// Replaces the star stored under `id`; fails, with no side effect,
    /// exactly when no star is stored under it.
    pub fn star_mut(&mut self, id: StarId, s: Star) -> (r: Result<(), CommandError>)
        ensures
            match r {
                Ok(_) => {
                    &&& old(self).stars@.contains_key(id.0)
                    &&& final(self).stars@ == old(self).stars@.insert(id.0, s)
                    &&& final(self).carriers == old(self).carriers
                    &&& final(self).players == old(self).players
                    &&& final(self).ships == old(self).ships
                },
                Err(e) => {
                    &&& !old(self).stars@.contains_key(id.0)
                    &&& e == CommandError::StarNotFound(id)
                    &&& *final(self) == *old(self)
                },
            },
    {
        if self.stars.contains_key(&id.0) {
            self.stars.insert(id.0, s);
            Ok(())
        } else {
            Err(CommandError::StarNotFound(id))
        }
    }
}

} // verus!
