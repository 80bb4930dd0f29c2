use std::collections::HashMap;

use trident::state_transition::distance;
use trident::state_transition::transition;
use trident::state_transition::Command;
use trident::Carrier;
use trident::CarrierId;
use trident::CommandError;
use trident::Either;
use trident::GameState;
use trident::Player;
use trident::PlayerId;
use trident::ShipGroup;
use trident::Star;
use trident::StarId;
use trident::Travel;

fn star(id: u32, owner: u32, location: (i16, i16)) -> Star {
    Star {
        id: StarId(id),
        owned_by: PlayerId(owner),
        location,
        economy: 0,
        infrastructure: 0,
        science: 0,
    }
}

fn player(id: u32) -> Player {
    Player {
        id: PlayerId(id),
        cash: 0,
        planets_owned: 0,
        weapons_research: 0,
        terraforming_research: 0,
        experimentation_research: 0,
        scanning_research: 0,
    }
}

fn carrier(id: u32, owner: u32, at_star: u32, count: u32) -> Carrier {
    Carrier {
        id: CarrierId(id),
        at: Either::Left(StarId(at_star)),
        owner: PlayerId(owner),
        count,
    }
}

/// Two stars, two players, one carrier owned by player 0 stationed at
/// star 0.
fn two_star_galaxy() -> GameState {
    let mut state = GameState::new();
    state.stars.insert(0, star(0, 0, (0, 0)));
    state.stars.insert(1, star(1, 1, (10, 0)));
    state.players.insert(0, player(0));
    state.players.insert(1, player(1));
    state.carriers.insert(0, carrier(0, 0, 0, 5));
    state
}

fn move_carrier(carrier_id: u32, to: u32) -> Command {
    Command::MoveCarrier {
        carrier_id: CarrierId(carrier_id),
        to: StarId(to),
    }
}

#[test]
fn new_galaxy_is_empty() {
    let state = GameState::new();
    assert!(state.stars.is_empty());
    assert!(state.carriers.is_empty());
    assert!(state.players.is_empty());
    assert!(state.ships.is_empty());
}

#[test]
fn distance_sum_of_differences() {
    assert_eq!(distance((0, 0), (3, 4)), 7);
    assert_eq!(distance((5, 5), (2, 1)), 7);
    assert_eq!(distance((0, 0), (0, 0)), 0);
}

#[test]
fn distance_is_not_manhattan() {
    // Opposite axis differences cancel under the |dx + dy| formula.
    assert_eq!(distance((0, 0), (3, -3)), 0);
    assert_eq!(distance((2, 1), (5, 5)), 7);
    assert_eq!(distance((-4, 0), (4, 1)), 9);
}

#[test]
fn lookup_missing_ids_always_not_found() {
    let state = two_star_galaxy();
    assert_eq!(state.star(StarId(99)), Err(CommandError::StarNotFound(StarId(99))));
    assert_eq!(state.player(PlayerId(99)), Err(CommandError::PlayerNotFound(PlayerId(99))));
    assert_eq!(
        state.carrier(CarrierId(99)),
        Err(CommandError::CarrierNotFound(CarrierId(99)))
    );
}

#[test]
fn lookup_present_ids_return_the_entity() {
    let state = two_star_galaxy();
    assert_eq!(state.star(StarId(1)), Ok(&star(1, 1, (10, 0))));
    assert_eq!(state.player(PlayerId(1)), Ok(&player(1)));
    assert_eq!(state.carrier(CarrierId(0)), Ok(&carrier(0, 0, 0, 5)));
}

#[test]
fn updates_replace_only_the_named_entity() {
    let mut state = two_star_galaxy();
    assert_eq!(state.star_mut(StarId(0), star(0, 1, (2, 3))), Ok(()));
    assert_eq!(state.star(StarId(0)), Ok(&star(0, 1, (2, 3))));
    assert_eq!(state.star(StarId(1)), Ok(&star(1, 1, (10, 0))));
    assert_eq!(state.player_mut(PlayerId(1), player(7)), Ok(()));
    assert_eq!(state.player(PlayerId(1)), Ok(&player(7)));
    assert_eq!(state.carrier_mut(CarrierId(0), carrier(0, 1, 1, 9)), Ok(()));
    assert_eq!(state.carrier(CarrierId(0)), Ok(&carrier(0, 1, 1, 9)));
}

#[test]
fn updates_of_missing_ids_fail_and_change_nothing() {
    let mut state = two_star_galaxy();
    let stars = state.stars.clone();
    let players = state.players.clone();
    let carriers = state.carriers.clone();
    assert_eq!(
        state.star_mut(StarId(9), star(9, 0, (0, 0))),
        Err(CommandError::StarNotFound(StarId(9)))
    );
    assert_eq!(
        state.player_mut(PlayerId(9), player(9)),
        Err(CommandError::PlayerNotFound(PlayerId(9)))
    );
    assert_eq!(
        state.carrier_mut(CarrierId(9), carrier(9, 0, 0, 1)),
        Err(CommandError::CarrierNotFound(CarrierId(9)))
    );
    assert_eq!(state.stars, stars);
    assert_eq!(state.players, players);
    assert_eq!(state.carriers, carriers);
}

#[test]
fn move_carrier_end_to_end() {
    let mut state = two_star_galaxy();
    let r = transition(&mut state, PlayerId(0), move_carrier(0, 1));
    assert_eq!(r, Ok(()));
    let moved = state.carrier(CarrierId(0)).unwrap();
    assert_eq!(
        moved.at,
        Either::Right(Travel {
            from: StarId(0),
            to: StarId(1),
            ticks_to_reach: 10,
        })
    );
    assert_eq!(moved.id, CarrierId(0));
    assert_eq!(moved.owner, PlayerId(0));
    assert_eq!(moved.count, 5);
}

#[test]
fn move_by_non_owner_fails_and_changes_nothing() {
    let mut state = two_star_galaxy();
    let stars = state.stars.clone();
    let players = state.players.clone();
    let carriers = state.carriers.clone();
    let ships = state.ships.clone();
    let r = transition(&mut state, PlayerId(1), move_carrier(0, 1));
    assert_eq!(
        r,
        Err(CommandError::OwnershipViolation {
            carrier: CarrierId(0),
            player: PlayerId(1),
        })
    );
    assert_eq!(state.stars, stars);
    assert_eq!(state.players, players);
    assert_eq!(state.carriers, carriers);
    assert_eq!(state.ships, ships);
    assert_eq!(state.carrier(CarrierId(0)).unwrap().at, Either::Left(StarId(0)));
}

#[test]
fn carrier_in_transit_cannot_be_redirected() {
    let mut state = two_star_galaxy();
    assert_eq!(transition(&mut state, PlayerId(0), move_carrier(0, 1)), Ok(()));
    let in_transit = *state.carrier(CarrierId(0)).unwrap();
    let r = transition(&mut state, PlayerId(0), move_carrier(0, 0));
    assert_eq!(r, Err(CommandError::CarrierInTransit { carrier: CarrierId(0) }));
    assert_eq!(state.carrier(CarrierId(0)).unwrap(), &in_transit);
}

#[test]
fn move_of_missing_carrier_fails() {
    let mut state = two_star_galaxy();
    let r = transition(&mut state, PlayerId(0), move_carrier(3, 1));
    assert_eq!(r, Err(CommandError::CarrierNotFound(CarrierId(3))));
}

#[test]
fn move_by_missing_player_fails() {
    let mut state = two_star_galaxy();
    let r = transition(&mut state, PlayerId(5), move_carrier(0, 1));
    assert_eq!(r, Err(CommandError::PlayerNotFound(PlayerId(5))));
}

#[test]
fn move_to_missing_star_fails() {
    let mut state = two_star_galaxy();
    let carriers = state.carriers.clone();
    let r = transition(&mut state, PlayerId(0), move_carrier(0, 7));
    assert_eq!(r, Err(CommandError::StarNotFound(StarId(7))));
    assert_eq!(state.carriers, carriers);
}

#[test]
fn garrisons_are_untouched_by_moves() {
    let mut state = two_star_galaxy();
    state.ships.push(ShipGroup {
        at: StarId(0),
        owner: PlayerId(0),
        count: 12,
    });
    assert_eq!(transition(&mut state, PlayerId(0), move_carrier(0, 1)), Ok(()));
    assert_eq!(state.ships.len(), 1);
    assert_eq!(
        state.ships[0],
        ShipGroup {
            at: StarId(0),
            owner: PlayerId(0),
            count: 12,
        }
    );
}

#[test]
fn travel_uses_stored_star_identities() {
    // The travel record copies the identity fields of the stars it
    // resolved, not the keys they were filed under.
    let mut state = GameState::new();
    state.stars.insert(0, star(40, 0, (0, 0)));
    state.stars.insert(1, star(41, 1, (-3, 8)));
    state.players.insert(2, player(2));
    let mut c = carrier(6, 2, 0, 1);
    c.at = Either::Left(StarId(0));
    state.carriers.insert(6, c);
    assert_eq!(transition(&mut state, PlayerId(2), move_carrier(6, 1)), Ok(()));
    assert_eq!(
        state.carrier(CarrierId(6)).unwrap().at,
        Either::Right(Travel {
            from: StarId(40),
            to: StarId(41),
            ticks_to_reach: 5,
        })
    );
}
