//! What holds of the rules of a session, whatever the replicas do.

use crate::game_events::EventModel;
use crate::game_state::{spec_advance_cursor, GameModel, PlayerPing};
use crate::identity::Id;
use crate::location::Location;
use crate::powerups::PowerUpType;
use crate::random::{spec_shared_pick, spec_shared_roll};
use crate::settings::SettingsModel;
use crate::time::Timestamp;
use crate::transport::MessageModel;
use vstd::prelude::*;

verus! {

/// The messages that carry the final histories `reports`, in order.
pub open spec fn spec_reports(reports: Seq<(Id, Seq<(Timestamp, Location)>)>) -> Seq<
    MessageModel,
> {
    Seq::new(
        reports.len(),
        |i: int| MessageModel::Game(EventModel::PostGameSync(reports[i].0, reports[i].1)),
    )
}

/// Marking a caught player caught again changes nothing: the state stays as
/// it is, the event asks for no broadcast, and nobody's role changes.
/// Marking twice in a row is the same as marking once.
pub proof fn lemma_mark_caught_idempotent(state: GameModel, player: Id, now: Timestamp)
    ensures
        state.get_caught(player) == Some(true) ==> state.mark_caught(player) == state,
        state.mark_caught(player).mark_caught(player) == state.mark_caught(player),
        state.consume_event(EventModel::PlayerCaught(player), now).1 is None,
        state.get_caught(player) == Some(true) ==> state.consume_event(
            EventModel::PlayerCaught(player),
            now,
        ).0.caught_state == state.caught_state,
        state.mark_caught(player).get_caught(player) == if state.caught_state.contains_key(
            player,
        ) {
            Some(true)
        } else {
            None
        },
{
    if state.get_caught(player) == Some(true) {
        assert(state.caught_state.insert(player, true) =~= state.caught_state);
    }
    if state.caught_state.contains_key(player) {
        assert(state.caught_state.insert(player, true).insert(player, true)
            =~= state.caught_state.insert(player, true));
    }
}

/// Replicas that start from the same seed hold the same cursor and the same
/// step, whoever they belong to and whenever they start.
pub proof fn lemma_cursor_starts_equal(
    settings: SettingsModel,
    first: Id,
    second: Id,
    first_caught: Map<Id, bool>,
    second_caught: Map<Id, bool>,
    first_now: Timestamp,
    second_now: Timestamp,
)
    ensures
        GameModel::new(settings, first, first_caught, first_now).shared_random_state
            == GameModel::new(settings, second, second_caught, second_now).shared_random_state,
        GameModel::new(settings, first, first_caught, first_now).shared_random_increment
            == GameModel::new(settings, second, second_caught, second_now).shared_random_increment,
{
}

/// No event moves the cursor or changes the settings.
pub proof fn lemma_events_keep_cursor(state: GameModel, event: EventModel, now: Timestamp)
    ensures
        state.consume_event(event, now).0.shared_random_state == state.shared_random_state,
        state.consume_event(event, now).0.shared_random_increment
            == state.shared_random_increment,
        state.consume_event(event, now).0.settings == state.settings,
{
}

/// Whether a tick at `now` makes a shared roll for a power-up.
pub open spec fn spec_tick_rolls(
    state: GameModel,
    now: Timestamp,
    location: Option<Location>,
    seeker: Option<Id>,
) -> bool {
    let pinged = state.before_ping(now, location).ping_step(now, seeker).0;
    let started = if !pinged.powerups_started() && pinged.should_start_powerups(now) {
        pinged.start_powerups(now)
    } else {
        pinged
    };
    !state.all_caught() && !state.game_ended() && started.should_spawn_powerup(now)
}

/// A tick moves the cursor by exactly one step where it makes a roll, and
/// not at all where it makes none.
pub proof fn lemma_tick_moves_cursor_by_roll(
    state: GameModel,
    now: Timestamp,
    location: Option<Location>,
    seeker: Option<Id>,
)
    ensures
        state.tick(now, location, seeker).state.shared_random_increment
            == state.shared_random_increment,
        state.tick(now, location, seeker).state.settings == state.settings,
        state.tick(now, location, seeker).state.shared_random_state == if spec_tick_rolls(
            state,
            now,
            location,
            seeker,
        ) {
            spec_advance_cursor(state.shared_random_state, state.shared_random_increment)
        } else {
            state.shared_random_state
        },
{
}

/// Spawn agreement. Two replicas with the same settings, the same cursor
/// and the same power-up on the map that roll at the same instant decide
/// alike whether a power-up spawns, place it alike where it does, and hold
/// the same cursor afterwards.
pub proof fn lemma_spawn_agreement(first: GameModel, second: GameModel, now: Timestamp)
    requires
        first.settings == second.settings,
        first.shared_random_state == second.shared_random_state,
        first.shared_random_increment == second.shared_random_increment,
        first.available_powerup == second.available_powerup,
    ensures
        first.try_spawn_powerup(now).available_powerup == second.try_spawn_powerup(
            now,
        ).available_powerup,
        first.try_spawn_powerup(now).shared_random_state == second.try_spawn_powerup(
            now,
        ).shared_random_state,
        first.try_spawn_powerup(now).shared_random_increment == second.try_spawn_powerup(
            now,
        ).shared_random_increment,
        spec_shared_roll(first.shared_random_state, first.settings.powerup_chance)
            ==> first.try_spawn_powerup(now).last_powerup_spawn == Some(now)
            && second.try_spawn_powerup(now).last_powerup_spawn == Some(now),
        spec_shared_roll(first.shared_random_state, first.settings.powerup_chance)
            && first.settings.powerup_locations.len() > 0 ==> first.try_spawn_powerup(
            now,
        ).available_powerup == Some(
            first.settings.powerup_locations[spec_shared_pick(
                first.shared_random_state,
                first.settings.powerup_chance,
                first.settings.powerup_locations.len() as usize,
            ) as int],
        ),
        !spec_shared_roll(first.shared_random_state, first.settings.powerup_chance) ==> {
            &&& first.try_spawn_powerup(now).available_powerup == first.available_powerup
            &&& first.try_spawn_powerup(now).last_powerup_spawn == first.last_powerup_spawn
            &&& second.try_spawn_powerup(now).last_powerup_spawn == second.last_powerup_spawn
        },
{
}

/// The state after one shared roll at each of the instants `nows`, in
/// order.
pub open spec fn spec_after_rolls(state: GameModel, nows: Seq<Timestamp>) -> GameModel
    decreases nows.len(),
{
    if nows.len() == 0 {
        state
    } else {
        spec_after_rolls(state, nows.drop_last()).try_spawn_powerup(nows.last())
    }
}

/// Replicas that start from the same settings and have made the same rolls
/// stand alike: after any number of rolls they hold the same cursor, the
/// same power-up on the map, and the same time of the last spawn.
pub proof fn lemma_replicas_roll_alike(first: GameModel, second: GameModel, nows: Seq<Timestamp>)
    requires
        first.settings == second.settings,
        first.shared_random_state == second.shared_random_state,
        first.shared_random_increment == second.shared_random_increment,
        first.available_powerup == second.available_powerup,
        first.last_powerup_spawn == second.last_powerup_spawn,
    ensures
        spec_after_rolls(first, nows).settings == spec_after_rolls(second, nows).settings,
        spec_after_rolls(first, nows).shared_random_state == spec_after_rolls(
            second,
            nows,
        ).shared_random_state,
        spec_after_rolls(first, nows).shared_random_increment == spec_after_rolls(
            second,
            nows,
        ).shared_random_increment,
        spec_after_rolls(first, nows).available_powerup == spec_after_rolls(
            second,
            nows,
        ).available_powerup,
        spec_after_rolls(first, nows).last_powerup_spawn == spec_after_rolls(
            second,
            nows,
        ).last_powerup_spawn,
    decreases nows.len(),
{
    if nows.len() > 0 {
        lemma_replicas_roll_alike(first, second, nows.drop_last());
    }
}

/// Reveal disguise. A hider that holds the disguise power-up and is due for
/// a reveal spends the power-up and asks the picked seeker to reveal itself
/// under the hider's name. The seeker that consumes the request, and knows
/// where it is, broadcasts a reveal which displays the hider and really is
/// the seeker, at the seeker's latest location. Whoever consumes that
/// reveal shows it under the hider's name.
pub proof fn lemma_reveal_disguise(
    hider: GameModel,
    seeker: GameModel,
    observer: GameModel,
    location: Option<Location>,
    hider_now: Timestamp,
    seeker_now: Timestamp,
    observer_now: Timestamp,
)
    requires
        !hider.all_caught(),
        !hider.game_ended(),
        hider.held_powerup == Some(PowerUpType::PingSeeker),
        hider.before_ping(hider_now, location).should_ping(hider_now),
        seeker.get_loc() is Some,
    ensures
        hider.tick(hider_now, location, Some(seeker.id)).events == seq![
            EventModel::ForcePing(seeker.id, Some(hider.id)),
        ],
        hider.tick(hider_now, location, Some(seeker.id)).state.held_powerup is None,
        hider.tick(hider_now, location, Some(seeker.id)).state.last_global_ping == Some(
            hider_now,
        ),
        ({
            let reveal = PlayerPing {
                loc: seeker.get_loc()->0,
                timestamp: seeker_now,
                display_player: hider.id,
                real_player: seeker.id,
            };
            let request = EventModel::ForcePing(seeker.id, Some(hider.id));
            &&& seeker.consume_event(request, seeker_now).1 == Some(EventModel::Ping(reveal))
            &&& seeker.consume_event(request, seeker_now).0.pings.contains_key(hider.id)
            &&& seeker.consume_event(request, seeker_now).0.pings[hider.id] == reveal
            &&& observer.consume_event(EventModel::Ping(reveal), observer_now).0.pings[hider.id]
                == reveal
        }),
{
    let before = hider.before_ping(hider_now, location);
    assert(before.held_powerup == hider.held_powerup);
    assert(before.id == hider.id);
    let pinged = before.ping_step(hider_now, Some(seeker.id));
    assert(pinged.0.after_ping(hider_now).held_powerup == pinged.0.held_powerup);
    assert(pinged.0.after_ping(hider_now).last_global_ping == pinged.0.last_global_ping);
}

/// What consuming a run of final histories leaves of a session that has
/// ended: it stays ended as it was, nobody's role changes, every history
/// that had arrived is still there, and so is every one of the run.
proof fn lemma_reports_arrive(
    state: GameModel,
    reports: Seq<(Id, Seq<(Timestamp, Location)>)>,
    now: Timestamp,
)
    requires
        state.game_ended(),
    ensures
        state.consume_batch(spec_reports(reports), now).verdict is Continue,
        state.consume_batch(spec_reports(reports), now).broadcasts == Seq::<EventModel>::empty(),
        state.consume_batch(spec_reports(reports), now).state.game_ended == state.game_ended,
        state.consume_batch(spec_reports(reports), now).state.caught_state == state.caught_state,
        state.consume_batch(spec_reports(reports), now).state.id == state.id,
        forall|player: Id|
            #![trigger state.consume_batch(spec_reports(reports), now).state.player_histories.contains_key(player)]
            state.consume_batch(spec_reports(reports), now).state.player_histories.contains_key(
                player,
            ) <==> (state.player_histories.contains_key(player) || exists|i: int|
                0 <= i < reports.len() && (#[trigger] reports[i]).0 == player),
        forall|player: Id|
            #![trigger state.consume_batch(spec_reports(reports), now).state.player_histories[player]]
            state.player_histories.contains_key(player) && state.player_histories[player] is Some
                ==> state.consume_batch(
                spec_reports(reports),
                now,
            ).state.player_histories[player] is Some,
        forall|i: int|
            0 <= i < reports.len() ==> state.consume_batch(
                spec_reports(reports),
                now,
            ).state.player_histories[(#[trigger] reports[i]).0] is Some,
    decreases reports.len(),
{
    let messages = spec_reports(reports);
    if reports.len() > 0 {
        let first = state.consume_message(messages[0], now);
        let rest = reports.drop_first();
        assert(messages.drop_first() =~= spec_reports(rest));
        lemma_reports_arrive(first.state, rest, now);
        let end = first.state.consume_batch(spec_reports(rest), now).state;
        assert(state.consume_batch(messages, now).state == end);
        assert(state.consume_batch(messages, now).broadcasts =~= Seq::<EventModel>::empty());
        assert forall|player: Id|
            end.player_histories.contains_key(player) <==> (state.player_histories.contains_key(
                player,
            ) || exists|i: int| 0 <= i < reports.len() && (#[trigger] reports[i]).0 == player) by {
            if end.player_histories.contains_key(player) {
                if !first.state.player_histories.contains_key(player) {
                    let i = choose|i: int| 0 <= i < rest.len() && (#[trigger] rest[i]).0 == player;
                    assert(reports[i + 1].0 == player);
                } else if !state.player_histories.contains_key(player) {
                    assert(reports[0].0 == player);
                }
            }
            if exists|i: int| 0 <= i < reports.len() && (#[trigger] reports[i]).0 == player {
                let i = choose|i: int| 0 <= i < reports.len() && (#[trigger] reports[i]).0 == player;
                if i > 0 {
                    assert(rest[i - 1].0 == player);
                }
            }
        }
        assert forall|i: int| 0 <= i < reports.len() implies end.player_histories[(
        #[trigger] reports[i]).0] is Some by {
            if i > 0 {
                assert(rest[i - 1] == reports[i]);
            } else {
                assert(first.state.player_histories[reports[0].0] is Some);
            }
        }
    }
}

/// Convergence. Once every participant has been caught, the next tick of a
/// replica ends its session and broadcasts its own final history. When the
/// final history of every other participant has arrived, in whatever order
/// and however often, the session is complete: the following tick says so,
/// and the history of the session holds an entry for every participant.
pub proof fn lemma_convergence(
    state: GameModel,
    reports: Seq<(Id, Seq<(Timestamp, Location)>)>,
    now: Timestamp,
    location: Option<Location>,
    seeker: Option<Id>,
    later: Timestamp,
    later_location: Option<Location>,
    later_seeker: Option<Id>,
)
    requires
        state.wf(),
        state.all_caught(),
        !state.game_ended(),
        forall|player: Id|
            state.caught_state.contains_key(player) && player != state.id ==> exists|i: int|
                0 <= i < reports.len() && (#[trigger] reports[i]).0 == player,
    ensures
        state.tick(now, location, seeker).state.game_ended == Some(now),
        state.tick(now, location, seeker).events == seq![
            EventModel::PostGameSync(state.id, state.location_history),
        ],
        ({
            let ended = state.tick(now, location, seeker).state;
            let synced = ended.consume_batch(spec_reports(reports), later);
            &&& synced.verdict is Continue
            &&& synced.state.game_ended == Some(now)
            &&& synced.state.check_post_game_sync()
            &&& synced.state.tick(later, later_location, later_seeker).finished
            &&& synced.state.tick(later, later_location, later_seeker).state == synced.state
            &&& forall|player: Id|
                state.caught_state.contains_key(player)
                    ==> #[trigger] synced.state.as_game_history().locations.contains_key(player)
            &&& synced.state.as_game_history().locations.contains_key(state.id)
            &&& synced.state.as_game_history().game_ended == now
        }),
{
    let ended = state.tick(now, location, seeker).state;
    lemma_reports_arrive(ended, reports, later);
    let synced = ended.consume_batch(spec_reports(reports), later).state;
    assert(ended.player_histories.contains_key(state.id));
    assert forall|player: Id| synced.player_histories.contains_key(player) implies (
    #[trigger] synced.player_histories[player]) is Some by {
        if player == state.id {
            assert(ended.player_histories[player] is Some);
        } else if state.caught_state.contains_key(player) {
            let i = choose|i: int| 0 <= i < reports.len() && (#[trigger] reports[i]).0 == player;
            assert(synced.player_histories[reports[i].0] is Some);
        } else if state.player_histories.contains_key(player) {
            assert(ended.player_histories[player] is Some);
        } else {
            assert(!ended.player_histories.contains_key(player));
            let i = choose|i: int| 0 <= i < reports.len() && (#[trigger] reports[i]).0 == player;
            assert(synced.player_histories[reports[i].0] is Some);
        }
    }
    assert(synced.all_caught());
    assert forall|player: Id| state.caught_state.contains_key(player) implies (
    #[trigger] synced.as_game_history().locations.contains_key(player)) by {
        assert(state.player_histories.contains_key(player));
        assert(ended.player_histories.contains_key(player));
    }
}

/// The final histories that the replicas of a session broadcast when they
/// end: one of each replica, in the order of the replicas.
pub open spec fn spec_final_reports(replicas: Seq<GameModel>) -> Seq<
    (Id, Seq<(Timestamp, Location)>),
> {
    Seq::new(replicas.len(), |i: int| (replicas[i].id, replicas[i].location_history))
}

/// Convergence of a whole session. Take the replicas of the participants
/// that are left, each of which knows every participant as caught. When
/// each has ticked, at whatever instant, and has consumed the final
/// histories that the ticks of all of them broadcast, every replica has
/// ended, its session is complete, and its history holds an entry for
/// every participant.
pub proof fn lemma_session_converges(
    replicas: Seq<GameModel>,
    ticks: Seq<Timestamp>,
    locations: Seq<Option<Location>>,
    later: Timestamp,
    which: int,
)
    requires
        0 <= which < replicas.len(),
        ticks.len() == replicas.len(),
        locations.len() == replicas.len(),
        forall|i: int|
            0 <= i < replicas.len() ==> {
                &&& (#[trigger] replicas[i]).wf()
                &&& replicas[i].all_caught()
                &&& !replicas[i].game_ended()
            },
        forall|i: int, player: Id|
            0 <= i < replicas.len() && #[trigger] replicas[i].caught_state.contains_key(player)
                ==> exists|j: int|
                0 <= j < replicas.len() && (#[trigger] replicas[j]).id == player,
    ensures
        ({
            let ended = replicas[which].tick(ticks[which], locations[which], None).state;
            let synced = ended.consume_batch(
                spec_reports(spec_final_reports(replicas)),
                later,
            ).state;
            &&& replicas[which].tick(ticks[which], locations[which], None).events == seq![
                EventModel::PostGameSync(
                    replicas[which].id,
                    replicas[which].location_history,
                ),
            ]
            &&& synced.game_ended == Some(ticks[which])
            &&& synced.tick(later, None, None).finished
            &&& forall|player: Id|
                replicas[which].caught_state.contains_key(player)
                    ==> #[trigger] synced.as_game_history().locations.contains_key(player)
        }),
{
    let state = replicas[which];
    let reports = spec_final_reports(replicas);
    assert forall|player: Id|
        state.caught_state.contains_key(player) && player != state.id implies exists|i: int|
        0 <= i < reports.len() && (#[trigger] reports[i]).0 == player by {
        let j = choose|j: int| 0 <= j < replicas.len() && (#[trigger] replicas[j]).id == player;
        assert(reports[j].0 == player);
    }
    lemma_convergence(
        state,
        reports,
        ticks[which],
        locations[which],
        None,
        later,
        None,
        None,
    );
}

/// The end of a session is set once and stays: neither a tick nor an event
/// moves or clears it.
pub proof fn lemma_end_is_final(
    state: GameModel,
    event: EventModel,
    now: Timestamp,
    location: Option<Location>,
    seeker: Option<Id>,
)
    requires
        state.game_ended(),
    ensures
        state.consume_event(event, now).0.game_ended == state.game_ended,
        state.tick(now, location, seeker).state == state,
        state.tick(now, location, seeker).events == Seq::<EventModel>::empty(),
{
}

/// The log of a session that has ended grows by final histories only, and a
/// tick never writes to the log.
pub proof fn lemma_log_closes_at_end(
    state: GameModel,
    event: EventModel,
    now: Timestamp,
    location: Option<Location>,
    seeker: Option<Id>,
)
    ensures
        state.game_ended() && !(event is PostGameSync) ==> state.consume_event(
            event,
            now,
        ).0.event_history == state.event_history,
        !state.game_ended() || event is PostGameSync ==> state.consume_event(
            event,
            now,
        ).0.event_history == state.event_history.push((now, event)),
        state.tick(now, location, seeker).state.event_history == state.event_history,
{
}

} // verus!
