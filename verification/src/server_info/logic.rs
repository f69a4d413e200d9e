//! The two registries: the players that are connected and the subscribers
//! that are listening.

use crate::server_info::counters::{observation_views, Observation, ObservationView};
use crate::server_info::events::{
    event_view, player_views, position_views, FullPlayerEvent, PlayerPosition,
    PlayerPositionEvent, PlayerPositionView, WebsocketEvent, WebsocketEventView,
};
use crate::server_info::player_details::{Player, PlayerView};
use crate::server_info::samples::{DetailSample, IdentitySample, PlayerSample, TickSample};
use std::collections::{HashMap, HashSet};
use vstd::prelude::*;

verus! {

/// Whether `i` is the first place at which `id` stands in `ids`.
pub open spec fn is_first_index(ids: Seq<u16>, id: u16, i: int) -> bool {
    &&& 0 <= i < ids.len()
    &&& ids[i] == id
    &&& forall|j: int| 0 <= j < i ==> ids[j] != id
}

/// The first place at which `id` stands in `ids`, if it stands there at
/// all.
pub open spec fn first_index_of(ids: Seq<u16>, id: u16) -> Option<int> {
    if ids.contains(id) {
        Some(choose|i: int| is_first_index(ids, id, i))
    } else {
        None
    }
}

proof fn lemma_first_index_below(ids: Seq<u16>, id: u16, k: int)
    requires
        0 <= k < ids.len(),
        ids[k] == id,
    ensures
        exists|i: int| is_first_index(ids, id, i),
    decreases k,
{
    if forall|j: int| 0 <= j < k ==> ids[j] != id {
        assert(is_first_index(ids, id, k));
    } else {
        let j = choose|j: int| 0 <= j < k && ids[j] == id;
        lemma_first_index_below(ids, id, j);
    }
}

/// Where an id stands in a list, it has a first place there.
pub proof fn lemma_first_index_of(ids: Seq<u16>, id: u16)
    ensures
        match first_index_of(ids, id) {
            Some(i) => is_first_index(ids, id, i),
            None => !ids.contains(id),
        },
{
    if ids.contains(id) {
        let k = choose|k: int| 0 <= k < ids.len() && ids[k] == id;
        lemma_first_index_below(ids, id, k);
    }
}

/// The first place of an id is the only place that is its first.
pub proof fn lemma_first_index(ids: Seq<u16>, id: u16, i: int)
    requires
        is_first_index(ids, id, i),
    ensures
        first_index_of(ids, id) == Some(i),
{
}

/// The ids of a list of players, in order.
pub open spec fn ids_of(players: Seq<PlayerView>) -> Seq<u16> {
    players.map_values(|p: PlayerView| p.id)
}

/// The ids of a list of samples, in order.
pub open spec fn sample_ids(samples: Seq<TickSample>) -> Seq<u16> {
    samples.map_values(|s: TickSample| s.id)
}

/// Where the record of player `id` stands in the registry.
pub open spec fn position_of(players: Seq<PlayerView>, id: u16) -> Option<int> {
    first_index_of(ids_of(players), id)
}

/// The registry after a player has connected: the record takes the place
/// of the one that was kept under its id, or else stands at the end.
pub open spec fn with_player(players: Seq<PlayerView>, player: PlayerView) -> Seq<PlayerView> {
    match position_of(players, player.id) {
        Some(i) => players.update(i, player),
        None => players.push(player),
    }
}

/// The registry after player `id` has disconnected.
pub open spec fn without_player(players: Seq<PlayerView>, id: u16) -> Seq<PlayerView> {
    match position_of(players, id) {
        Some(i) => players.remove(i),
        None => players,
    }
}

/// The registry after the login action of player `id`: a player who is
/// connected and has not logged in yet is marked and refreshed; anything
/// else leaves the registry as it is.
pub open spec fn with_login(
    players: Seq<PlayerView>,
    id: u16,
    identity: IdentitySample,
    details: DetailSample,
) -> Seq<PlayerView> {
    match position_of(players, id) {
        Some(i) => if players[i].logged_in {
            players
        } else {
            players.update(
                i,
                (PlayerView { logged_in: true, ..players[i] }).after_login(identity, details),
            )
        },
        None => players,
    }
}

/// What the login action of player `id` reports: the statistics of the
/// player whom it logs in, and nothing where it logs nobody in.
pub open spec fn login_observations(
    players: Seq<PlayerView>,
    id: u16,
    identity: IdentitySample,
    details: DetailSample,
) -> Option<Seq<ObservationView>> {
    match position_of(players, id) {
        Some(i) => if players[i].logged_in {
            None
        } else {
            Some(
                (PlayerView { logged_in: true, ..players[i] }).identified(
                    identity,
                ).low_frequency_observations(details),
            )
        },
        None => None,
    }
}

/// One player's record after a tick: refreshed from the first sample that
/// carries the player's id, with the lists on a low-frequency tick; left
/// as it is where no sample carries the id.
pub open spec fn tick_refreshed_one(
    player: PlayerView,
    samples: Seq<TickSample>,
    low_freq: bool,
) -> PlayerView {
    match first_index_of(sample_ids(samples), player.id) {
        Some(k) => if low_freq {
            player.refreshed(samples[k].state).low_frequency_updated(samples[k].details)
        } else {
            player.refreshed(samples[k].state)
        },
        None => player,
    }
}

/// What a tick reports about one player.
pub open spec fn tick_observations_one(
    player: PlayerView,
    samples: Seq<TickSample>,
    low_freq: bool,
) -> Seq<ObservationView> {
    match first_index_of(sample_ids(samples), player.id) {
        Some(k) => if low_freq {
            player.refreshed(samples[k].state).low_frequency_observations(samples[k].details)
        } else {
            Seq::empty()
        },
        None => Seq::empty(),
    }
}

pub open spec fn refresher(samples: Seq<TickSample>, low_freq: bool) -> spec_fn(
    PlayerView,
) -> PlayerView {
    |p: PlayerView| tick_refreshed_one(p, samples, low_freq)
}

pub open spec fn observer(samples: Seq<TickSample>, low_freq: bool) -> spec_fn(PlayerView) -> Seq<
    ObservationView,
> {
    |p: PlayerView| tick_observations_one(p, samples, low_freq)
}

/// The registry after a tick: every record refreshed.
pub open spec fn tick_refreshed(
    players: Seq<PlayerView>,
    samples: Seq<TickSample>,
    low_freq: bool,
) -> Seq<PlayerView> {
    players.map_values(refresher(samples, low_freq))
}

/// What a tick reports: the observations about each player, in the order
/// of the registry.
pub open spec fn tick_observations(
    players: Seq<PlayerView>,
    samples: Seq<TickSample>,
    low_freq: bool,
) -> Seq<ObservationView> {
    players.map_values(observer(samples, low_freq)).flatten()
}

pub open spec fn has_logged_in() -> spec_fn(PlayerView) -> bool {
    |p: PlayerView| p.logged_in
}

/// The players who have logged in, in the order of the registry.
pub open spec fn logged_in_players(players: Seq<PlayerView>) -> Seq<PlayerView> {
    players.filter(has_logged_in())
}

/// The positions of the players who have logged in.
pub open spec fn logged_in_positions(players: Seq<PlayerView>) -> Seq<PlayerPositionView> {
    logged_in_players(players).map_values(|p: PlayerView| p.position_view())
}

/// The one event that a tick broadcasts, given the registry as the tick
/// leaves it: none while nobody is connected, a full snapshot on a
/// low-frequency tick, the positions on any other.
pub open spec fn tick_event(players: Seq<PlayerView>, low_freq: bool) -> Option<
    WebsocketEventView,
> {
    if players.len() == 0 {
        None
    } else if low_freq {
        Some(WebsocketEventView::FullPlayer(logged_in_players(players)))
    } else {
        Some(WebsocketEventView::PlayerPosition(logged_in_positions(players)))
    }
}

/// The event that a disconnect broadcasts, given the registry as the
/// disconnect found it and as it leaves it: an empty snapshot if the
/// registry has become empty, and nothing if somebody is still connected
/// or if nobody was connected before.
pub open spec fn disconnect_event(before: Seq<PlayerView>, after: Seq<PlayerView>) -> Option<
    WebsocketEventView,
> {
    if before.len() > 0 && after.len() == 0 {
        Some(WebsocketEventView::FullPlayer(Seq::empty()))
    } else {
        None
    }
}

fn find_sample(samples: &Vec<TickSample>, id: u16) -> (found: Option<usize>)
    ensures
        first_index_of(sample_ids(samples@), id) == match found {
            Some(k) => Some(k as int),
            None => None,
        },
        found matches Some(k) ==> k < samples@.len(),
{
    let mut k: usize = 0;
    while k < samples.len()
        invariant
            k <= samples.len(),
            forall|j: int| 0 <= j < k ==> sample_ids(samples@)[j] != id,
        decreases samples.len() - k,
    {
        if samples[k].id == id {
            proof {
                lemma_first_index(sample_ids(samples@), id, k as int);
            }
            return Some(k);
        }
        k += 1;
    }
    None
}

/// The views of a list of observations that may be absent.
pub open spec fn reported_view(reported: Option<Vec<Observation>>) -> Option<Seq<ObservationView>> {
    match reported {
        Some(observations) => Some(observation_views(observations@)),
        None => None,
    }
}

/// What a tick hands back: the event to broadcast, if any, and the
/// observations to record.
#[derive(Debug)]
pub struct TickReport {
    pub event: Option<WebsocketEvent>,
    pub observations: Vec<Observation>,
}

/// The records of a map, in the order that a list of ids gives.
spec fn records(players: Map<u16, Player>, order: Seq<u16>) -> Seq<PlayerView> {
    Seq::new(order.len(), |i: int| players[order[i]]@)
}

/// Whether a list of ids names each key of a map, and each once, and each
/// record of the map is kept under its own id.
spec fn consistent(players: Map<u16, Player>, order: Seq<u16>) -> bool {
    &&& order.no_duplicates()
    &&& forall|id: u16| order.contains(id) <==> players.contains_key(id)
    &&& forall|id: u16| players.contains_key(id) ==> (#[trigger] players[id]).id == id
}

proof fn lemma_records(players: Map<u16, Player>, order: Seq<u16>)
    requires
        consistent(players, order),
    ensures
        ids_of(records(players, order)) == order,
        forall|i: int| 0 <= i < order.len() ==> players.contains_key(#[trigger] order[i]),
        forall|i: int| 0 <= i < order.len() ==> position_of(
            records(players, order),
            #[trigger] order[i],
        ) == Some(i),
        forall|id: u16| !order.contains(id) ==> position_of(records(players, order), id) is None,
{
    assert forall|i: int| 0 <= i < order.len() implies players.contains_key(
        #[trigger] order[i],
    ) by {
        assert(order.contains(order[i]));
    }
    assert(ids_of(records(players, order)) =~= order);
    assert forall|i: int| 0 <= i < order.len() implies position_of(
        records(players, order),
        #[trigger] order[i],
    ) == Some(i) by {
        lemma_first_index(order, order[i], i);
    }
}

fn snapshot_logged_in(players: &HashMap<u16, Player>, order: &Vec<u16>) -> (snapshot: Vec<Player>)
    requires
        consistent(players@, order@),
    ensures
        player_views(snapshot@) == logged_in_players(records(players@, order@)),
{
    let ghost views = records(players@, order@);
    let mut snapshot: Vec<Player> = Vec::new();
    let mut i: usize = 0;
    proof {
        reveal(Seq::filter);
        lemma_records(players@, order@);
    }
    while i < order.len()
        invariant
            i <= order.len(),
            consistent(players@, order@),
            views == records(players@, order@),
            player_views(snapshot@) == logged_in_players(views.take(i as int)),
        decreases order.len() - i,
    {
        proof {
            lemma_records(players@, order@);
            assert(views.take(i + 1) =~= views.take(i as int).push(views[i as int]));
            views.take(i as int).lemma_filter_push(views[i as int], has_logged_in());
        }
        if let Some(player) = players.get(&order[i]) {
            if player.logged_in {
                snapshot.push(player.clone());
            }
        }
        i += 1;
    }
    assert(views.take(i as int) =~= views);
    snapshot
}

fn positions_logged_in(players: &HashMap<u16, Player>, order: &Vec<u16>) -> (positions: Vec<
    PlayerPosition,
>)
    requires
        consistent(players@, order@),
    ensures
        position_views(positions@) == logged_in_positions(records(players@, order@)),
{
    let ghost views = records(players@, order@);
    let mut positions: Vec<PlayerPosition> = Vec::new();
    let mut i: usize = 0;
    proof {
        reveal(Seq::filter);
        lemma_records(players@, order@);
    }
    while i < order.len()
        invariant
            i <= order.len(),
            consistent(players@, order@),
            views == records(players@, order@),
            position_views(positions@) == logged_in_positions(views.take(i as int)),
        decreases order.len() - i,
    {
        proof {
            lemma_records(players@, order@);
            assert(views.take(i + 1) =~= views.take(i as int).push(views[i as int]));
            views.take(i as int).lemma_filter_push(views[i as int], has_logged_in());
        }
        if let Some(player) = players.get(&order[i]) {
            if player.logged_in {
                positions.push(player.get_player_position());
                assert(logged_in_positions(views.take(i + 1)) =~= logged_in_positions(
                    views.take(i as int),
                ).push(views[i as int].position_view()));
            }
        }
        i += 1;
    }
    assert(views.take(i as int) =~= views);
    positions
}

/// Where an id stands in a list in which it stands once.
fn place_of(order: &Vec<u16>, id: u16) -> (place: usize)
    requires
        order@.contains(id),
    ensures
        place < order@.len(),
        order@[place as int] == id,
{
    let mut i: usize = 0;
    while i < order.len()
        invariant
            i <= order.len(),
            order@.contains(id),
            forall|j: int| 0 <= j < i ==> order@[j] != id,
        decreases order.len() - i,
    {
        if order[i] == id {
            return i;
        }
        i += 1;
    }
    0
}

/// The registry of connected players: a map from the id of each connected
/// player to the player's record, and the ids in the order in which they
/// first connected. The registry is read in that order.
#[derive(Debug)]
pub struct ServerInfo {
    players: HashMap<u16, Player>,
    order: Vec<u16>,
}

impl View for ServerInfo {
    type V = Seq<PlayerView>;

    closed spec fn view(&self) -> Seq<PlayerView> {
        records(self.players@, self.order@)
    }
}

impl Default for ServerInfo {
    fn default() -> (info: ServerInfo)
        ensures
            info@ == Seq::<PlayerView>::empty(),
    {
        ServerInfo::new()
    }
}

impl ServerInfo {
    #[verifier::type_invariant]
    spec fn well_formed(self) -> bool {
        consistent(self.players@, self.order@)
    }

    /// The ids of the players that are connected.
    pub open spec fn connected_ids(&self) -> Set<u16> {
        ids_of(self@).to_set()
    }

    /// A registry with nobody connected.
    pub fn new() -> (info: ServerInfo)
        ensures
            info@ == Seq::<PlayerView>::empty(),
    {
        ServerInfo { players: HashMap::new(), order: Vec::new() }
    }

    /// Hands out the map and the order and leaves the registry empty.
    fn take(&mut self) -> (parts: (HashMap<u16, Player>, Vec<u16>))
        ensures
            consistent(parts.0@, parts.1@),
            records(parts.0@, parts.1@) == old(self)@,
            ids_of(old(self)@).no_duplicates(),
    {
        proof {
            use_type_invariant(&*self);
            lemma_records(self.players@, self.order@);
        }
        let mut taken = ServerInfo::new();
        core::mem::swap(self, &mut taken);
        let ServerInfo { players, order } = taken;
        (players, order)
    }

    /// Connect: a fresh record, fully refreshed at once, is kept under
    /// `player_id`. It replaces the record that was kept under that id.
    pub fn add_player(
        &mut self,
        player_id: u16,
        sample: &PlayerSample,
        identity: &IdentitySample,
        details: &DetailSample,
    )
        ensures
            final(self)@ == with_player(
                old(self)@,
                PlayerView::connected(player_id, *sample, *identity, *details),
            ),
            final(self).connected_ids() == old(self).connected_ids().insert(player_id),
    {
        let player = Player::new(player_id, sample, identity, details);
        let (mut players, mut order) = self.take();
        let ghost before = players@;
        let ghost before_order = order@;
        proof {
            lemma_connect_ids(old(self)@, player@);
            lemma_records(before, before_order);
        }
        let previous = players.insert(player_id, player);
        if previous.is_none() {
            order.push(player_id);
            assert forall|id: u16| order@.contains(id) <==> players@.contains_key(id) by {
                if before_order.contains(id) {
                    let k = choose|k: int| 0 <= k < before_order.len() && before_order[k] == id;
                    assert(order@[k] == id);
                }
                if order@.contains(id) {
                    let k = choose|k: int| 0 <= k < order@.len() && order@[k] == id;
                    if k < before_order.len() {
                        assert(before_order[k] == id);
                    }
                }
                assert(order@[before_order.len() as int] == player_id);
            }
        }
        *self = ServerInfo { players, order };
    }

    /// Disconnect: the record of `player` is dropped. Returns the empty
    /// snapshot that is to be broadcast if this has emptied the registry.
    /// For a player who is not connected nothing changes and nothing is
    /// broadcast.
    pub fn remove_player(&mut self, player: u16) -> (event: Option<WebsocketEvent>)
        ensures
            final(self)@ == without_player(old(self)@, player),
            final(self).connected_ids() == old(self).connected_ids().remove(player),
            event_view(event) == disconnect_event(old(self)@, final(self)@),
    {
        let (mut players, mut order) = self.take();
        let ghost before = players@;
        let ghost before_order = order@;
        proof {
            lemma_disconnect_ids(old(self)@, player);
            lemma_records(before, before_order);
        }
        let removed = players.remove(&player).is_some();
        if removed {
            let place = place_of(&order, player);
            let _ = order.remove(place);
            assert(records(players@, order@) =~= old(self)@.remove(place as int));
            assert forall|id: u16| order@.contains(id) <==> players@.contains_key(id) by {
                if order@.contains(id) {
                    let k = choose|k: int| 0 <= k < order@.len() && order@[k] == id;
                    if k < place {
                        assert(before_order[k] == id);
                    } else {
                        assert(before_order[k + 1] == id);
                    }
                }
                if before_order.contains(id) && id != player {
                    let k = choose|k: int| 0 <= k < before_order.len() && before_order[k] == id;
                    if k < place {
                        assert(order@[k] == id);
                    } else {
                        assert(order@[k - 1] == id);
                    }
                }
            }
        } else {
            assert(records(players@, order@) =~= old(self)@);
        }
        let emptied = removed && order.len() == 0;
        *self = ServerInfo { players, order };

        if emptied {
            let players: Vec<Player> = Vec::new();
            assert(player_views(players@) =~= Seq::empty());
            Some(WebsocketEvent::FullPlayer(FullPlayerEvent { players }))
        } else {
            None
        }
    }

    /// A copy of every record, in the order of the registry.
    pub fn get_players(&self) -> (players: Vec<Player>)
        ensures
            player_views(players@) == self@,
    {
        proof {
            use_type_invariant(self);
            lemma_records(self.players@, self.order@);
        }
        let mut players: Vec<Player> = Vec::new();
        let mut i: usize = 0;
        while i < self.order.len()
            invariant
                i <= self.order.len(),
                players@.len() == i,
                forall|j: int| 0 <= j < self.order@.len() ==> self.players@.contains_key(
                    #[trigger] self.order@[j],
                ),
                forall|j: int| 0 <= j < i ==> players@[j]@ == self.players@[self.order@[j]]@,
            decreases self.order.len() - i,
        {
            if let Some(player) = self.players.get(&self.order[i]) {
                players.push(player.clone());
            }
            i += 1;
        }
        players
    }

    /// The login action of `player_id`. A player who is connected and has
    /// not logged in yet is marked as logged in, and the character and the
    /// lists are read; the statistics that this reports are returned. For
    /// anyone else nothing changes and nothing is returned.
    pub fn gui_action(
        &mut self,
        player_id: u16,
        _message_box_id: i32,
        _data: Option<&str>,
        identity: &IdentitySample,
        details: &DetailSample,
    ) -> (reported: Option<Vec<Observation>>)
        ensures
            final(self)@ == with_login(old(self)@, player_id, *identity, *details),
            reported_view(reported) == login_observations(
                old(self)@,
                player_id,
                *identity,
                *details,
            ),
            final(self).connected_ids() == old(self).connected_ids(),
    {
        let (mut players, order) = self.take();
        let ghost before = players@;
        proof {
            lemma_login_keeps_ids(old(self)@, player_id, *identity, *details);
            lemma_records(before, order@);
        }
        let reported = match players.remove(&player_id) {
            Some(mut player) => {
                let reported = if !player.logged_in {
                    player.logged_in = true;
                    Some(player.on_login(identity, details))
                } else {
                    None
                };
                let _ = players.insert(player_id, player);
                assert(records(players@, order@) =~= with_login(
                    old(self)@,
                    player_id,
                    *identity,
                    *details,
                ));
                reported
            },
            None => {
                None
            },
        };
        *self = ServerInfo { players, order };
        reported
    }

    /// One tick: every record is refreshed from the first sample that
    /// carries its id, with the lists if `low_freq` is set; a record
    /// without a sample stays as it is. Then, if anybody is connected, one
    /// event is made of the players who have logged in: a full snapshot if
    /// `low_freq` is set, else their positions.
    pub fn update_players(&mut self, low_freq: bool, samples: &Vec<TickSample>) -> (report:
        TickReport)
        ensures
            final(self)@ == tick_refreshed(old(self)@, samples@, low_freq),
            observation_views(report.observations@) == tick_observations(
                old(self)@,
                samples@,
                low_freq,
            ),
            event_view(report.event) == tick_event(final(self)@, low_freq),
            final(self).connected_ids() == old(self).connected_ids(),
    {
        let (mut players, order) = self.take();
        let ghost start = players@;
        let ghost start_views = records(start, order@);
        let ghost observe = observer(samples@, low_freq);
        proof {
            lemma_tick_keeps_ids(old(self)@, low_freq, samples@);
            lemma_records(start, order@);
        }
        let mut observations: Vec<Observation> = Vec::new();
        let mut i: usize = 0;
        while i < order.len()
            invariant
                i <= order.len(),
                consistent(start, order@),
                consistent(players@, order@),
                start_views == records(start, order@),
                observe == observer(samples@, low_freq),
                forall|j: int|
                    0 <= j < i ==> (#[trigger] players@[order@[j]])@ == tick_refreshed_one(
                        start[order@[j]]@,
                        samples@,
                        low_freq,
                    ),
                forall|j: int|
                    i <= j < order@.len() ==> #[trigger] players@[order@[j]] == start[order@[j]],
                observation_views(observations@) == start_views.take(i as int).map_values(
                    observe,
                ).flatten(),
            decreases order.len() - i,
        {
            let id: u16 = order[i];
            proof {
                lemma_records(players@, order@);
                lemma_records(start, order@);
            }
            if let Some(mut player) = players.remove(&id) {
                match find_sample(samples, id) {
                    Some(k) => {
                        player.update(&samples[k].state);
                        if low_freq {
                            let mut reported = player.low_frequency_update(&samples[k].details);
                            observations.append(&mut reported);
                        }
                    },
                    None => {},
                }
                let _ = players.insert(id, player);
            }
            proof {
                let this = observe(start_views[i as int]);
                assert(start_views.take(i + 1).map_values(observe) =~= start_views.take(
                    i as int,
                ).map_values(observe).push(this));
                start_views.take(i as int).map_values(observe).lemma_flatten_push(this);
            }
            i += 1;
        }
        assert(start_views.take(i as int) =~= start_views);
        assert(records(players@, order@) =~= tick_refreshed(old(self)@, samples@, low_freq));

        let event = if order.len() == 0 {
            None
        } else if low_freq {
            Some(
                WebsocketEvent::FullPlayer(
                    FullPlayerEvent { players: snapshot_logged_in(&players, &order) },
                ),
            )
        } else {
            Some(
                WebsocketEvent::PlayerPosition(
                    PlayerPositionEvent { positions: positions_logged_in(&players, &order) },
                ),
            )
        };
        *self = ServerInfo { players, order };
        TickReport { event, observations }
    }

    /// Whether player `player_id` has logged in; `None` for a player who
    /// is not connected.
    pub fn is_logged_in(&self, player_id: u16) -> (logged_in: Option<bool>)
        ensures
            logged_in == match position_of(self@, player_id) {
                Some(i) => Some(self@[i].logged_in),
                None => None,
            },
    {
        proof {
            use_type_invariant(self);
            lemma_records(self.players@, self.order@);
        }
        match self.players.get(&player_id) {
            Some(player) => {
                proof {
                    let i = choose|i: int|
                        0 <= i < self.order@.len() && self.order@[i] == player_id;
                    assert(self.order@[i] == player_id);
                }
                Some(player.logged_in)
            },
            None => None,
        }
    }

    /// The ids of the connected players, in the order of the registry. No
    /// id stands there twice.
    pub fn player_ids(&self) -> (ids: Vec<u16>)
        ensures
            ids@ == ids_of(self@),
            ids@.no_duplicates(),
    {
        proof {
            use_type_invariant(self);
            lemma_records(self.players@, self.order@);
        }
        let mut ids: Vec<u16> = Vec::new();
        let mut i: usize = 0;
        while i < self.order.len()
            invariant
                i <= self.order.len(),
                ids@ == self.order@.take(i as int),
            decreases self.order.len() - i,
        {
            ids.push(self.order[i]);
            i += 1;
        }
        ids
    }
}

/// Whether `handle` is in use and no handle in use is greater.
pub open spec fn is_greatest(handles: Set<u64>, handle: u64) -> bool {
    &&& handles.contains(handle)
    &&& forall|h: u64| handles.contains(h) ==> h <= handle
}

/// The handle that the next subscriber is given: one more than the
/// greatest handle in use, or zero while none is in use.
pub open spec fn next_handle(handles: Set<u64>) -> int {
    if handles.len() == 0 {
        0
    } else {
        (choose|m: u64| is_greatest(handles, m)) + 1
    }
}

/// The handles in use after one more subscriber has registered. Nothing
/// changes once the greatest handle is the largest number there is.
pub open spec fn with_subscriber(handles: Set<u64>) -> Set<u64> {
    if next_handle(handles) <= u64::MAX {
        handles.insert(next_handle(handles) as u64)
    } else {
        handles
    }
}

/// The handle that a subscriber who registers is given, if there is one
/// left.
pub open spec fn subscriber_handle(handles: Set<u64>) -> Option<u64> {
    if next_handle(handles) <= u64::MAX {
        Some(next_handle(handles) as u64)
    } else {
        None
    }
}

/// The handles that stay in use after a broadcast: those whose send did
/// not fail.
pub open spec fn kept_handles(handles: Set<u64>, failed: Seq<u64>) -> Set<u64> {
    handles.difference(failed.to_set())
}

/// The handles that a broadcast removes: those in use whose send failed,
/// each once, in the order in which `failed` first names them.
pub open spec fn dropped_handles(handles: Set<u64>, failed: Seq<u64>) -> Seq<u64>
    decreases failed.len(),
{
    if failed.len() == 0 {
        Seq::empty()
    } else {
        let earlier = failed.drop_last();
        if handles.contains(failed.last()) && !earlier.contains(failed.last()) {
            dropped_handles(handles, earlier).push(failed.last())
        } else {
            dropped_handles(handles, earlier)
        }
    }
}

/// Every finite set of handles that is not empty has a greatest handle.
pub proof fn lemma_greatest_exists(handles: Set<u64>)
    requires
        handles.finite(),
        handles.len() > 0,
    ensures
        exists|m: u64| is_greatest(handles, m),
    decreases handles.len(),
{
    let x = handles.choose();
    let rest = handles.remove(x);
    if rest.len() == 0 {
        assert(is_greatest(handles, x));
    } else {
        lemma_greatest_exists(rest);
        let m = choose|m: u64| is_greatest(rest, m);
        if m >= x {
            assert(is_greatest(handles, m));
        } else {
            assert(is_greatest(handles, x));
        }
    }
}

/// The greatest handle of a set is the only one that is its greatest.
pub proof fn lemma_greatest(handles: Set<u64>, handle: u64)
    requires
        handles.finite(),
        is_greatest(handles, handle),
    ensures
        next_handle(handles) == handle + 1,
{
}

/// The greatest handle in use, if any is in use.
fn greatest(handles: &HashSet<u64>) -> (max: Option<u64>)
    ensures
        match max {
            Some(m) => is_greatest(handles@, m),
            None => handles@ == Set::<u64>::empty(),
        },
{
    let mut max: Option<u64> = None;
    for h in it: handles.iter()
        invariant
            it.seq().unref().to_set() == handles@,
            match max {
                Some(m) => {
                    &&& it.seq().take(it.index()).unref().contains(m)
                    &&& forall|j: int| 0 <= j < it.index() ==> *it.seq()[j] <= m
                },
                None => it.index() == 0,
            },
            it.index() == it.seq().len() ==> match max {
                Some(m) => is_greatest(handles@, m),
                None => handles@ == Set::<u64>::empty(),
            },
    {
        let ghost before = it.seq().take(it.index()).unref();
        max = match max {
            Some(m) => if *h > m {
                Some(*h)
            } else {
                Some(m)
            },
            None => Some(*h),
        };
        proof {
            let after = it.seq().take(it.index() + 1).unref();
            let m = max->0;
            if m == *h {
                assert(after[it.index()] == m);
            } else {
                let k = choose|k: int| 0 <= k < before.len() && before[k] == m;
                assert(after[k] == m);
            }
            assert(it.seq().take(it.seq().len() as int) =~= it.seq());
        }
    }
    max
}

/// The registry of subscribers: the handles of the push channels that are
/// open. The channels themselves are kept by the caller, each under its
/// handle.
#[derive(Debug)]
pub struct ServerLogic {
    web_sockets: HashSet<u64>,
}

impl View for ServerLogic {
    type V = Set<u64>;

    closed spec fn view(&self) -> Set<u64> {
        self.web_sockets@
    }
}

impl Default for ServerLogic {
    fn default() -> (logic: ServerLogic)
        ensures
            logic@ == Set::<u64>::empty(),
    {
        ServerLogic::new()
    }
}

impl ServerLogic {
    #[verifier::type_invariant]
    spec fn well_formed(self) -> bool {
        self.web_sockets@.finite()
    }

    /// A registry without subscribers.
    pub fn new() -> (logic: ServerLogic)
        ensures
            logic@ == Set::<u64>::empty(),
    {
        ServerLogic { web_sockets: HashSet::new() }
    }

    fn take_handles(&mut self) -> (handles: HashSet<u64>)
        ensures
            handles@ == old(self)@,
            handles@.finite(),
    {
        proof {
            use_type_invariant(&*self);
        }
        let mut handles: HashSet<u64> = HashSet::new();
        core::mem::swap(&mut self.web_sockets, &mut handles);
        handles
    }

    /// Registers a subscriber and returns its handle: one more than the
    /// greatest handle in use, or zero if there is no subscriber. The
    /// subscriber is sent nothing now; it is a recipient from the next
    /// broadcast on. `None`, and no change, once the handles have run
    /// out.
    pub fn add_websocket(&mut self) -> (handle: Option<u64>)
        ensures
            final(self)@ == with_subscriber(old(self)@),
            handle == subscriber_handle(old(self)@),
            final(self)@.finite(),
            handle matches Some(h) ==> !old(self)@.contains(h) && final(self)@.contains(h),
            forall|h: u64| old(self)@.contains(h) ==> final(self)@.contains(h),
    {
        let mut handles = self.take_handles();
        let handle = match greatest(&handles) {
            Some(max) => {
                proof {
                    lemma_greatest(handles@, max);
                }
                if max < u64::MAX {
                    Some(max + 1)
                } else {
                    None
                }
            },
            None => Some(0),
        };
        if let Some(new_id) = handle {
            handles.insert(new_id);
        }
        self.web_sockets = handles;
        handle
    }

    /// The subscribers to whom a broadcast is sent: all that are
    /// registered, each once. The order is that in which the set of
    /// handles happens to be walked.
    pub fn recipients(&self) -> (handles: Vec<u64>)
        ensures
            handles@.to_set() == self@,
            handles@.no_duplicates(),
    {
        let mut handles: Vec<u64> = Vec::new();
        for h in it: self.web_sockets.iter()
            invariant
                it.seq().unref().to_set() == self.web_sockets@,
                it.seq().no_duplicates(),
                handles@ == it.seq().take(it.index()).unref(),
                it.index() == it.seq().len() ==> handles@.to_set() == self.web_sockets@
                    && handles@.no_duplicates(),
        {
            let ghost before = it.seq().take(it.index()).unref();
            handles.push(*h);
            proof {
                assert(it.seq().take(it.index() + 1).unref() =~= before.push(*h));
                assert(it.seq().take(it.seq().len() as int) =~= it.seq());
            }
        }
        handles
    }

    /// Settles one broadcast: `failed` names the subscribers to whom the
    /// event could not be sent. They leave the registry; the others stay.
    /// Returns the handles that were removed, whose channels are to be
    /// closed. A failed send is never an error for the caller.
    pub fn publish_event(&mut self, failed: &Vec<u64>) -> (closed: Vec<u64>)
        ensures
            final(self)@ == kept_handles(old(self)@, failed@),
            closed@ == dropped_handles(old(self)@, failed@),
            final(self)@.finite(),
            forall|h: u64| failed@.contains(h) ==> !final(self)@.contains(h),
            forall|h: u64|
                old(self)@.contains(h) && !failed@.contains(h) ==> final(self)@.contains(h),
    {
        let mut handles = self.take_handles();
        let ghost start = handles@;
        let mut closed: Vec<u64> = Vec::new();
        let mut i: usize = 0;
        while i < failed.len()
            invariant
                i <= failed.len(),
                start.finite(),
                handles@ == kept_handles(start, failed@.take(i as int)),
                closed@ == dropped_handles(start, failed@.take(i as int)),
            decreases failed.len() - i,
        {
            let handle: u64 = failed[i];
            let ghost earlier = failed@.take(i as int);
            proof {
                assert(failed@.take(i + 1).drop_last() =~= earlier);
                assert(failed@.take(i + 1) =~= earlier.push(handle));
                assert(earlier.push(handle).to_set() =~= earlier.to_set().insert(handle)) by {
                    broadcast use vstd::seq_lib::group_seq_properties;
                }
            }
            if handles.remove(&handle) {
                closed.push(handle);
            }
            i += 1;
        }
        assert(failed@.take(i as int) =~= failed@);
        self.web_sockets = handles;
        closed
    }
}

/// What can happen to the registry of subscribers.
pub enum SubscriberOp {
    /// A subscriber registers.
    Register,
    /// An event is broadcast, and the sends to `failed` fail.
    Broadcast { failed: Seq<u64> },
}

/// The handles in use after `op`.
pub open spec fn after_subscriber_op(handles: Set<u64>, op: SubscriberOp) -> Set<u64> {
    match op {
        SubscriberOp::Register => with_subscriber(handles),
        SubscriberOp::Broadcast { failed } => kept_handles(handles, failed),
    }
}

/// The handles in use after `ops`, in order.
pub open spec fn after_subscriber_ops(handles: Set<u64>, ops: Seq<SubscriberOp>) -> Set<u64>
    decreases ops.len(),
{
    if ops.len() == 0 {
        handles
    } else {
        after_subscriber_op(after_subscriber_ops(handles, ops.drop_last()), ops.last())
    }
}

/// Whether no send to `handle` fails in any broadcast of `ops`.
pub open spec fn never_failed(ops: Seq<SubscriberOp>, handle: u64) -> bool {
    forall|k: int|
        0 <= k < ops.len() ==> (#[trigger] ops[k] matches SubscriberOp::Broadcast { failed }
            ==> !failed.contains(handle))
}

/// A broadcast removes exactly the subscribers whose send failed: such a
/// subscriber is gone after the broadcast and its handle is handed back
/// for closing, any other stays.
pub proof fn lemma_broadcast_prunes(handles: Set<u64>, failed: Seq<u64>, handle: u64)
    ensures
        failed.contains(handle) ==> !kept_handles(handles, failed).contains(handle),
        handles.contains(handle) && !failed.contains(handle) ==> kept_handles(
            handles,
            failed,
        ).contains(handle),
        kept_handles(handles, failed).contains(handle) ==> handles.contains(handle),
        dropped_handles(handles, failed).contains(handle) <==> handles.contains(handle)
            && failed.contains(handle),
        dropped_handles(handles, failed).no_duplicates(),
        forall|i: int|
            0 <= i < dropped_handles(handles, failed).len() ==> failed.contains(
                #[trigger] dropped_handles(handles, failed)[i],
            ),
    decreases failed.len(),
{
    if failed.len() > 0 {
        let earlier = failed.drop_last();
        let last = failed.last();
        lemma_broadcast_prunes(handles, earlier, handle);
        lemma_broadcast_prunes(handles, earlier, last);
        let before = dropped_handles(handles, earlier);
        let after = dropped_handles(handles, failed);
        assert(failed.contains(handle) <==> earlier.contains(handle) || handle == last) by {
            if earlier.contains(handle) {
                let k = choose|k: int| 0 <= k < earlier.len() && earlier[k] == handle;
                assert(failed[k] == handle);
            }
            if failed.contains(handle) {
                let k = choose|k: int| 0 <= k < failed.len() && failed[k] == handle;
                if k < earlier.len() {
                    assert(earlier[k] == handle);
                }
            }
            assert(failed[failed.len() - 1] == last);
        }
        if handles.contains(last) && !earlier.contains(last) {
            if before.contains(handle) {
                let k = choose|k: int| 0 <= k < before.len() && before[k] == handle;
                assert(after[k] == handle);
            }
            assert(after[before.len() as int] == last);
        }
    }
}

/// The handle of a new subscriber is greater than every handle in use, so
/// that it belongs to no other subscriber, and it is in use afterwards.
/// The subscribers that were registered stay registered.
pub proof fn lemma_registration(handles: Set<u64>, handle: u64)
    requires
        handles.finite(),
    ensures
        with_subscriber(handles).finite(),
        handles.contains(handle) ==> with_subscriber(handles).contains(handle),
        subscriber_handle(handles) == Some(handle) ==> {
            &&& !handles.contains(handle)
            &&& with_subscriber(handles).contains(handle)
            &&& forall|h: u64| handles.contains(h) ==> h < handle
            &&& handles.len() == 0 ==> handle == 0
            &&& handles.len() > 0 ==> handles.contains((handle - 1) as u64)
        },
        subscriber_handle(handles) is None ==> with_subscriber(handles) == handles
            && handles.contains(u64::MAX),
{
    if handles.len() > 0 {
        lemma_greatest_exists(handles);
    }
}

proof fn lemma_subscriber_ops_keep_finite(handles: Set<u64>, ops: Seq<SubscriberOp>)
    requires
        handles.finite(),
    ensures
        after_subscriber_ops(handles, ops).finite(),
    decreases ops.len(),
{
    if ops.len() > 0 {
        lemma_subscriber_ops_keep_finite(handles, ops.drop_last());
        let before = after_subscriber_ops(handles, ops.drop_last());
        match ops.last() {
            SubscriberOp::Register => lemma_registration(before, 0),
            SubscriberOp::Broadcast { failed } => {},
        }
    }
}

/// A subscriber stays registered, and so is a recipient of every
/// broadcast, for as long as no send to it fails.
pub proof fn lemma_subscriber_stays(handles: Set<u64>, ops: Seq<SubscriberOp>, handle: u64)
    requires
        handles.finite(),
        handles.contains(handle),
        never_failed(ops, handle),
    ensures
        after_subscriber_ops(handles, ops).contains(handle),
    decreases ops.len(),
{
    if ops.len() > 0 {
        let earlier = ops.drop_last();
        lemma_subscriber_stays(handles, earlier, handle);
        lemma_subscriber_ops_keep_finite(handles, earlier);
        let before = after_subscriber_ops(handles, earlier);
        match ops.last() {
            SubscriberOp::Register => lemma_registration(before, handle),
            SubscriberOp::Broadcast { failed } => {
                lemma_broadcast_prunes(before, failed, handle);
            },
        }
    }
}

/// A subscriber who registers late has missed what was broadcast before:
/// its handle was in nobody's use when it registered, so no earlier send
/// went to it. From then on it is registered after every sequence of
/// registrations and broadcasts in which no send to it fails, and so is a
/// recipient of the next broadcast and of each one after that.
pub proof fn lemma_late_subscriber(handles: Set<u64>, later: Seq<SubscriberOp>, handle: u64)
    requires
        handles.finite(),
        subscriber_handle(handles) == Some(handle),
        never_failed(later, handle),
    ensures
        !handles.contains(handle),
        after_subscriber_ops(with_subscriber(handles), later).contains(handle),
{
    lemma_registration(handles, handle);
    lemma_subscriber_stays(with_subscriber(handles), later, handle);
}

/// The handles in use before the `j`-th of `ops`, in a registry that had
/// no subscriber before the first: the recipients, if that one is a
/// broadcast.
pub open spec fn registry_before(ops: Seq<SubscriberOp>, j: int) -> Set<u64> {
    after_subscriber_ops(Set::empty(), ops.take(j))
}

/// The handle that the `k`-th of `ops` gives out, if it is a registration
/// and a handle is left.
pub open spec fn handle_given(ops: Seq<SubscriberOp>, k: int) -> Option<u64> {
    if 0 <= k < ops.len() && ops[k] is Register {
        subscriber_handle(registry_before(ops, k))
    } else {
        None
    }
}

/// Whether the `k`-th of `ops` registered a subscriber who is still
/// registered before the `j`-th: it came earlier, and no send to the
/// subscriber's handle has failed in between.
pub open spec fn is_subscribed(ops: Seq<SubscriberOp>, k: int, j: int) -> bool {
    &&& 0 <= k < j <= ops.len()
    &&& handle_given(ops, k) matches Some(h)
    &&& forall|m: int|
        k < m < j ==> (#[trigger] ops[m] matches SubscriberOp::Broadcast { failed }
            ==> !failed.contains(h))
}

proof fn lemma_registry_before_is_finite(ops: Seq<SubscriberOp>, j: int)
    requires
        0 <= j <= ops.len(),
    ensures
        registry_before(ops, j).finite(),
{
    lemma_subscriber_ops_keep_finite(Set::empty(), ops.take(j));
}

/// What is sent to a handle reaches one subscriber, and it is one who has
/// registered before and to whom no send has failed since. The handles in
/// use before any step are those of the subscribers who registered
/// earlier and have not failed, and no two of these share a handle. So a
/// subscriber who registers after some broadcasts is a recipient of none
/// of them, whoever held its handle then, and is a recipient of the next
/// and of every later one until a send to it fails.
pub proof fn lemma_recipients_are_the_subscribed(ops: Seq<SubscriberOp>, j: int, handle: u64)
    requires
        0 <= j <= ops.len(),
    ensures
        registry_before(ops, j).contains(handle) <==> exists|k: int|
            is_subscribed(ops, k, j) && handle_given(ops, k) == Some(handle),
        forall|k1: int, k2: int|
            is_subscribed(ops, k1, j) && is_subscribed(ops, k2, j) && handle_given(ops, k1)
                == Some(handle) && handle_given(ops, k2) == Some(handle) ==> k1 == k2,
    decreases j,
{
    if j > 0 {
        let i = j - 1;
        let before = registry_before(ops, i);
        assert(ops.take(j).drop_last() =~= ops.take(i));
        lemma_registry_before_is_finite(ops, i);
        lemma_recipients_are_the_subscribed(ops, i, handle);
        match ops[i] {
            SubscriberOp::Register => {
                lemma_registration(before, handle);
                match subscriber_handle(before) {
                    Some(given) => {
                        lemma_registration(before, given);
                        lemma_recipients_are_the_subscribed(ops, i, given);
                    },
                    None => {},
                }
            },
            SubscriberOp::Broadcast { failed } => {
                lemma_broadcast_prunes(before, failed, handle);
                assert(!is_subscribed(ops, i, j));
                if registry_before(ops, j).contains(handle) {
                    // Who held the handle before the broadcast holds it still.
                    let k = choose|k: int|
                        is_subscribed(ops, k, i) && handle_given(ops, k) == Some(handle);
                    assert(is_subscribed(ops, k, j));
                }
            },
        }
    }
}

/// A subscriber who registers with the `k`-th of `ops` held no handle
/// before: the handle that it is given was in nobody's use then. Before
/// every later step up to which no send to it has failed, its handle is
/// in use, and in its use alone: what is sent to the handle then is sent
/// to this subscriber.
pub proof fn lemma_late_subscriber_in_general(
    ops: Seq<SubscriberOp>,
    k: int,
    j: int,
    handle: u64,
)
    requires
        handle_given(ops, k) == Some(handle),
        k < j <= ops.len(),
        forall|m: int|
            k < m < j ==> (#[trigger] ops[m] matches SubscriberOp::Broadcast { failed }
                ==> !failed.contains(handle)),
    ensures
        !registry_before(ops, k).contains(handle),
        registry_before(ops, j).contains(handle),
        forall|other: int|
            is_subscribed(ops, other, j) && handle_given(ops, other) == Some(handle) ==> other
                == k,
{
    lemma_registry_before_is_finite(ops, k);
    lemma_registration(registry_before(ops, k), handle);
    lemma_recipients_are_the_subscribed(ops, j, handle);
}

/// What can happen to the registry of players.
pub enum RegistryOp {
    Connect { id: u16, sample: PlayerSample, identity: IdentitySample, details: DetailSample },
    Disconnect { id: u16 },
    Login { id: u16, identity: IdentitySample, details: DetailSample },
    Tick { low_freq: bool, samples: Seq<TickSample> },
}

/// The registry after `op`.
pub open spec fn after_registry_op(players: Seq<PlayerView>, op: RegistryOp) -> Seq<PlayerView> {
    match op {
        RegistryOp::Connect { id, sample, identity, details } => with_player(
            players,
            PlayerView::connected(id, sample, identity, details),
        ),
        RegistryOp::Disconnect { id } => without_player(players, id),
        RegistryOp::Login { id, identity, details } => with_login(players, id, identity, details),
        RegistryOp::Tick { low_freq, samples } => tick_refreshed(players, samples, low_freq),
    }
}

/// The registry after `ops`, in order, starting with nobody connected.
pub open spec fn registry_after(ops: Seq<RegistryOp>) -> Seq<PlayerView>
    decreases ops.len(),
{
    if ops.len() == 0 {
        Seq::empty()
    } else {
        after_registry_op(registry_after(ops.drop_last()), ops.last())
    }
}

/// The ids that are connected after `ops`: those that have connected and
/// have not disconnected since.
pub open spec fn connected_after(ops: Seq<RegistryOp>) -> Set<u16>
    decreases ops.len(),
{
    if ops.len() == 0 {
        Set::empty()
    } else {
        match ops.last() {
            RegistryOp::Connect { id, .. } => connected_after(ops.drop_last()).insert(id),
            RegistryOp::Disconnect { id } => connected_after(ops.drop_last()).remove(id),
            _ => connected_after(ops.drop_last()),
        }
    }
}

/// A connect adds the id to the ids of the registry, and to nothing else;
/// no id comes to stand there twice.
pub proof fn lemma_connect_ids(players: Seq<PlayerView>, player: PlayerView)
    requires
        ids_of(players).no_duplicates(),
    ensures
        ids_of(with_player(players, player)).no_duplicates(),
        ids_of(with_player(players, player)).to_set() == ids_of(players).to_set().insert(
            player.id,
        ),
{
    let ids = ids_of(players);
    let after = ids_of(with_player(players, player));
    lemma_first_index_of(ids, player.id);
    match position_of(players, player.id) {
        Some(i) => {
            assert(after =~= ids);
        },
        None => {
            assert(after =~= ids.push(player.id));
            assert forall|x: u16| after.to_set().contains(x) <==> ids.to_set().insert(
                player.id,
            ).contains(x) by {
                if after.contains(x) {
                    let k = choose|k: int| 0 <= k < after.len() && after[k] == x;
                    if k < ids.len() {
                        assert(ids[k] == x);
                    }
                }
                if ids.contains(x) {
                    let k = choose|k: int| 0 <= k < ids.len() && ids[k] == x;
                    assert(after[k] == x);
                }
                if x == player.id {
                    assert(after[ids.len() as int] == x);
                }
            }
        },
    }
}

/// A disconnect takes the id from the ids of the registry, and nothing
/// else.
pub proof fn lemma_disconnect_ids(players: Seq<PlayerView>, id: u16)
    requires
        ids_of(players).no_duplicates(),
    ensures
        ids_of(without_player(players, id)).no_duplicates(),
        ids_of(without_player(players, id)).to_set() == ids_of(players).to_set().remove(id),
{
    let ids = ids_of(players);
    let after = ids_of(without_player(players, id));
    lemma_first_index_of(ids, id);
    match position_of(players, id) {
        Some(i) => {
            assert(after =~= ids.remove(i));
            assert forall|x: u16| after.to_set().contains(x) <==> ids.to_set().remove(
                id,
            ).contains(x) by {
                if after.contains(x) {
                    let k = choose|k: int| 0 <= k < after.len() && after[k] == x;
                    if k < i {
                        assert(ids[k] == x);
                    } else {
                        assert(ids[k + 1] == x);
                    }
                }
                if ids.contains(x) && x != id {
                    let k = choose|k: int| 0 <= k < ids.len() && ids[k] == x;
                    if k < i {
                        assert(after[k] == x);
                    } else {
                        assert(after[k - 1] == x);
                    }
                }
            }
        },
        None => {},
    }
}

/// A login does not change under which ids records are kept.
pub proof fn lemma_login_keeps_ids(
    players: Seq<PlayerView>,
    id: u16,
    identity: IdentitySample,
    details: DetailSample,
)
    ensures
        ids_of(with_login(players, id, identity, details)) == ids_of(players),
{
    lemma_first_index_of(ids_of(players), id);
}

/// A tick does not change under which ids records are kept.
pub proof fn lemma_tick_keeps_ids(players: Seq<PlayerView>, low_freq: bool, samples: Seq<TickSample>)
    ensures
        ids_of(tick_refreshed(players, samples, low_freq)) == ids_of(players),
{
}

/// A tick refreshes every connected player for whom there is a sample, and
/// so every connected player if the samples cover the ids of the
/// registry; the others are left as they are.
pub proof fn lemma_tick_refreshes_the_sampled(
    players: Seq<PlayerView>,
    samples: Seq<TickSample>,
    low_freq: bool,
    i: int,
)
    requires
        0 <= i < players.len(),
    ensures
        tick_refreshed(players, samples, low_freq).len() == players.len(),
        !sample_ids(samples).contains(players[i].id) ==> tick_refreshed(
            players,
            samples,
            low_freq,
        )[i] == players[i],
        sample_ids(samples).contains(players[i].id) ==> exists|k: int|
            {
                &&& is_first_index(sample_ids(samples), players[i].id, k)
                &&& !low_freq ==> tick_refreshed(players, samples, low_freq)[i]
                    == players[i].refreshed(samples[k].state)
                &&& low_freq ==> tick_refreshed(players, samples, low_freq)[i]
                    == players[i].refreshed(samples[k].state).low_frequency_updated(
                    samples[k].details,
                )
            },
{
    lemma_first_index_of(sample_ids(samples), players[i].id);
}

/// Whatever happens, the registry keeps exactly one record for each id
/// that is connected, and none for any other.
pub proof fn lemma_registry_holds_the_connected(ops: Seq<RegistryOp>)
    ensures
        ids_of(registry_after(ops)).no_duplicates(),
        ids_of(registry_after(ops)).to_set() == connected_after(ops),
    decreases ops.len(),
{
    if ops.len() == 0 {
    } else {
        lemma_registry_holds_the_connected(ops.drop_last());
        let before = registry_after(ops.drop_last());
        match ops.last() {
            RegistryOp::Connect { id, sample, identity, details } => {
                lemma_connect_ids(before, PlayerView::connected(id, sample, identity, details));
            },
            RegistryOp::Disconnect { id } => {
                lemma_disconnect_ids(before, id);
            },
            RegistryOp::Login { id, identity, details } => {
                lemma_login_keeps_ids(before, id, identity, details);
            },
            RegistryOp::Tick { low_freq, samples } => {
                lemma_tick_keeps_ids(before, low_freq, samples);
            },
        }
    }
}

/// When the last player disconnects, an empty snapshot is broadcast. No
/// other disconnect broadcasts anything: not one that leaves somebody
/// connected, and not one that finds nobody connected.
pub proof fn lemma_last_disconnect(players: Seq<PlayerView>, id: u16)
    requires
        ids_of(players).no_duplicates(),
    ensures
        ids_of(players).to_set() == set![id] ==> disconnect_event(
            players,
            without_player(players, id),
        ) == Some(WebsocketEventView::FullPlayer(Seq::empty())),
        (exists|other: u16| other != id && ids_of(players).contains(other)) ==> disconnect_event(
            players,
            without_player(players, id),
        ) is None,
        players.len() == 0 ==> without_player(players, id) == players && disconnect_event(
            players,
            without_player(players, id),
        ) is None,
        !ids_of(players).contains(id) ==> without_player(players, id) == players
            && disconnect_event(players, without_player(players, id)) is None,
{
    lemma_disconnect_ids(players, id);
    lemma_first_index_of(ids_of(players), id);
    let after = ids_of(without_player(players, id));
    if ids_of(players).to_set() == set![id] {
        if after.len() > 0 {
            assert(after.to_set().contains(after[0]));
        }
    }
}

} // verus!
