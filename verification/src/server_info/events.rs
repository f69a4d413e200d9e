//! The events that are pushed to subscribers.

use crate::server_info::player_details::{Player, PlayerView};
use vstd::prelude::*;

verus! {

/// Where one player is.
#[derive(Debug)]
pub struct PlayerPosition {
    pub name: String,
    /// The x and the y coordinate.
    pub position: (i32, i32),
    /// The rotation about the z axis.
    pub rotation: i32,
    pub cell: String,
    pub is_outside: bool,
}

pub struct PlayerPositionView {
    pub name: Seq<char>,
    pub position: (i32, i32),
    pub rotation: i32,
    pub cell: Seq<char>,
    pub is_outside: bool,
}

impl View for PlayerPosition {
    type V = PlayerPositionView;

    open spec fn view(&self) -> PlayerPositionView {
        PlayerPositionView {
            name: self.name@,
            position: self.position,
            rotation: self.rotation,
            cell: self.cell@,
            is_outside: self.is_outside,
        }
    }
}

impl Clone for PlayerPosition {
    fn clone(&self) -> (c: PlayerPosition)
        ensures
            c@ == self@,
    {
        PlayerPosition {
            name: self.name.clone(),
            position: self.position,
            rotation: self.rotation,
            cell: self.cell.clone(),
            is_outside: self.is_outside,
        }
    }
}

/// The views of a list of positions, in order.
pub open spec fn position_views(s: Seq<PlayerPosition>) -> Seq<PlayerPositionView> {
    s.map_values(|p: PlayerPosition| p@)
}

/// The views of a list of players, in order.
pub open spec fn player_views(s: Seq<Player>) -> Seq<PlayerView> {
    s.map_values(|p: Player| p@)
}

/// A snapshot of every player who has logged in.
#[derive(Debug)]
pub struct FullPlayerEvent {
    pub players: Vec<Player>,
}

impl View for FullPlayerEvent {
    type V = Seq<PlayerView>;

    open spec fn view(&self) -> Seq<PlayerView> {
        player_views(self.players@)
    }
}

impl Clone for FullPlayerEvent {
    fn clone(&self) -> (c: FullPlayerEvent)
        ensures
            c@ == self@,
    {
        let mut players: Vec<Player> = Vec::new();
        let mut i: usize = 0;
        while i < self.players.len()
            invariant
                i <= self.players.len(),
                players@.len() == i,
                forall|j: int| 0 <= j < i ==> players@[j]@ == self.players@[j]@,
            decreases self.players.len() - i,
        {
            players.push(self.players[i].clone());
            i += 1;
        }
        FullPlayerEvent { players }
    }
}

/// The position of every player who has logged in.
#[derive(Debug)]
pub struct PlayerPositionEvent {
    pub positions: Vec<PlayerPosition>,
}

impl View for PlayerPositionEvent {
    type V = Seq<PlayerPositionView>;

    open spec fn view(&self) -> Seq<PlayerPositionView> {
        position_views(self.positions@)
    }
}

impl Clone for PlayerPositionEvent {
    fn clone(&self) -> (c: PlayerPositionEvent)
        ensures
            c@ == self@,
    {
        let mut positions: Vec<PlayerPosition> = Vec::new();
        let mut i: usize = 0;
        while i < self.positions.len()
            invariant
                i <= self.positions.len(),
                positions@.len() == i,
                forall|j: int| 0 <= j < i ==> positions@[j]@ == self.positions@[j]@,
            decreases self.positions.len() - i,
        {
            positions.push(self.positions[i].clone());
            i += 1;
        }
        PlayerPositionEvent { positions }
    }
}

/// What is pushed to subscribers.
#[derive(Debug)]
pub enum WebsocketEvent {
    FullPlayer(FullPlayerEvent),
    PlayerPosition(PlayerPositionEvent),
}

pub enum WebsocketEventView {
    FullPlayer(Seq<PlayerView>),
    PlayerPosition(Seq<PlayerPositionView>),
}

impl View for WebsocketEvent {
    type V = WebsocketEventView;

    open spec fn view(&self) -> WebsocketEventView {
        match *self {
            WebsocketEvent::FullPlayer(event) => WebsocketEventView::FullPlayer(event@),
            WebsocketEvent::PlayerPosition(event) => WebsocketEventView::PlayerPosition(event@),
        }
    }
}

impl Clone for WebsocketEvent {
    fn clone(&self) -> (c: WebsocketEvent)
        ensures
            c@ == self@,
    {
        match self {
            WebsocketEvent::FullPlayer(event) => WebsocketEvent::FullPlayer(event.clone()),
            WebsocketEvent::PlayerPosition(event) => WebsocketEvent::PlayerPosition(
                event.clone(),
            ),
        }
    }
}

/// The view of an event that may be absent.
pub open spec fn event_view(event: Option<WebsocketEvent>) -> Option<WebsocketEventView> {
    match event {
        Some(e) => Some(e@),
        None => None,
    }
}

impl WebsocketEvent {
    /// The value of the `type` field by which a reader tells the two kinds
    /// of event apart.
    pub fn type_tag(&self) -> (tag: &'static str)
        ensures
            self is FullPlayer ==> tag@ == "fullPlayer"@,
            self is PlayerPosition ==> tag@ == "playerPosition"@,
    {
        match self {
            WebsocketEvent::FullPlayer(_) => "fullPlayer",
            WebsocketEvent::PlayerPosition(_) => "playerPosition",
        }
    }

    /// The name of the field that holds the event's list.
    pub fn payload_field(&self) -> (field: &'static str)
        ensures
            self is FullPlayer ==> field@ == "players"@,
            self is PlayerPosition ==> field@ == "positions"@,
    {
        match self {
            WebsocketEvent::FullPlayer(_) => "players",
            WebsocketEvent::PlayerPosition(_) => "positions",
        }
    }
}

} // verus!
