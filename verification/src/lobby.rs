//! Plain models of the lobby rows the match is formed from, and the
//! summary a lobby member shows to the other members.  Persistence itself
//! lives outside the crate; these carry the values it reads and writes.
use vstd::prelude::*;

verus! {

/// A lobby waiting for a match to start.
#[derive(Debug)]
pub struct Lobby {
    pub id: i32,
}

/// A registered account.
#[derive(Debug)]
pub struct User {
    pub id: i32,
    pub username: String,
}

/// A stored lobby membership row.
#[derive(Debug)]
pub struct LobbyUser {
    pub id: i32,
    pub lobby_id: i32,
    pub user_id: i32,
    pub username: String,
    pub ready: bool,
    /// Seconds since the epoch when the row was created.
    pub created_at: i64,
    /// Seconds since the epoch when the row last changed.
    pub updated_at: i64,
}

/// What a lobby member shows to the other members.
#[derive(Debug)]
pub struct LobbyUserInfo {
    pub id: i32,
    pub name: String,
    pub ready: bool,
}

impl LobbyUser {
    /// The member's public summary: id, display name and readiness.
    pub fn info(&self) -> (r: LobbyUserInfo)
        ensures
            r.id == self.id,
            r.name == self.username,
            r.ready == self.ready,
    {
        LobbyUserInfo { id: self.id, name: self.username.clone(), ready: self.ready }
    }
}

/// A membership row about to be inserted.
#[derive(Debug)]
pub struct NewLobbyUser {
    pub lobby_id: i32,
    pub user_id: i32,
    pub username: String,
}

impl NewLobbyUser {
    /// The membership row joining a user to a lobby.
    pub fn from_parents(lobby: &Lobby, user: &User) -> (r: NewLobbyUser)
        ensures
            r.lobby_id == lobby.id,
            r.user_id == user.id,
            r.username == user.username,
    {
        NewLobbyUser {
            lobby_id: lobby.id,
            user_id: user.id,
            username: user.username.clone(),
        }
    }
}

} // verus!
