use vstd::prelude::*;

use crate::error::{Error, Result};

verus! {

/// A JSON document whose shape the service does not document; carried as is.
#[verifier::external_type_specification]
#[verifier::external_body]
pub struct ExJsonValue(serde_json::Value);

/// The identity of an authenticated session.
#[derive(Clone, Debug)]
pub struct Token {
    pub username: String,
    pub id: usize,
    /// Long-lived secret.
    pub token1: String,
    /// Bearer value sent with every request.
    pub token2: String,
    pub purchases: Vec<String>,
}

impl Token {
    /// The token with every field empty or zero.
    pub open spec fn is_blank(&self) -> bool {
        &&& self.username@.len() == 0
        &&& self.id == 0
        &&& self.token1@.len() == 0
        &&& self.token2@.len() == 0
        &&& self.purchases@.len() == 0
    }

    /// A token that holds only the bearer value `token2`; every other field is
    /// empty or zero.
    pub fn from_token2(token2: &str) -> (r: Token)
        ensures
            r.token2@ == token2@,
            r.username@.len() == 0,
            r.id == 0,
            r.token1@.len() == 0,
            r.purchases@.len() == 0,
    {
        let mut t = Token::default();
        t.token2 = token2.to_string();
        t
    }
}

impl Default for Token {
    fn default() -> (r: Token)
        ensures
            r.is_blank(),
    {
        Token {
            username: String::new(),
            id: 0,
            token1: String::new(),
            token2: String::new(),
            purchases: Vec::new(),
        }
    }
}

/// The per-player part of a game record: each player's name and auth value.
#[derive(Clone, Debug)]
pub struct ClientData {
    pub p1_auth: isize,
    pub p2_auth: isize,
    pub p1_name: String,
    pub p2_name: String,
}

impl ClientData {
    /// The auth value recorded for the player called `name`, if either is.
    pub open spec fn auth_of(&self, name: Seq<char>) -> Option<isize> {
        if name == self.p1_name@ {
            Some(self.p1_auth)
        } else if name == self.p2_name@ {
            Some(self.p2_auth)
        } else {
            None
        }
    }

    /// The auth value of the player called `name` (exact, case-sensitive match,
    /// player one first); an unknown name is an error that carries it.
    pub fn get_auth(&self, name: &str) -> (r: Result<isize>)
        ensures
            match self.auth_of(name@) {
                Some(a) => r matches Ok(x) && x == a,
                None => r matches Err(Error::InvalidPlayerName(n)) && n@ == name@,
            },
    {
        let name = name.to_string();
        if name == self.p1_name {
            return Ok(self.p1_auth);
        }
        if name == self.p2_name {
            return Ok(self.p2_auth);
        }
        Err(Error::InvalidPlayerName(name))
    }
}

/// One match, running or finished, as the activity feed reports it.
#[derive(Clone, Debug)]
pub struct Game {
    pub id: i64,
    pub timing: String,
    pub mmdata: String,
    pub clientdata: ClientData,
    pub opponentname: String,
    pub actionneeded: bool,
    pub endreason: i64,
    pub won: bool,
    pub lastupdatedtime: String,
    pub isleaguegame: bool,
    pub istournamentgame: bool,
}

impl Game {
    /// The logged-in user never appears as the opponent, so they are player one
    /// exactly when player one's name is not the opponent's.
    pub open spec fn spec_is_player_one(&self) -> bool {
        self.opponentname@ != self.clientdata.p1_name@
    }

    /// The name of the player whose move it is.
    pub open spec fn spec_which_turn(&self) -> Seq<char> {
        if !self.actionneeded {
            self.opponentname@
        } else if self.spec_is_player_one() {
            self.clientdata.p1_name@
        } else {
            self.clientdata.p2_name@
        }
    }

    /// Whether the game looks finished: no end reason, not won, and no action
    /// pending. This rule is a heuristic that the service does not document.
    pub fn is_finished(&self) -> (r: bool)
        ensures
            r == (self.endreason == 0 && !self.won && !self.actionneeded),
    {
        self.endreason == 0 && !self.won && !self.actionneeded
    }

    /// The name of the player whose turn it is: the opponent unless an action
    /// of the logged-in user is needed, else the user's own name.
    pub fn which_turn(&self) -> (r: String)
        ensures
            r@ == self.spec_which_turn(),
    {
        let mut which_turn = self.opponentname.clone();
        if self.actionneeded {
            which_turn = if self.is_player_one() {
                self.clientdata.p1_name.clone()
            } else {
                self.clientdata.p2_name.clone()
            };
        }
        which_turn
    }

    /// Whether the logged-in user is player one of this game.
    pub fn is_player_one(&self) -> (r: bool)
        ensures
            r == self.spec_is_player_one(),
            r == (self.opponentname@ != self.clientdata.p1_name@),
    {
        self.opponentname != self.clientdata.p1_name
    }
}

/// A pending invitation to a match.
#[derive(Clone, Debug)]
pub struct Challenge {
    pub id: i64,
    pub challengername: String,
    pub challengercommander: String,
    pub opponentname: String,
    pub mmdata: String,
    pub status: String,
    pub statusdescription: String,
    pub lastupdatedtime: String,
    pub timing: String,
}

/// The user's state at one fetch: profile counters, challenges and games.
#[derive(Debug)]
pub struct Activity {
    pub acceptedterms: bool,
    pub avatar: String,
    pub rankstars: i64,
    pub ranktotalstars: i64,
    pub level: i64,
    pub arenatrophystars: i64,
    pub hasfreearena: bool,
    /// Not decoded further.
    pub pendingrewards: serde_json::Value,
    /// Not decoded further.
    pub queues: Vec<serde_json::Value>,
    pub challenges: Vec<Challenge>,
    pub activegames: Vec<Game>,
    pub finishedgames: Vec<Game>,
    pub result: String,
}

} // verus!
