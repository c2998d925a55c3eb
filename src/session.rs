use vstd::prelude::*;

use crate::board::{count_col, Board, ROWS};
use crate::protocol::{copy_name, BacklogEntry, Identity, Players, ProtocolMessage};

verus! {

/// The part a client plays in a match.
#[derive(Clone, Copy, Debug, PartialEq, Eq, Structural)]
pub enum Role {
    Unassigned,
    Player1,
    Player2,
    /// The match belongs to two other identities.
    Rejected,
}

/// The player number that a role moves as.
pub open spec fn player_number(role: Role) -> Option<u8> {
    match role {
        Role::Player1 => Some(1u8),
        Role::Player2 => Some(2u8),
        _ => None,
    }
}

/// The announcer and announced name that the history leaves to join: the last
/// entry, where it proposes a new match and comes from another identity.
pub open spec fn open_announce(backlog: Seq<BacklogEntry>, local: Identity) -> Option<
    (Identity, Option<String>),
> {
    if backlog.len() == 0 {
        None
    } else {
        let last = backlog.last();
        match last.message {
            Some(ProtocolMessage::AnnounceNewGame(name)) => if last.author.key@ != local.key@ {
                Some((last.author, name))
            } else {
                None
            },
            _ => None,
        }
    }
}

/// The pairing that a client sends to join the match announced by `announcer`.
pub open spec fn join_players(
    announcer: Identity,
    announced_name: Option<String>,
    local: Identity,
    local_name: Option<String>,
) -> Players {
    Players {
        p1_name: announced_name,
        p2_name: local_name,
        p1_identity: announcer,
        p2_identity: local,
    }
}

/// What the status line tells the local player.
#[derive(Clone, Copy, Debug, PartialEq, Eq, Structural)]
pub enum Status {
    YourTurn,
    Waiting,
    YouWin,
    YouLose,
}

/// The author whose later messages are worth following, read from an entry
/// that is handled: the one who announced or joined a match.
pub fn followed_author(entry: &BacklogEntry) -> (r: Option<Identity>)
    ensures
        r == if entry.message matches Some(ProtocolMessage::AnnounceNewGame(_))
            || entry.message matches Some(ProtocolMessage::AnnounceJoin(_)) {
            Some(entry.author)
        } else {
            None::<Identity>
        },
{
    match &entry.message {
        Some(ProtocolMessage::AnnounceNewGame(_)) => Some(entry.author),
        Some(ProtocolMessage::AnnounceJoin(_)) => Some(entry.author),
        _ => None,
    }
}

/// One client's state in one match: its role, the board, and the messages
/// waiting to be published.
pub struct Session {
    pub role: Role,
    /// The role has been decided; it is decided once.
    pub started: bool,
    /// The opponent's identity is bound to this match.
    pub paired: bool,
    pub identity: Identity,
    pub local_name: Option<String>,
    pub peer_name: Option<String>,
    pub board: Board,
    pub outbox: Vec<ProtocolMessage>,
}

impl Session {
    /// The board is well formed, and a role is set exactly once the session
    /// has started.
    pub open spec fn wf(&self) -> bool {
        &&& self.board.wf()
        &&& self.started == (self.role != Role::Unassigned)
    }

    /// Role and pairing are as in `o`.
    pub open spec fn same_standing(&self, o: &Session) -> bool {
        &&& self.role == o.role
        &&& self.started == o.started
        &&& self.paired == o.paired
        &&& self.peer_name == o.peer_name
    }

    /// Who this client is has not changed from `o`.
    pub open spec fn same_client(&self, o: &Session) -> bool {
        &&& self.identity == o.identity
        &&& self.local_name == o.local_name
    }

    /// A session with no role yet, an empty board and nothing to publish.
    pub fn new(identity: Identity, local_name: Option<String>) -> (s: Session)
        ensures
            s.wf(),
            s.role == Role::Unassigned,
            !s.started,
            !s.paired,
            s.identity == identity,
            s.local_name == local_name,
            s.peer_name is None,
            s.board.is_fresh(),
            s.outbox@.len() == 0,
    {
        Session {
            role: Role::Unassigned,
            started: false,
            paired: false,
            identity,
            local_name,
            peer_name: None,
            board: Board::new(),
            outbox: Vec::new(),
        }
    }

    /// The player number this client moves as, if it plays.
    pub fn local_player(&self) -> (r: Option<u8>)
        ensures
            r == player_number(self.role),
    {
        match self.role {
            Role::Player1 => Some(1),
            Role::Player2 => Some(2),
            _ => None,
        }
    }

    /// The status line: the outcome once there is a winner, else whether the
    /// local player is to move.
    pub fn status(&self) -> (r: Status)
        ensures
            r == match self.board.winner {
                Some(w) => if player_number(self.role) == Some(w) {
                    Status::YouWin
                } else {
                    Status::YouLose
                },
                None => if player_number(self.role) == Some(self.board.player_turn) {
                    Status::YourTurn
                } else {
                    Status::Waiting
                },
            },
    {
        let local = self.local_player();
        match self.board.winner {
            Some(w) => {
                if local == Some(w) {
                    Status::YouWin
                } else {
                    Status::YouLose
                }
            },
            None => {
                if local == Some(self.board.player_turn) {
                    Status::YourTurn
                } else {
                    Status::Waiting
                }
            },
        }
    }

    /// The player whose colour the turn indicator shows: the local player's
    /// once the game is won, else the player to move.
    pub fn indicator_player(&self) -> (r: u8)
        ensures
            r == match self.board.winner {
                Some(_) => match player_number(self.role) {
                    Some(n) => n,
                    None => 2u8,
                },
                None => self.board.player_turn,
            },
    {
        if self.board.winner.is_some() {
            match self.local_player() {
                Some(n) => n,
                None => 2,
            }
        } else {
            self.board.player_turn
        }
    }

    /// Decides the role from the history of the match, oldest entry first.
    /// With no history this client announces a new match as Player 1. Where the
    /// last entry announces a match of another identity, this client joins it
    /// as Player 2. Otherwise, and once a role is decided, nothing changes.
    pub fn matchmake(&mut self, backlog: &Vec<BacklogEntry>)
        requires
            old(self).wf(),
        ensures
            final(self).wf(),
            final(self).same_client(&*old(self)),
            final(self).board == old(self).board,
            old(self).started ==> *final(self) == *old(self),
            !old(self).started && backlog@.len() == 0 ==> {
                &&& final(self).role == Role::Player1
                &&& final(self).started
                &&& final(self).paired == old(self).paired
                &&& final(self).peer_name == old(self).peer_name
                &&& final(self).outbox@ == old(self).outbox@.push(
                    ProtocolMessage::AnnounceNewGame(old(self).local_name),
                )
            },
            !old(self).started ==> match open_announce(backlog@, old(self).identity) {
                Some((announcer, name)) => {
                    &&& final(self).role == Role::Player2
                    &&& final(self).started
                    &&& final(self).paired
                    &&& final(self).peer_name == name
                    &&& final(self).outbox@ == old(self).outbox@.push(
                        ProtocolMessage::AnnounceJoin(
                            join_players(announcer, name, old(self).identity, old(self).local_name),
                        ),
                    )
                },
                None => backlog@.len() > 0 ==> *final(self) == *old(self),
            },
    {
        if self.started {
            return;
        }
        if backlog.len() == 0 {
            self.role = Role::Player1;
            self.started = true;
            let name = copy_name(&self.local_name);
            self.outbox.push(ProtocolMessage::AnnounceNewGame(name));
            return;
        }
        let last = &backlog[backlog.len() - 1];
        match &last.message {
            Some(ProtocolMessage::AnnounceNewGame(name)) => {
                if !last.author.same_as(&self.identity) {
                    let players = Players::new(
                        copy_name(name),
                        copy_name(&self.local_name),
                        last.author,
                        self.identity,
                    );
                    self.role = Role::Player2;
                    self.started = true;
                    self.paired = true;
                    self.peer_name = copy_name(name);
                    self.outbox.push(ProtocolMessage::AnnounceJoin(players));
                }
            },
            _ => {},
        }
    }

    /// Whether an entry of the history goes on to be handled as a received
    /// message: all but this client's own match announcements do.
    pub fn should_forward(&self, entry: &BacklogEntry) -> (r: bool)
        ensures
            r == !(entry.author.key@ == self.identity.key@ && (entry.message matches Some(
                ProtocolMessage::AnnounceNewGame(_),
            ) || entry.message matches Some(ProtocolMessage::AnnounceJoin(_)))),
    {
        let announcement = match &entry.message {
            Some(ProtocolMessage::AnnounceNewGame(_)) => true,
            Some(ProtocolMessage::AnnounceJoin(_)) => true,
            _ => false,
        };
        !(announcement && entry.author.same_as(&self.identity))
    }

    /// A move of the opponent in `column` is accepted now: this client plays,
    /// it is the opponent's turn, and the board allows the move.
    pub open spec fn accepts_remote(&self, column: usize) -> bool {
        &&& player_number(self.role) matches Some(n)
        &&& self.board.player_turn != n
        &&& self.board.can_place(column)
    }

    /// A move of this client in `column` is accepted now: this client plays,
    /// it is its turn, and the board allows the move.
    pub open spec fn accepts_local(&self, column: usize) -> bool {
        &&& player_number(self.role) == Some(self.board.player_turn)
        &&& self.board.can_place(column)
    }

    /// Handles one message received from the opponent. Returns whether it
    /// placed a move; the caller then leaves further messages for the next
    /// tick.
    pub fn receive(&mut self, msg: ProtocolMessage) -> (placed: bool)
        requires
            old(self).wf(),
        ensures
            final(self).wf(),
            final(self).same_client(&*old(self)),
            final(self).outbox@ == old(self).outbox@,
            match msg {
                ProtocolMessage::ResetSession => {
                    &&& final(self).board.is_fresh()
                    &&& final(self).same_standing(&*old(self))
                    &&& !placed
                },
                ProtocolMessage::MoveInput(column) => {
                    &&& placed == old(self).accepts_remote(column)
                    &&& placed ==> old(self).board.placed_to(column, &final(self).board)
                    &&& !placed ==> final(self).board == old(self).board
                    &&& final(self).same_standing(&*old(self))
                },
                ProtocolMessage::AnnounceNewGame(name) => {
                    &&& !placed
                    &&& final(self).board == old(self).board
                    &&& old(self).started ==> final(self).same_standing(&*old(self))
                    &&& !old(self).started ==> {
                        &&& final(self).role == Role::Player2
                        &&& final(self).started
                        &&& final(self).paired == old(self).paired
                        &&& final(self).peer_name == name
                    }
                },
                ProtocolMessage::AnnounceJoin(players) => {
                    let me = old(self).identity.key@;
                    let first = players.p1_identity.key@ == me;
                    let second = players.p2_identity.key@ == me;
                    &&& !placed
                    &&& final(self).board == old(self).board
                    &&& !first && !second && !old(self).started ==> {
                        &&& final(self).role == Role::Rejected
                        &&& final(self).started
                        &&& final(self).paired == old(self).paired
                        &&& final(self).peer_name == old(self).peer_name
                    }
                    &&& (first || second) && !old(self).started ==> {
                        &&& final(self).role == if first {
                            Role::Player1
                        } else {
                            Role::Player2
                        }
                        &&& final(self).started
                        &&& final(self).paired
                        &&& final(self).peer_name == if first {
                            players.p2_name
                        } else {
                            players.p1_name
                        }
                    }
                    &&& first && old(self).started && old(self).role == Role::Player1
                        && !old(self).paired ==> {
                        &&& final(self).role == old(self).role
                        &&& final(self).started
                        &&& final(self).paired
                        &&& final(self).peer_name == players.p2_name
                    }
                    &&& old(self).started && !(first && old(self).role == Role::Player1
                        && !old(self).paired) ==> final(self).same_standing(&*old(self))
                },
            },
    {
        match msg {
            ProtocolMessage::ResetSession => {
                self.board.reset();
                false
            },
            ProtocolMessage::MoveInput(column) => {
                let n = match self.local_player() {
                    Some(n) => n,
                    None => {
                        return false;
                    },
                };
                if self.board.player_turn == n {
                    return false;
                }
                let r = self.board.place(column);
                r.is_some()
            },
            ProtocolMessage::AnnounceNewGame(name) => {
                if !self.started {
                    self.role = Role::Player2;
                    self.started = true;
                    self.peer_name = name;
                }
                false
            },
            ProtocolMessage::AnnounceJoin(players) => {
                let first = players.p1_identity.same_as(&self.identity);
                let second = players.p2_identity.same_as(&self.identity);
                if !self.started {
                    if first {
                        self.role = Role::Player1;
                        self.paired = true;
                        self.peer_name = players.p2_name;
                    } else if second {
                        self.role = Role::Player2;
                        self.paired = true;
                        self.peer_name = players.p1_name;
                    } else {
                        self.role = Role::Rejected;
                    }
                    self.started = true;
                } else if first && self.role == Role::Player1 && !self.paired {
                    self.paired = true;
                    self.peer_name = players.p2_name;
                }
                false
            },
        }
    }

    /// Drops a piece of this client in `column` and queues the move for the
    /// opponent. Returns whether the move was accepted; a refused move changes
    /// nothing and queues nothing.
    pub fn submit_local_move(&mut self, column: usize) -> (accepted: bool)
        requires
            old(self).wf(),
        ensures
            final(self).wf(),
            accepted == old(self).accepts_local(column),
            accepted ==> {
                &&& old(self).board.placed_to(column, &final(self).board)
                &&& final(self).outbox@ == old(self).outbox@.push(
                    ProtocolMessage::MoveInput(column),
                )
                &&& final(self).same_standing(&*old(self))
                &&& final(self).same_client(&*old(self))
            },
            !accepted ==> *final(self) == *old(self),
    {
        match self.local_player() {
            Some(n) => {
                if self.board.player_turn != n {
                    return false;
                }
            },
            None => {
                return false;
            },
        }
        match self.board.place(column) {
            Some(_) => {
                self.outbox.push(ProtocolMessage::MoveInput(column));
                true
            },
            None => false,
        }
    }

    /// Reports that the settling move has landed (see `Board::settles_to`).
    pub fn on_move_settled(&mut self)
        requires
            old(self).wf(),
        ensures
            final(self).wf(),
            old(self).board.settles_to(&final(self).board),
            final(self).outbox@ == old(self).outbox@,
            final(self).same_standing(&*old(self)),
            final(self).same_client(&*old(self)),
    {
        self.board.on_move_settled();
    }

    /// Starts a new game once this one is won: clears the board and asks the
    /// opponent to do the same. Returns whether it did; before a win nothing
    /// changes.
    pub fn request_replay(&mut self) -> (r: bool)
        requires
            old(self).wf(),
        ensures
            final(self).wf(),
            r == old(self).board.winner is Some,
            r ==> {
                &&& final(self).board.is_fresh()
                &&& final(self).outbox@ == old(self).outbox@.push(ProtocolMessage::ResetSession)
                &&& final(self).same_standing(&*old(self))
                &&& final(self).same_client(&*old(self))
            },
            !r ==> *final(self) == *old(self),
    {
        if self.board.winner.is_none() {
            return false;
        }
        self.board.reset();
        self.outbox.push(ProtocolMessage::ResetSession);
        true
    }

    /// Hands over the messages waiting to be published, oldest first, and
    /// empties the queue.
    pub fn take_outbox(&mut self) -> (out: Vec<ProtocolMessage>)
        requires
            old(self).wf(),
        ensures
            final(self).wf(),
            out@ == old(self).outbox@,
            final(self).outbox@.len() == 0,
            final(self).board == old(self).board,
            final(self).same_standing(&*old(self)),
            final(self).same_client(&*old(self)),
    {
        let mut out: Vec<ProtocolMessage> = Vec::new();
        std::mem::swap(&mut out, &mut self.outbox);
        out
    }
}

/// A full column refuses a further local move, which then changes nothing and
/// queues nothing.
pub proof fn lemma_full_column_refuses(s: Session, column: usize)
    requires
        s.wf(),
        count_col(s.board.moves@, column as int) >= ROWS,
    ensures
        !s.accepts_local(column),
        !s.accepts_remote(column),
{
}

} // verus!
