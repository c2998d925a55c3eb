use vstd::prelude::*;
use vstd::string::StringExecFns;

verus! {

/// A player's public key: the address that messages are attributed to.
#[derive(Clone, Copy, Debug, PartialEq, Eq, Hash)]
pub struct Identity {
    pub key: [u8; 32],
}

impl Identity {
    pub fn new(key: [u8; 32]) -> (r: Identity)
        ensures
            r.key@ == key@,
    {
        Identity { key }
    }

    /// Whether both identities hold the same key.
    pub fn same_as(&self, other: &Identity) -> (r: bool)
        ensures
            r == (self.key@ == other.key@),
    {
        let mut i: usize = 0;
        while i < 32
            invariant
                i <= 32,
                self.key@.len() == 32,
                other.key@.len() == 32,
                forall|j: int| 0 <= j < i ==> self.key@[j] == other.key@[j],
            decreases 32 - i,
        {
            if self.key[i] != other.key[i] {
                return false;
            }
            i = i + 1;
        }
        assert(self.key@ =~= other.key@);
        true
    }
}

/// The two identities of one match, and the display names they gave.
#[derive(Clone, Debug, PartialEq, Eq)]
pub struct Players {
    pub p1_name: Option<String>,
    pub p2_name: Option<String>,
    pub p1_identity: Identity,
    pub p2_identity: Identity,
}

impl Players {
    pub fn new(
        p1_name: Option<String>,
        p2_name: Option<String>,
        p1_identity: Identity,
        p2_identity: Identity,
    ) -> (r: Players)
        ensures
            r == (Players { p1_name, p2_name, p1_identity, p2_identity }),
    {
        Players { p1_name, p2_name, p1_identity, p2_identity }
    }
}

/// The payload that peers exchange.
#[derive(Clone, Debug, PartialEq, Eq)]
pub enum ProtocolMessage {
    /// The sender proposes a new match, under an optional display name.
    AnnounceNewGame(Option<String>),
    /// The sender accepts a match, binding both identities.
    AnnounceJoin(Players),
    /// The sender dropped a piece in this column.
    MoveInput(usize),
    /// The sender asks both sides to clear the board.
    ResetSession,
}

/// One message of the history fetched when a match starts: its author, and
/// the payload, or `None` where the payload did not decode.
#[derive(Clone, Debug)]
pub struct BacklogEntry {
    pub author: Identity,
    pub message: Option<ProtocolMessage>,
}

/// A copy of an optional name.
pub fn copy_name(name: &Option<String>) -> (r: Option<String>)
    ensures
        r == *name,
{
    match name {
        Some(s) => Some(s.clone()),
        None => None,
    }
}

/// The label that scopes all traffic of one match.
pub open spec fn tag_of(domain: Seq<char>, path: Seq<char>) -> Seq<char> {
    domain + " game_id="@ + path
}

/// The label of the match at `path`, for the application served from `domain`.
pub fn game_tag(domain: &str, path: &str) -> (r: String)
    ensures
        r@ == tag_of(domain@, path@),
{
    let head = domain.to_owned().concat(" game_id=");
    proof {
        reveal_strlit(" game_id=");
    }
    head.concat(path)
}

} // verus!
