use crate::error::ContractError;
use crate::game::{is_finished, new_game_view, play_outcome, Game, GameView, Player};
use crate::msg::{AllGamesListResponse, ExecuteMsg, GamesInfo, GamesResponse};
use crate::state::{record_view, Games, GamesView};
use cosmwasm_std::StdError;
use std::collections::hash_map::DefaultHasher;
use std::hash::Hasher;
use vstd::prelude::*;
use vstd::std_specs::hash::DefaultHasherAdditionalSpecFns;
use vstd::string::StringExecFns;
use vstd::utf8::encode_utf8;

verus! {

/// The symbol that the host of the ordered pair (host, guest) receives: the lowest bit of
/// the hash of the host's address followed by the guest's, `0` giving `X` and `1` giving `O`.
pub open spec fn host_role_of(host: Seq<char>, guest: Seq<char>) -> Player {
    if DefaultHasher::spec_finish(seq![encode_utf8(host + guest)]) % 2 == 0 {
        Player::X
    } else {
        Player::O
    }
}

/// Get the host role based on the hash of the inviter and guest addresses.
pub fn get_host_role(host: &String, guest: &String) -> (r: Player)
    ensures
        r == host_role_of(host@, guest@),
{
    let mut concat = host.clone();
    concat.append(guest.as_str());
    let mut hasher = DefaultHasher::new();
    hasher.write(concat.as_str().as_bytes());
    if hasher.finish() % 2 == 0 {
        Player::X
    } else {
        Player::O
    }
}

/// The kind of command that succeeded, as its event reports it.
#[derive(Clone, Copy, Debug, PartialEq, Eq, Structural)]
pub enum Action {
    Invite,
    Accept,
    Reject,
    /// A move on the given cell.
    Play(usize),
}

impl Action {
    /// The name under which the event reports the action.
    pub open spec fn spec_name(self) -> Seq<char> {
        match self {
            Action::Invite => "invite"@,
            Action::Accept => "accept invitation"@,
            Action::Reject => "reject invitation"@,
            Action::Play(_) => "play"@,
        }
    }

    /// The name under which the event reports the action.
    pub fn name(&self) -> (r: &'static str)
        ensures
            r@ == self.spec_name(),
    {
        match self {
            Action::Invite => "invite",
            Action::Accept => "accept invitation",
            Action::Reject => "reject invitation",
            Action::Play(_) => "play",
        }
    }
}

/// A successful command: the record to store for the pair (host, guest), and the event.
#[derive(Debug)]
pub struct Update {
    pub record: Games,
    pub action: Action,
    pub host: String,
    pub guest: String,
}

/// What a command does to the record of its session.
pub enum Outcome {
    /// The command succeeds and the record becomes this.
    Stored(GamesView),
    /// The command is refused with this error.
    Refused(ContractError),
    /// The session does not exist.
    Missing,
}

/// Relies on cosmwasm_std::StdError::not_found: the error for a record that does not exist,
/// naming the record's type.
#[verifier::external_body]
fn record_not_found() -> StdError {
    StdError::not_found("tic_tac_toe::state::Games")
}

/// `r` is what a command whose outcome is `o` returns, reporting `action` on (host, guest).
pub open spec fn reports(
    r: Result<Update, ContractError>,
    o: Outcome,
    action: Action,
    host: String,
    guest: String,
) -> bool {
    match o {
        Outcome::Stored(after) => r matches Ok(u) && u.record@ == after && u.action == action
            && u.host == host && u.guest == guest,
        Outcome::Refused(e) => r == Err::<Update, ContractError>(e),
        Outcome::Missing => r matches Err(ContractError::StdError(_)),
    }
}

/// `sender` invites `guest`: a new record, or the stored one with an invitation pending,
/// refused while a round is being played.
pub open spec fn invite_outcome(sender: String, guest: String, stored: Option<GamesView>) -> Outcome {
    match stored {
        Some(s) => if s.current is Some {
            Outcome::Refused(ContractError::GameInProgress { host: sender, guest })
        } else {
            Outcome::Stored(GamesView { pending_invitation: true, ..s })
        },
        None => Outcome::Stored(
            GamesView {
                pending_invitation: true,
                host: host_role_of(sender@, guest@),
                current: None,
                completed: Seq::empty(),
            },
        ),
    }
}

/// `sender` accepts the invitation of `host`: a fresh round starts.
pub open spec fn accept_outcome(sender: String, host: String, stored: Option<GamesView>) -> Outcome {
    match stored {
        None => Outcome::Missing,
        Some(s) => if s.pending_invitation {
            Outcome::Stored(
                GamesView { pending_invitation: false, current: Some(new_game_view()), ..s },
            )
        } else {
            Outcome::Refused(ContractError::NoPendingInvitation { host, guest: sender })
        },
    }
}

/// `sender` rejects the invitation of `host`: it is withdrawn and no round starts.
pub open spec fn reject_outcome(sender: String, host: String, stored: Option<GamesView>) -> Outcome {
    match stored {
        None => Outcome::Missing,
        Some(s) => if s.pending_invitation {
            Outcome::Stored(GamesView { pending_invitation: false, ..s })
        } else {
            Outcome::Refused(ContractError::NoPendingInvitation { host, guest: sender })
        },
    }
}

/// The symbol that `sender` plays in the session (host, guest) whose host holds `host_role`.
pub open spec fn role_of(host_role: Player, sender: Seq<char>, host: Seq<char>, guest: Seq<char>) -> Option<Player> {
    if sender == host {
        Some(host_role)
    } else if sender == guest {
        Some(host_role.complement())
    } else {
        None
    }
}

/// Record `s` once its current round has become `after`: a finished round moves to the
/// history.
pub open spec fn after_move(s: GamesView, after: GameView) -> GamesView {
    if is_finished(after.board) {
        GamesView { current: None, completed: s.completed.push(after), ..s }
    } else {
        GamesView { current: Some(after), ..s }
    }
}

/// `sender` plays `cell` in the session (host, guest).
pub open spec fn play_session_outcome(
    sender: String,
    host: String,
    guest: String,
    cell: usize,
    stored: Option<GamesView>,
) -> Outcome {
    match stored {
        None => Outcome::Missing,
        Some(s) => match s.current {
            None => Outcome::Refused(ContractError::NoGameInProgress { host, guest }),
            Some(g) => match role_of(s.host, sender@, host@, guest@) {
                None => Outcome::Refused(ContractError::NotInvolved { host, guest, player: sender }),
                Some(p) => match play_outcome(g, p, cell) {
                    Err(e) => Outcome::Refused(ContractError::GameError(e)),
                    Ok(after) => Outcome::Stored(after_move(s, after)),
                },
            },
        },
    }
}

/// `sender` invites `guest` to play, given the record stored for (sender, guest).
pub fn invite(sender: &String, guest: &String, stored: Option<Games>) -> (r: Result<Update, ContractError>)
    ensures
        reports(r, invite_outcome(*sender, *guest, record_view(stored)), Action::Invite, *sender, *guest),
{
    let record = match stored {
        Some(s) => {
            if s.current.is_some() {
                return Err(
                    ContractError::GameInProgress { host: sender.clone(), guest: guest.clone() },
                );
            }
            Games { pending_invition: true, ..s }
        },
        None => {
            let r = Games {
                pending_invition: true,
                host: get_host_role(sender, guest),
                current: None,
                completed: Vec::new(),
            };
            assert(r@.completed =~= Seq::<GameView>::empty());
            r
        },
    };
    Ok(Update { record, action: Action::Invite, host: sender.clone(), guest: guest.clone() })
}

/// `sender` accepts the invitation of `host`, given the record stored for (host, sender).
pub fn accept(sender: &String, host: &String, stored: Option<Games>) -> (r: Result<Update, ContractError>)
    ensures
        reports(r, accept_outcome(*sender, *host, record_view(stored)), Action::Accept, *host, *sender),
{
    let s = match stored {
        Some(s) => s,
        None => return Err(ContractError::StdError(record_not_found())),
    };
    if !s.pending_invition {
        return Err(ContractError::NoPendingInvitation { host: host.clone(), guest: sender.clone() });
    }
    let record = Games { pending_invition: false, current: Some(Game::new()), ..s };
    Ok(Update { record, action: Action::Accept, host: host.clone(), guest: sender.clone() })
}

/// `sender` rejects the invitation of `host`, given the record stored for (host, sender).
pub fn reject(sender: &String, host: &String, stored: Option<Games>) -> (r: Result<Update, ContractError>)
    ensures
        reports(r, reject_outcome(*sender, *host, record_view(stored)), Action::Reject, *host, *sender),
{
    let s = match stored {
        Some(s) => s,
        None => return Err(ContractError::StdError(record_not_found())),
    };
    if !s.pending_invition {
        return Err(ContractError::NoPendingInvitation { host: host.clone(), guest: sender.clone() });
    }
    let record = Games { pending_invition: false, ..s };
    Ok(Update { record, action: Action::Reject, host: host.clone(), guest: sender.clone() })
}

/// `sender` plays `cell` in the session (host, guest), given the record stored for it.
pub fn play(
    sender: &String,
    host: &String,
    guest: &String,
    cell: usize,
    stored: Option<Games>,
) -> (r: Result<Update, ContractError>)
    ensures
        reports(
            r,
            play_session_outcome(*sender, *host, *guest, cell, record_view(stored)),
            Action::Play(cell),
            *host,
            *guest,
        ),
{
    let mut s = match stored {
        Some(s) => s,
        None => return Err(ContractError::StdError(record_not_found())),
    };
    let mut game = match s.current {
        Some(g) => g,
        None => {
            return Err(
                ContractError::NoGameInProgress { host: host.clone(), guest: guest.clone() },
            )
        },
    };
    let player = if *sender == *host {
        s.host
    } else if *sender == *guest {
        s.host.opponent()
    } else {
        return Err(
            ContractError::NotInvolved {
                host: host.clone(),
                guest: guest.clone(),
                player: sender.clone(),
            },
        );
    };
    match game.play(player, cell) {
        Ok(()) => {},
        Err(e) => return Err(ContractError::GameError(e)),
    }
    if game.is_over() {
        s.completed.push(game);
        s.current = None;
    } else {
        s.current = Some(game);
    }
    proof {
        let expected = after_move(record_view(stored)->Some_0, game@);
        assert(s@.completed =~= expected.completed);
    }
    Ok(Update { record: s, action: Action::Play(cell), host: host.clone(), guest: guest.clone() })
}

/// The pair whose record a command from `sender` reads and writes.
pub open spec fn key_of(sender: String, msg: ExecuteMsg) -> (String, String) {
    match msg {
        ExecuteMsg::Invite { guest } => (sender, guest),
        ExecuteMsg::Accept { host } => (host, sender),
        ExecuteMsg::Reject { host } => (host, sender),
        ExecuteMsg::Play { host, guest, .. } => (host, guest),
    }
}

/// The action that a command reports when it succeeds.
pub open spec fn action_of(msg: ExecuteMsg) -> Action {
    match msg {
        ExecuteMsg::Invite { .. } => Action::Invite,
        ExecuteMsg::Accept { .. } => Action::Accept,
        ExecuteMsg::Reject { .. } => Action::Reject,
        ExecuteMsg::Play { cell, .. } => Action::Play(cell),
    }
}

/// What command `msg` from `sender` does to the record stored for its pair.
pub open spec fn execute_outcome(sender: String, msg: ExecuteMsg, stored: Option<GamesView>) -> Outcome {
    match msg {
        ExecuteMsg::Invite { guest } => invite_outcome(sender, guest, stored),
        ExecuteMsg::Accept { host } => accept_outcome(sender, host, stored),
        ExecuteMsg::Reject { host } => reject_outcome(sender, host, stored),
        ExecuteMsg::Play { host, guest, cell } => play_session_outcome(sender, host, guest, cell, stored),
    }
}

/// The pair (host, guest) whose record command `msg` from `sender` reads and writes.
pub fn session_key(sender: &String, msg: &ExecuteMsg) -> (r: (String, String))
    ensures
        r == key_of(*sender, *msg),
{
    match msg {
        ExecuteMsg::Invite { guest } => (sender.clone(), guest.clone()),
        ExecuteMsg::Accept { host } => (host.clone(), sender.clone()),
        ExecuteMsg::Reject { host } => (host.clone(), sender.clone()),
        ExecuteMsg::Play { host, guest, .. } => (host.clone(), guest.clone()),
    }
}

/// Runs command `msg` from `sender` on the record stored for its pair (see `session_key`).
pub fn execute(sender: &String, msg: &ExecuteMsg, stored: Option<Games>) -> (r: Result<Update, ContractError>)
    ensures
        reports(
            r,
            execute_outcome(*sender, *msg, record_view(stored)),
            action_of(*msg),
            key_of(*sender, *msg).0,
            key_of(*sender, *msg).1,
        ),
{
    match msg {
        ExecuteMsg::Invite { guest } => invite(sender, guest, stored),
        ExecuteMsg::Accept { host } => accept(sender, host, stored),
        ExecuteMsg::Reject { host } => reject(sender, host, stored),
        ExecuteMsg::Play { host, guest, cell } => play(sender, host, guest, *cell, stored),
    }
}

/// `info` shows record `s` of the pair (host, guest), with the guest's symbol the complement of
/// the host's.
pub open spec fn describes(info: GamesInfo, host: String, guest: String, s: Games) -> bool {
    &&& info.host == host
    &&& info.guest == guest
    &&& info.host_role == s.host
    &&& info.guest_role == s.host.complement()
    &&& info.pending_invitation == s.pending_invition
    &&& info.current_game == s.current
    &&& info.completed_games@ == s.completed@
}

fn describe(host: String, guest: String, s: Games) -> (r: GamesInfo)
    ensures
        describes(r, host, guest, s),
{
    GamesInfo {
        host,
        guest,
        host_role: s.host,
        guest_role: s.host.opponent(),
        pending_invitation: s.pending_invition,
        current_game: s.current,
        completed_games: s.completed,
    }
}

/// The games between `host` and `guest`, given the record stored for the pair.
pub fn games(host: &String, guest: &String, stored: Option<Games>) -> (r: Result<GamesResponse, ContractError>)
    ensures
        match stored {
            Some(s) => r matches Ok(resp) && describes(resp.info, *host, *guest, s),
            None => r matches Err(ContractError::StdError(_)),
        },
{
    match stored {
        Some(s) => Ok(GamesResponse { info: describe(host.clone(), guest.clone(), s) }),
        None => Err(ContractError::StdError(record_not_found())),
    }
}

/// The games of every stored pair, given the records in the order the store lists them.
pub fn all_games_list(entries: Vec<((String, String), Games)>) -> (r: AllGamesListResponse)
    ensures
        r.games@.len() == entries@.len(),
        forall|i: int|
            0 <= i < entries@.len() ==> describes(
                #[trigger] r.games@[i],
                entries@[i].0.0,
                entries@[i].0.1,
                entries@[i].1,
            ),
{
    let mut games: Vec<GamesInfo> = Vec::new();
    for entry in it: entries
        invariant
            it.seq() == entries@,
            games@.len() == it.index(),
            forall|i: int|
                0 <= i < it.index() ==> describes(
                    #[trigger] games@[i],
                    entries@[i].0.0,
                    entries@[i].0.1,
                    entries@[i].1,
                ),
    {
        let ((host, guest), record) = entry;
        games.push(describe(host, guest, record));
    }
    AllGamesListResponse { games }
}

/// The record after each command of `cmds` in turn, each sent by its first component to the
/// session held in `stored`; a refused command leaves the record as it was.
pub open spec fn run_commands(stored: Option<GamesView>, cmds: Seq<(String, ExecuteMsg)>) -> Option<
    GamesView,
>
    decreases cmds.len(),
{
    if cmds.len() == 0 {
        stored
    } else {
        let next = match execute_outcome(cmds[0].0, cmds[0].1, stored) {
            Outcome::Stored(after) => Some(after),
            _ => stored,
        };
        run_commands(next, cmds.drop_first())
    }
}

/// No record, or a valid one.
pub open spec fn valid_record(r: Option<GamesView>) -> bool {
    match r {
        Some(s) => s.wf(),
        None => true,
    }
}

/// `later` keeps the host's symbol of `earlier` and every round of its history, in place.
pub open spec fn extends(earlier: GamesView, later: GamesView) -> bool {
    &&& later.host == earlier.host
    &&& earlier.completed.len() <= later.completed.len()
    &&& forall|i: int| 0 <= i < earlier.completed.len() ==> later.completed[i] == earlier.completed[i]
}

/// A command that succeeds leaves a valid record (an invitation never waits while a round
/// is being played); on an existing record it keeps the host's symbol and only appends to
/// the history of finished rounds.
pub proof fn lemma_command_keeps_session(sender: String, msg: ExecuteMsg, stored: Option<GamesView>)
    requires
        valid_record(stored),
    ensures
        match execute_outcome(sender, msg, stored) {
            Outcome::Stored(after) => after.wf() && match stored {
                Some(s) => extends(s, after),
                None => after.completed.len() == 0,
            },
            _ => true,
        },
{
}

/// Over any sequence of commands on one session, the record stays valid at every step, and
/// once it exists the host's symbol never changes and finished rounds are only ever
/// appended, never altered or removed.
pub proof fn lemma_session_history(stored: Option<GamesView>, cmds: Seq<(String, ExecuteMsg)>)
    requires
        valid_record(stored),
    ensures
        valid_record(run_commands(stored, cmds)),
        match stored {
            Some(s) => run_commands(stored, cmds) matches Some(t) && extends(s, t),
            None => true,
        },
    decreases cmds.len(),
{
    if cmds.len() > 0 {
        let next = match execute_outcome(cmds[0].0, cmds[0].1, stored) {
            Outcome::Stored(after) => Some(after),
            _ => stored,
        };
        lemma_command_keeps_session(cmds[0].0, cmds[0].1, stored);
        lemma_session_history(next, cmds.drop_first());
    }
}

/// In every view of a valid record the guest holds the complement of the host's symbol:
/// the two players hold `X` and `O`, one each.
pub proof fn lemma_roles_complement(info: GamesInfo, host: String, guest: String, s: Games)
    requires
        describes(info, host, guest, s),
        s@.wf(),
    ensures
        info.guest_role == info.host_role.complement(),
        info.host_role != Player::Empty,
        info.guest_role != Player::Empty,
        info.guest_role != info.host_role,
{
}

} // verus!
