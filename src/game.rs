use vstd::prelude::*;

verus! {

/// A mark on the board: one of the two players, or an empty cell.
#[derive(Clone, Copy, Debug, PartialEq, Eq, Structural)]
pub enum Player {
    X,
    O,
    Empty,
}

impl Player {
    /// The other player; an empty cell stays empty.
    pub open spec fn complement(self) -> Player {
        match self {
            Player::X => Player::O,
            Player::O => Player::X,
            Player::Empty => Player::Empty,
        }
    }

    /// The other player; an empty cell stays empty.
    #[verifier::when_used_as_spec(complement)]
    pub fn opponent(self) -> (r: Player)
        ensures
            r == self.complement(),
    {
        match self {
            Player::X => Player::O,
            Player::O => Player::X,
            Player::Empty => Player::Empty,
        }
    }
}

/// An error that can occur when playing a game.
#[derive(Clone, Copy, Debug, PartialEq, Eq, Structural)]
pub enum GameError {
    /// The player tried to play out of turn.
    NotYourTurn,
    /// The player tried to play on an occupied or an invalid cell.
    InvalidMove(usize),
}

/// The cells of the `k`-th winning line: three rows, three columns, two diagonals.
pub open spec fn line(k: int) -> (int, int, int) {
    if k == 0 {
        (0, 1, 2)
    } else if k == 1 {
        (3, 4, 5)
    } else if k == 2 {
        (6, 7, 8)
    } else if k == 3 {
        (0, 3, 6)
    } else if k == 4 {
        (1, 4, 7)
    } else if k == 5 {
        (2, 5, 8)
    } else if k == 6 {
        (0, 4, 8)
    } else {
        (2, 4, 6)
    }
}

/// Line `k` of board `b` holds the same mark `p` three times, and `p` is a player.
pub open spec fn line_won_by(b: Seq<Player>, k: int, p: Player) -> bool {
    &&& p != Player::Empty
    &&& b[line(k).0] == p
    &&& b[line(k).1] == p
    &&& b[line(k).2] == p
}

/// Line `k` of board `b` is held entirely by one player.
pub open spec fn line_complete(b: Seq<Player>, k: int) -> bool {
    line_won_by(b, k, b[line(k).0])
}

/// The player holding the first complete line at index `k` or later.
pub open spec fn first_winner_from(b: Seq<Player>, k: int) -> Option<Player>
    decreases 8 - k,
{
    if k >= 8 {
        None
    } else if line_complete(b, k) {
        Some(b[line(k).0])
    } else {
        first_winner_from(b, k + 1)
    }
}

/// The winner of board `b`: the holder of the first complete line, in line order.
pub open spec fn winner_of(b: Seq<Player>) -> Option<Player> {
    first_winner_from(b, 0)
}

/// Every cell of board `b` holds a mark.
pub open spec fn is_full(b: Seq<Player>) -> bool {
    forall|i: int| 0 <= i < 9 ==> b[i] != Player::Empty
}

/// A round is over when it has a winner or its board is full.
pub open spec fn is_finished(b: Seq<Player>) -> bool {
    winner_of(b) is Some || is_full(b)
}

/// The abstract state of a round: the nine cells in row-major order and whose turn it is.
pub struct GameView {
    pub board: Seq<Player>,
    pub turn: Player,
}

/// A fresh round: an empty board, `X` to move.
pub open spec fn new_game_view() -> GameView {
    GameView { board: Seq::new(9, |i: int| Player::Empty), turn: Player::X }
}

/// The outcome of `player` marking cell `index` of round `g`.
pub open spec fn play_outcome(g: GameView, player: Player, index: usize) -> Result<GameView, GameError> {
    if g.turn != player {
        Err(GameError::NotYourTurn)
    } else if index >= 9 || g.board[index as int] != Player::Empty {
        Err(GameError::InvalidMove(index))
    } else {
        Ok(GameView { board: g.board.update(index as int, player), turn: player.complement() })
    }
}

/// The round reached by playing `moves` in order from `g`, or `None` if one of them is refused.
pub open spec fn play_moves(g: GameView, moves: Seq<(Player, usize)>) -> Option<GameView>
    decreases moves.len(),
{
    if moves.len() == 0 {
        Some(g)
    } else {
        match play_outcome(g, moves[0].0, moves[0].1) {
            Ok(next) => play_moves(next, moves.drop_first()),
            Err(_) => None,
        }
    }
}

/// Turns alternate: in every sequence of moves that a fresh round accepts, `X` makes
/// the moves at even positions and `O` those at odd positions.
pub proof fn lemma_turns_alternate(moves: Seq<(Player, usize)>)
    requires
        play_moves(new_game_view(), moves) is Some,
    ensures
        forall|i: int|
            0 <= i < moves.len() ==> moves[i].0 == (if i % 2 == 0 {
                Player::X
            } else {
                Player::O
            }),
{
    lemma_turns_alternate_from(new_game_view(), moves);
}

proof fn lemma_turns_alternate_from(g: GameView, moves: Seq<(Player, usize)>)
    requires
        g.turn != Player::Empty,
        play_moves(g, moves) is Some,
    ensures
        forall|i: int|
            0 <= i < moves.len() ==> moves[i].0 == (if i % 2 == 0 {
                g.turn
            } else {
                g.turn.complement()
            }),
    decreases moves.len(),
{
    if moves.len() > 0 {
        let next = play_outcome(g, moves[0].0, moves[0].1)->Ok_0;
        lemma_turns_alternate_from(next, moves.drop_first());
        assert forall|i: int| 0 <= i < moves.len() implies moves[i].0 == (if i % 2 == 0 {
            g.turn
        } else {
            g.turn.complement()
        }) by {
            if i > 0 {
                assert(moves[i] == moves.drop_first()[i - 1]);
            }
        }
    }
}

proof fn lemma_winner_from_single_line(b: Seq<Player>, k: int, p: Player, j: int)
    requires
        0 <= j <= k < 8,
        line_won_by(b, k, p),
        forall|m: int| 0 <= m < 8 && m != k ==> !line_complete(b, m),
    ensures
        first_winner_from(b, j) == Some(p),
    decreases k - j,
{
    if j < k {
        lemma_winner_from_single_line(b, k, p, j + 1);
    }
}

/// A board on which exactly one line is complete, held by player `p`, is won by `p`
/// and the round is over.
pub proof fn lemma_single_line_wins(b: Seq<Player>, k: int, p: Player)
    requires
        b.len() == 9,
        0 <= k < 8,
        line_won_by(b, k, p),
        forall|m: int| 0 <= m < 8 && m != k ==> !line_complete(b, m),
    ensures
        winner_of(b) == Some(p),
        is_finished(b),
{
    lemma_winner_from_single_line(b, k, p, 0);
}

proof fn lemma_no_line_no_winner(b: Seq<Player>, j: int)
    requires
        0 <= j <= 8,
        forall|m: int| 0 <= m < 8 ==> !line_complete(b, m),
    ensures
        first_winner_from(b, j) is None,
    decreases 8 - j,
{
    if j < 8 {
        lemma_no_line_no_winner(b, j + 1);
    }
}

/// A full board with no complete line has no winner, and the round is over: a draw.
pub proof fn lemma_full_board_is_draw(b: Seq<Player>)
    requires
        b.len() == 9,
        is_full(b),
        forall|m: int| 0 <= m < 8 ==> !line_complete(b, m),
    ensures
        winner_of(b) is None,
        is_finished(b),
{
    lemma_no_line_no_winner(b, 0);
}

/// A tic-tac-toe game.
#[derive(Clone, Copy, Debug, PartialEq, Eq)]
pub struct Game {
    board: [Player; 9],
    turn: Player,
}

impl View for Game {
    type V = GameView;

    closed spec fn view(&self) -> GameView {
        GameView { board: self.board@, turn: self.turn }
    }
}

/// The cells of the `k`-th winning line.
fn winning_line(k: usize) -> (r: (usize, usize, usize))
    requires
        k < 8,
    ensures
        r.0 == line(k as int).0,
        r.1 == line(k as int).1,
        r.2 == line(k as int).2,
{
    match k {
        0 => (0, 1, 2),
        1 => (3, 4, 5),
        2 => (6, 7, 8),
        3 => (0, 3, 6),
        4 => (1, 4, 7),
        5 => (2, 5, 8),
        6 => (0, 4, 8),
        _ => (2, 4, 6),
    }
}

impl Game {
    #[verifier::type_invariant]
    spec fn inv(self) -> bool {
        self.turn != Player::Empty
    }

    /// Creates a new game with an empty board and `X` as the first player.
    pub fn new() -> (r: Game)
        ensures
            r@ == new_game_view(),
    {
        let r = Game { board: [Player::Empty; 9], turn: Player::X };
        assert(r@.board =~= new_game_view().board);
        r
    }

    /// Rebuilds a game from its cells and the player to move, as a stored game holds them;
    /// `None` where `turn` is not one of the two players.
    pub fn from_parts(board: [Player; 9], turn: Player) -> (r: Option<Game>)
        ensures
            r is Some <==> turn != Player::Empty,
            r matches Some(g) ==> g@ == (GameView { board: board@, turn }),
    {
        if turn == Player::Empty {
            None
        } else {
            Some(Game { board, turn })
        }
    }

    /// The nine cells, in row-major order.
    pub fn board(&self) -> (r: [Player; 9])
        ensures
            r@ == self@.board,
    {
        self.board
    }

    /// The player whose turn it is.
    pub fn turn(&self) -> (r: Player)
        ensures
            r == self@.turn,
            r != Player::Empty,
    {
        proof {
            use_type_invariant(self);
        }
        self.turn
    }

    /// Plays a move on the board.
    pub fn play(&mut self, player: Player, index: usize) -> (r: Result<(), GameError>)
        ensures
            match play_outcome(old(self)@, player, index) {
                Ok(after) => r is Ok && final(self)@ == after,
                Err(e) => r == Err::<(), GameError>(e) && final(self)@ == old(self)@,
            },
    {
        proof {
            use_type_invariant(&*self);
        }
        if self.turn != player {
            return Err(GameError::NotYourTurn);
        }
        if index >= 9 || self.board[index] != Player::Empty {
            return Err(GameError::InvalidMove(index));
        }
        let mut board = self.board;
        board[index] = player;
        *self = Game { board, turn: player.opponent() };
        Ok(())
    }

    /// Get the winner of the game. Returns `None` if there is no winner yet.
    pub fn winner(&self) -> (r: Option<Player>)
        ensures
            r == winner_of(self@.board),
    {
        let mut k: usize = 0;
        while k < 8
            invariant
                k <= 8,
                winner_of(self@.board) == first_winner_from(self@.board, k as int),
            decreases 8 - k,
        {
            let (a, b, c) = winning_line(k);
            let p = self.board[a];
            if p != Player::Empty && self.board[b] == p && self.board[c] == p {
                return Some(p);
            }
            k += 1;
        }
        None
    }

    /// Checks if the game is over. A game is over if there is a winner or if the board is full.
    pub fn is_over(&self) -> (r: bool)
        ensures
            r == is_finished(self@.board),
    {
        if self.winner().is_some() {
            return true;
        }
        let mut i: usize = 0;
        while i < 9
            invariant
                i <= 9,
                winner_of(self@.board) is None,
                forall|j: int| 0 <= j < i ==> self@.board[j] != Player::Empty,
            decreases 9 - i,
        {
            if self.board[i] == Player::Empty {
                assert(self@.board[i as int] == Player::Empty);
                return false;
            }
            i += 1;
        }
        true
    }
}

} // verus!
