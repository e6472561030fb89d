use vstd::prelude::*;

verus! {

/// A player's standing within the game, in scoring order.
#[derive(PartialEq, Eq, Structural, Clone, Copy, Debug)]
pub enum Point {
    P0,
    P15,
    P30,
    P40,
    PAdv,
    PWin,
}

/// The new levels of the scoring player and of the opponent, in that order,
/// after the scoring player wins a rally. First matching row wins.
pub open spec fn advance(player: Point, opponent: Point) -> (Point, Point) {
    match (player, opponent) {
        (Point::PWin, _) => (Point::PWin, Point::P0),
        (Point::PAdv, _) => (Point::PWin, Point::P0),
        (Point::P40, Point::PAdv) => (Point::P40, Point::P40),
        (Point::P40, Point::P40) => (Point::PAdv, opponent),
        (Point::P40, _) => (Point::PWin, Point::P0),
        (Point::P30, _) => (Point::P40, opponent),
        (Point::P15, _) => (Point::P30, opponent),
        (Point::P0, _) => (Point::P15, opponent),
    }
}

/// Which side holds the game, if either does.
#[derive(PartialEq, Eq, Structural, Clone, Copy, Debug)]
pub enum GameResult {
    P1Win,
    P2Win,
    OnGoing,
}

/// Which player won the latest rally.
#[derive(PartialEq, Eq, Structural, Clone, Copy, Debug)]
pub enum GameScore {
    P1,
    P2,
}

/// The outcome that the two levels decide: player one first.
pub open spec fn result_of(p1: Point, p2: Point) -> GameResult {
    if p1 is PWin {
        GameResult::P1Win
    } else if p2 is PWin {
        GameResult::P2Win
    } else {
        GameResult::OnGoing
    }
}

/// The levels of both players, player one first, after a rally of a game
/// still in progress.
pub open spec fn levels_after(p1: Point, p2: Point, update: GameScore) -> (Point, Point) {
    match update {
        GameScore::P1 => advance(p1, p2),
        GameScore::P2 => {
            let (n2, n1) = advance(p2, p1);
            (n1, n2)
        },
    }
}

/// One tennis game: both players' levels and the outcome they decide.
#[derive(PartialEq, Eq, Structural, Clone, Copy, Debug)]
pub struct Game {
    pub player_1: Point,
    pub player_2: Point,
    pub result: GameResult,
}

impl Game {
    /// The outcome agrees with the levels, and a player who holds the game
    /// faces an opponent at love.
    pub open spec fn wf(self) -> bool {
        &&& self.result == result_of(self.player_1, self.player_2)
        &&& self.player_1 is PWin ==> self.player_2 is P0
        &&& self.player_2 is PWin ==> self.player_1 is P0
    }

    /// `post` is what `self` becomes when `update` is applied: nothing moves
    /// once the game is decided; otherwise the scorer advances by the rule
    /// table and the outcome is read off the new levels.
    pub open spec fn scores_to(self, update: GameScore, post: Game) -> bool {
        if self.result !is OnGoing {
            post == self
        } else {
            let (n1, n2) = levels_after(self.player_1, self.player_2, update);
            &&& post.player_1 == n1
            &&& post.player_2 == n2
            &&& post.result == result_of(n1, n2)
        }
    }

    /// A fresh game: both players at love, nothing decided.
    pub fn new() -> (g: Game)
        ensures
            g.player_1 is P0,
            g.player_2 is P0,
            g.result is OnGoing,
            g.wf(),
    {
        Game { player_1: Point::P0, player_2: Point::P0, result: GameResult::OnGoing }
    }

    /// Applies one rally won by the player that `update` names. A decided
    /// game is left as it is.
    pub fn score(&mut self, update: &GameScore)
        ensures
            old(self).scores_to(*update, *final(self)),
            old(self).result !is OnGoing ==> *final(self) == *old(self),
            old(self).wf() ==> final(self).wf(),
    {
        if self.result != GameResult::OnGoing {
            return;
        }
        match update {
            GameScore::P1 => {
                let (p1, p2) = Game::adv_score(self.player_1, self.player_2);
                self.player_1 = p1;
                self.player_2 = p2;
            },
            GameScore::P2 => {
                let (p2, p1) = Game::adv_score(self.player_2, self.player_1);
                self.player_1 = p1;
                self.player_2 = p2;
            },
        }
        self.check_winner();
    }

    /// Sets the outcome from the two levels, which stay as they are.
    pub fn check_winner(&mut self)
        ensures
            final(self).player_1 == old(self).player_1,
            final(self).player_2 == old(self).player_2,
            final(self).result == result_of(old(self).player_1, old(self).player_2),
    {
        self.result = match (&self.player_1, &self.player_2) {
            (Point::PWin, _) => GameResult::P1Win,
            (_, Point::PWin) => GameResult::P2Win,
            _ => GameResult::OnGoing,
        };
    }

    /// Computes the rule table of [`advance`] for the scoring player and the
    /// opponent.
    pub fn adv_score(player: Point, opponent: Point) -> (r: (Point, Point))
        ensures
            r == advance(player, opponent),
    {
        match (&player, &opponent) {
            (Point::PWin, _) => (Point::PWin, Point::P0),
            (Point::PAdv, _) => (Point::PWin, Point::P0),
            (Point::P40, Point::PAdv) => (Point::P40, Point::P40),
            (Point::P40, Point::P40) => (Point::PAdv, opponent),
            (Point::P40, _) => (Point::PWin, Point::P0),
            (Point::P30, _) => (Point::P40, opponent),
            (Point::P15, _) => (Point::P30, opponent),
            (Point::P0, _) => (Point::P15, opponent),
        }
    }
}

} // verus!
