use vstd::prelude::*;
use crate::game::{Game, GameScore, Point};

verus! {

/// The level that follows `p` in the order love, fifteen, thirty, forty,
/// advantage, game; game is the last.
pub open spec fn next(p: Point) -> Point {
    match p {
        Point::P0 => Point::P15,
        Point::P15 => Point::P30,
        Point::P30 => Point::P40,
        Point::P40 => Point::PAdv,
        Point::PAdv => Point::PWin,
        Point::PWin => Point::PWin,
    }
}

/// The level of the player who won the rally.
pub open spec fn scorer_level(g: Game, update: GameScore) -> Point {
    match update {
        GameScore::P1 => g.player_1,
        GameScore::P2 => g.player_2,
    }
}

/// The level of the player who lost the rally.
pub open spec fn opponent_level(g: Game, update: GameScore) -> Point {
    match update {
        GameScore::P1 => g.player_2,
        GameScore::P2 => g.player_1,
    }
}

/// Applying an event to a game has one possible result: two results of the
/// same game and event are the same game.
pub proof fn lemma_score_deterministic(g: Game, update: GameScore, a: Game, b: Game)
    requires
        g.scores_to(update, a),
        g.scores_to(update, b),
    ensures
        a == b,
{
}

/// A decided game absorbs every event: its levels and outcome stay as they
/// are.
pub proof fn lemma_decided_game_unchanged(g: Game, update: GameScore, post: Game)
    requires
        g.result !is OnGoing,
        g.scores_to(update, post),
    ensures
        post == g,
{
}

/// In a game still in progress one rally does exactly one of three things:
/// the scorer moves up one level while the opponent stays; the scorer takes
/// the game and the opponent drops to love; or, at forty against advantage,
/// the scorer stays at forty and the opponent falls back to forty.
pub proof fn lemma_single_step(g: Game, update: GameScore, post: Game)
    requires
        g.wf(),
        g.result is OnGoing,
        g.scores_to(update, post),
    ensures
        ({
            let s = scorer_level(g, update);
            let o = opponent_level(g, update);
            let s2 = scorer_level(post, update);
            let o2 = opponent_level(post, update);
            ||| s2 == next(s) && o2 == o
            ||| s2 is PWin && o2 is P0
            ||| s is P40 && o is PAdv && s2 is P40 && o2 is P40
        }),
{
}

/// After any event applied to a well-formed game the outcome names player
/// one exactly when player one holds the game, player two likewise, and the
/// game is in progress exactly when neither does.
pub proof fn lemma_outcome_consistent(g: Game, update: GameScore, post: Game)
    requires
        g.wf(),
        g.scores_to(update, post),
    ensures
        post.wf(),
        post.result is P1Win <==> post.player_1 is PWin,
        post.result is P2Win <==> post.player_2 is PWin,
        post.result is OnGoing <==> !(post.player_1 is PWin) && !(post.player_2 is PWin),
{
}

} // verus!
