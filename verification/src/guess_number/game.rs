//! The game itself: its state, the response to each line of input, and the
//! transition that a line causes.

use crate::guess_number::text::{in_range, parse_guess, spec_parse_guess, SECRET_MAX, SECRET_MIN};
use vstd::prelude::*;

verus! {

/// What the game answers to one line of input.
#[derive(Clone, Copy, Debug, PartialEq, Eq, Structural)]
pub enum Response {
    /// The line holds no guess in `[1, 100]`; nothing changes.
    Invalid,
    /// The guess is smaller than the secret.
    TooLow,
    /// The guess is larger than the secret.
    TooHigh,
    /// The guess is the secret; the game is won.
    Correct,
}

/// Why a game cannot go on. A line that holds no guess is no such reason:
/// it is answered with `Response::Invalid` and the game goes on.
#[derive(Clone, Copy, Debug, PartialEq, Eq, Structural)]
pub enum GameError {
    /// The input has come to its end, or cannot be read: no further guess
    /// can arrive.
    InputEnded,
}

impl GameError {
    /// The text shown when the game is given up.
    pub fn message(self) -> (text: &'static str)
        ensures
            text@ == "读取输入失败"@,
    {
        "读取输入失败"
    }
}

/// How an accepted guess stands to the secret.
pub open spec fn spec_compare_guess(guess: u8, secret: u8) -> Response {
    if guess < secret {
        Response::TooLow
    } else if guess > secret {
        Response::TooHigh
    } else {
        Response::Correct
    }
}

/// The response to a line of input in a game with the given secret.
pub open spec fn respond(secret: u8, line: Seq<char>) -> Response {
    match spec_parse_guess(line) {
        Err(_) => Response::Invalid,
        Ok(guess) => spec_compare_guess(guess, secret),
    }
}

/// A game as a mathematical value: the secret, the guesses accepted so far
/// in the order they came, and whether the game is won.
pub struct GameModel {
    pub secret: u8,
    pub attempts: Seq<u8>,
    pub won: bool,
}

impl GameModel {
    /// A game that has just begun.
    pub open spec fn fresh(secret: u8) -> GameModel {
        GameModel { secret, attempts: Seq::empty(), won: false }
    }

    /// The invariant of every game: the secret and all accepted guesses lie
    /// in `[1, 100]`, no guess but the last one equals the secret, and the
    /// game is won exactly when the last one does.
    pub open spec fn wf(self) -> bool {
        &&& in_range(self.secret as int)
        &&& forall|i: int| 0 <= i < self.attempts.len() ==> in_range(#[trigger] self.attempts[i] as int)
        &&& forall|i: int| 0 <= i < self.attempts.len() - 1 ==> #[trigger] self.attempts[i] != self.secret
        &&& self.won <==> (self.attempts.len() > 0 && self.attempts.last() == self.secret)
    }

    /// The game after one more line of input: an accepted guess is
    /// recorded, and wins the game where it equals the secret; any other
    /// line leaves the game as it is.
    pub open spec fn step(self, line: Seq<char>) -> GameModel {
        match spec_parse_guess(line) {
            Err(_) => self,
            Ok(guess) => GameModel {
                secret: self.secret,
                attempts: self.attempts.push(guess),
                won: guess == self.secret,
            },
        }
    }

    /// The game after a sequence of lines, fed in order for as long as the
    /// game is not won; what follows the winning line is not read.
    pub open spec fn run(self, lines: Seq<Seq<char>>) -> GameModel
        decreases lines.len(),
    {
        if lines.len() == 0 {
            self
        } else {
            let before = self.run(lines.drop_last());
            if before.won {
                before
            } else {
                before.step(lines.last())
            }
        }
    }

    /// The responses to a sequence of lines, one for each line that was
    /// read: see `run`.
    pub open spec fn transcript(self, lines: Seq<Seq<char>>) -> Seq<Response>
        decreases lines.len(),
    {
        if lines.len() == 0 {
            Seq::empty()
        } else {
            let before = self.run(lines.drop_last());
            let said = self.transcript(lines.drop_last());
            if before.won {
                said
            } else {
                said.push(respond(self.secret, lines.last()))
            }
        }
    }
}

impl GameModel {
    /// Feeding lines never changes the secret.
    pub proof fn lemma_run_keeps_secret(self, lines: Seq<Seq<char>>)
        ensures
            self.run(lines).secret == self.secret,
        decreases lines.len(),
    {
        if lines.len() > 0 {
            self.lemma_run_keeps_secret(lines.drop_last());
        }
    }

    /// Feeding lines keeps the invariant.
    pub proof fn lemma_run_keeps_wf(self, lines: Seq<Seq<char>>)
        requires
            self.wf(),
        ensures
            self.run(lines).wf(),
        decreases lines.len(),
    {
        if lines.len() > 0 {
            self.lemma_run_keeps_wf(lines.drop_last());
        }
    }

    /// Once the first `count` lines have won the game, the lines after
    /// them change neither the game nor the responses.
    pub proof fn lemma_won_is_final(self, lines: Seq<Seq<char>>, count: int)
        requires
            0 <= count <= lines.len(),
            self.run(lines.take(count)).won,
        ensures
            self.run(lines) == self.run(lines.take(count)),
            self.transcript(lines) == self.transcript(lines.take(count)),
        decreases lines.len() - count,
    {
        if count == lines.len() {
            assert(lines.take(count) =~= lines);
        } else {
            let shorter = lines.drop_last();
            assert(shorter.take(count) =~= lines.take(count));
            self.lemma_won_is_final(shorter, count);
        }
    }
}

/// The text of each line of a list of lines.
pub open spec fn texts(lines: Seq<String>) -> Seq<Seq<char>> {
    lines.map_values(|line: String| line@)
}

/// Compares an accepted guess with the secret.
pub fn compare_guess(guess: u8, secret: u8) -> (r: Response)
    ensures
        r == spec_compare_guess(guess, secret),
{
    if guess < secret {
        Response::TooLow
    } else if guess > secret {
        Response::TooHigh
    } else {
        Response::Correct
    }
}

impl Response {
    /// The text shown to the player for this response.
    pub fn message(self) -> (text: &'static str)
        ensures
            self == Response::Invalid ==> text@ == "请输入1-100之间的数字"@,
            self == Response::TooLow ==> text@ == "猜小了!"@,
            self == Response::TooHigh ==> text@ == "猜大了!"@,
            self == Response::Correct ==> text@ == "猜对了!"@,
    {
        match self {
            Response::Invalid => "请输入1-100之间的数字",
            Response::TooLow => "猜小了!",
            Response::TooHigh => "猜大了!",
            Response::Correct => "猜对了!",
        }
    }
}

/// The line that opens a game.
pub fn greeting() -> (text: &'static str)
    ensures
        text@ == "Guess the number!"@,
{
    "Guess the number!"
}

/// The line that asks for the next guess.
pub fn prompt() -> (text: &'static str)
    ensures
        text@ == "请输入一个1-100之间的数字"@,
{
    "请输入一个1-100之间的数字"
}

/// Draws a number from `low` to `high`, both included, by
/// `rand::Rng::gen_range` on the generator that `rand::thread_rng` gives.
/// The contract claims only that the number lies in that range: which one
/// it is differs from call to call. The range is not empty, so `gen_range`
/// does not panic on it. `thread_rng` itself panics where the operating
/// system cannot seed the generator; nothing a caller passes decides that.
#[verifier::external_body]
fn random_in_range(low: u8, high: u8) -> (r: u8)
    requires
        low <= high,
    ensures
        low <= r <= high,
{
    rand::Rng::gen_range(&mut rand::thread_rng(), low..=high)
}

/// A running or finished game.
pub struct GameState {
    secret: u8,
    attempts: Vec<u8>,
    won: bool,
}

impl View for GameState {
    type V = GameModel;

    closed spec fn view(&self) -> GameModel {
        GameModel { secret: self.secret, attempts: self.attempts@, won: self.won }
    }
}

impl GameState {
    /// Whether the game satisfies the invariant of its model.
    pub open spec fn wf(&self) -> bool {
        self@.wf()
    }

    /// Begins a game with a given secret. Gives `None` where the secret
    /// does not lie in `[1, 100]`.
    pub fn with_secret(secret: u8) -> (r: Option<GameState>)
        ensures
            r is Some <==> in_range(secret as int),
            r matches Some(game) ==> game.wf() && game@ == GameModel::fresh(secret),
    {
        if SECRET_MIN <= secret && secret <= SECRET_MAX {
            Some(GameState { secret, attempts: Vec::new(), won: false })
        } else {
            None
        }
    }

    /// Begins a game with a secret drawn at random from `[1, 100]`.
    pub fn start() -> (game: GameState)
        ensures
            game.wf(),
            game@ == GameModel::fresh(game@.secret),
    {
        let secret = random_in_range(SECRET_MIN, SECRET_MAX);
        GameState { secret, attempts: Vec::new(), won: false }
    }

    /// The secret of this game.
    pub fn secret(&self) -> (r: u8)
        ensures
            r == self@.secret,
    {
        self.secret
    }

    /// The guesses accepted so far, oldest first.
    pub fn attempts(&self) -> (r: &Vec<u8>)
        ensures
            r@ == self@.attempts,
    {
        &self.attempts
    }

    /// Whether the game is won.
    pub fn is_won(&self) -> (r: bool)
        ensures
            r == self@.won,
    {
        self.won
    }

    /// Feeds one line of input to a game that is not won, and gives the
    /// response to it. An accepted guess is recorded; a line that holds no
    /// guess leaves the game unchanged.
    pub fn guess(&mut self, line: &str) -> (r: Response)
        requires
            old(self).wf(),
            !old(self)@.won,
        ensures
            final(self).wf(),
            final(self)@ == old(self)@.step(line@),
            r == respond(old(self)@.secret, line@),
            final(self)@.won <==> r == Response::Correct,
    {
        match parse_guess(line) {
            Err(_) => Response::Invalid,
            Ok(guess) => {
                let r = compare_guess(guess, self.secret);
                self.attempts.push(guess);
                self.won = guess == self.secret;
                r
            },
        }
    }

    /// Takes what one attempt to read a line has brought, in a game that is
    /// not won: a line, which is answered as `guess` answers it, or `None`
    /// where the input has ended, which ends the game with an error and
    /// leaves it unchanged. No line, whatever it holds, gives an error.
    pub fn advance(&mut self, input: Option<&str>) -> (r: Result<Response, GameError>)
        requires
            old(self).wf(),
            !old(self)@.won,
        ensures
            final(self).wf(),
            match input {
                Some(line) => r == Ok::<Response, GameError>(respond(old(self)@.secret, line@))
                    && final(self)@ == old(self)@.step(line@),
                None => r == Err::<Response, GameError>(GameError::InputEnded) && final(self)@
                    == old(self)@,
            },
    {
        match input {
            Some(line) => Ok(self.guess(line)),
            None => Err(GameError::InputEnded),
        }
    }

    /// Feeds the lines in order for as long as the game is not won, and
    /// gives the response to each line that was read. Lines after the
    /// winning one are not read; a game that is won already reads none.
    pub fn play(&mut self, lines: &Vec<String>) -> (said: Vec<Response>)
        requires
            old(self).wf(),
        ensures
            final(self).wf(),
            final(self)@ == old(self)@.run(texts(lines@)),
            said@ == old(self)@.transcript(texts(lines@)),
    {
        let mut said: Vec<Response> = Vec::new();
        let mut at: usize = 0;
        let ghost all = texts(lines@);
        while at < lines.len() && !self.won
            invariant
                at <= lines.len(),
                all == texts(lines@),
                self.wf(),
                self@ == old(self)@.run(all.take(at as int)),
                said@ == old(self)@.transcript(all.take(at as int)),
            decreases lines.len() - at,
        {
            proof {
                old(self)@.lemma_run_keeps_secret(all.take(at as int));
                assert(all.take(at + 1).drop_last() =~= all.take(at as int));
                assert(all.take(at + 1).last() == lines@[at as int]@);
            }
            let r = self.guess(lines[at].as_str());
            said.push(r);
            at += 1;
        }
        proof {
            if at < lines.len() {
                old(self)@.lemma_won_is_final(all, at as int);
            } else {
                assert(all.take(at as int) =~= all);
            }
        }
        said
    }
}

} // verus!
