//! What holds of every game, stated over the model of the game and proved.

use crate::decimal::{decimal_text, digit_char};
use crate::guess_number::game::{respond, GameModel, Response};
use crate::guess_number::text::{
    all_digits, digit_value, digits_value, in_range, integer_text, is_digit, is_space,
    spec_parse_guess, trim_end, trim_start, trimmed, ParseError,
};
use vstd::prelude::*;

verus! {

/// A number written in base ten is made of digits, at least one, and
/// denotes that number.
pub proof fn lemma_decimal_text_denotes(n: nat)
    ensures
        decimal_text(n).len() > 0,
        all_digits(decimal_text(n)),
        digits_value(decimal_text(n)) == n,
    decreases n,
{
    let text = decimal_text(n);
    if n < 10 {
        assert(text.drop_last() =~= Seq::<char>::empty());
        assert(digits_value(text.drop_last()) == 0);
        assert(digit_value(text.last()) == n);
    } else {
        lemma_decimal_text_denotes(n / 10);
        assert(text.drop_last() =~= decimal_text(n / 10));
        assert(text.last() == digit_char(n % 10));
        assert(digit_value(text.last()) == n % 10);
        assert forall|i: int| 0 <= i < text.len() implies is_digit(#[trigger] text[i]) by {
            if i < text.len() - 1 {
                assert(text[i] == decimal_text(n / 10)[i]);
            }
        }
    }
}

/// A guess written in base ten is read back as that guess.
pub proof fn law_decimal_text_is_read_back(guess: u8)
    requires
        in_range(guess as int),
    ensures
        spec_parse_guess(decimal_text(guess as nat)) == Ok::<u8, ParseError>(guess),
{
    let text = decimal_text(guess as nat);
    lemma_decimal_text_denotes(guess as nat);
    assert(is_digit(text[0]));
    assert(is_digit(text[text.len() - 1]));
    assert(!is_space(text[0]));
    assert(!is_space(text.last()));
    assert(trim_start(text) == text);
    assert(trim_end(text) == text);
    assert(trimmed(text) == text);
    assert(integer_text(text) == Some(guess as int));
}

/// In a game with the secret `secret`, the line that holds `secret` in base
/// ten gets the response `Correct`.
pub proof fn law_secret_in_decimal_is_correct(secret: u8)
    requires
        in_range(secret as int),
    ensures
        respond(secret, decimal_text(secret as nat)) == Response::Correct,
        GameModel::fresh(secret).step(decimal_text(secret as nat)).won,
{
    law_decimal_text_is_read_back(secret);
}

/// In a game that has just begun, a first line that holds the secret gets
/// the response `Correct` and wins the game: it is the only line read, and
/// whatever follows it is not.
pub proof fn law_secret_wins_at_once(secret: u8, line: Seq<char>, later: Seq<Seq<char>>)
    requires
        in_range(secret as int),
        spec_parse_guess(line) == Ok::<u8, ParseError>(secret),
    ensures
        respond(secret, line) == Response::Correct,
        GameModel::fresh(secret).step(line).won,
        GameModel::fresh(secret).run(seq![line] + later).won,
        GameModel::fresh(secret).run(seq![line] + later).attempts == seq![secret],
        GameModel::fresh(secret).transcript(seq![line] + later) == seq![Response::Correct],
{
    let game = GameModel::fresh(secret);
    let lines = seq![line] + later;
    let first = lines.take(1);
    assert(first.drop_last() =~= Seq::<Seq<char>>::empty());
    assert(first.last() == line);
    assert(game.run(first.drop_last()) == game);
    assert(game.transcript(first.drop_last()) =~= Seq::<Response>::empty());
    assert(game.run(first) == game.step(line));
    assert(game.step(line).attempts =~= seq![secret]);
    assert(game.transcript(first) =~= seq![Response::Correct]);
    game.lemma_won_is_final(lines, 1);
}

/// A guess below the secret gets the response `TooLow`, one above it
/// `TooHigh`; either is recorded, and the game is not won by it.
pub proof fn law_low_and_high(game: GameModel, line: Seq<char>, guess: u8)
    requires
        spec_parse_guess(line) == Ok::<u8, ParseError>(guess),
        guess != game.secret,
    ensures
        guess < game.secret ==> respond(game.secret, line) == Response::TooLow,
        guess > game.secret ==> respond(game.secret, line) == Response::TooHigh,
        !game.step(line).won,
        game.step(line).secret == game.secret,
        game.step(line).attempts == game.attempts.push(guess),
{
}

/// A line that does not denote an integer gets the response `Invalid` and
/// leaves the game as it was: the secret, the guesses and whether it is won.
pub proof fn law_non_integer_is_invalid(game: GameModel, line: Seq<char>)
    requires
        integer_text(trimmed(line)) is None,
    ensures
        respond(game.secret, line) == Response::Invalid,
        game.step(line) == game,
{
}

/// A line that denotes an integer outside `[1, 100]` gets the response
/// `Invalid` and leaves the game as it was.
pub proof fn law_out_of_range_is_invalid(game: GameModel, line: Seq<char>, value: int)
    requires
        integer_text(trimmed(line)) == Some(value),
        !in_range(value),
    ensures
        respond(game.secret, line) == Response::Invalid,
        game.step(line) == game,
{
}

/// The response to a line is `Invalid` exactly when the line holds no
/// guess, and then the line changes nothing.
pub proof fn law_invalid_iff_no_guess(game: GameModel, line: Seq<char>)
    ensures
        respond(game.secret, line) == Response::Invalid <==> spec_parse_guess(line) is Err,
        respond(game.secret, line) == Response::Invalid ==> game.step(line) == game,
{
}

/// However many lines without a guess are fed, and whichever, the game
/// stays as it was: the secret is the same, no guess is recorded and the
/// game is no nearer to its end. Each of them is answered with `Invalid`.
pub proof fn law_invalid_lines_change_nothing(game: GameModel, lines: Seq<Seq<char>>)
    requires
        forall|i: int| 0 <= i < lines.len() ==> spec_parse_guess(#[trigger] lines[i]) is Err,
    ensures
        game.run(lines) == game,
        !game.won ==> game.transcript(lines).len() == lines.len(),
        game.won ==> game.transcript(lines).len() == 0,
        forall|i: int|
            0 <= i < game.transcript(lines).len() ==> #[trigger] game.transcript(lines)[i]
                == Response::Invalid,
    decreases lines.len(),
{
    if lines.len() > 0 {
        law_invalid_lines_change_nothing(game, lines.drop_last());
        assert(spec_parse_guess(lines[lines.len() - 1]) is Err);
    }
}

/// The secret of a game never changes, whatever is fed to it.
pub proof fn law_secret_never_changes(game: GameModel, lines: Seq<Seq<char>>)
    ensures
        game.run(lines).secret == game.secret,
{
    game.lemma_run_keeps_secret(lines);
}

/// A game is won if and only if some accepted guess equals the secret.
pub proof fn law_won_iff_secret_guessed(game: GameModel)
    requires
        game.wf(),
    ensures
        game.won <==> game.attempts.contains(game.secret),
{
    if game.won {
        assert(game.attempts[game.attempts.len() - 1] == game.secret);
    }
    if game.attempts.contains(game.secret) {
        let i = choose|i: int| 0 <= i < game.attempts.len() && game.attempts[i] == game.secret;
        assert(i == game.attempts.len() - 1);
    }
}

/// As long as the game is not won, every line is read and answered; the
/// responses before the last are never `Correct`, and the last is `Correct`
/// exactly when the game ends won.
pub proof fn law_transcript_shape(game: GameModel, lines: Seq<Seq<char>>)
    requires
        !game.won,
    ensures
        game.transcript(lines).len() <= lines.len(),
        forall|i: int|
            0 <= i < game.transcript(lines).len() ==> #[trigger] game.transcript(lines)[i]
                == respond(game.secret, lines[i]),
        forall|i: int|
            0 <= i < game.transcript(lines).len() - 1 ==> #[trigger] game.transcript(lines)[i]
                != Response::Correct,
        game.run(lines).won <==> (game.transcript(lines).len() > 0 && game.transcript(
            lines,
        ).last() == Response::Correct),
        !game.run(lines).won ==> game.transcript(lines).len() == lines.len(),
    decreases lines.len(),
{
    if lines.len() > 0 {
        let shorter = lines.drop_last();
        law_transcript_shape(game, shorter);
        game.lemma_run_keeps_secret(shorter);
    }
}

} // verus!
