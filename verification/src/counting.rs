use vstd::prelude::*;

use crate::mention::{decimal, mention_text, user_mention};
use crate::reply::{opt_view, Reaction, Reply};
use crate::text::{parse_i64, parsed_i64};

verus! {

/// How a message in the counting channel was taken.
#[derive(Debug, Clone, Copy, PartialEq, Eq, Structural)]
pub enum CountOutcome {
    /// The message is not a number.
    NotANumber,
    /// A 0 while the count stands at 0: the count starts with 1.
    StartWithOne,
    /// The author of the last number tried to count again.
    CountedTwice,
    /// The number was the next one; it is the count now.
    Counted,
    /// Any other number: the count starts over.
    WrongIncrement,
}

/// The state of the counting game, as a mathematical value.
pub struct CountView {
    /// The last number counted (0 before the first).
    pub current: int,
    /// Who counted it.
    pub last_author: Option<u64>,
}

/// The counting game: members count up by one, one number per message, and
/// nobody counts twice in a row.
pub struct CountingGame {
    current: i64,
    last_author: Option<u64>,
}

impl View for CountingGame {
    type V = CountView;

    closed spec fn view(&self) -> CountView {
        CountView { current: self.current as int, last_author: self.last_author }
    }
}

/// The state of a fresh game.
pub open spec fn count_start() -> CountView {
    CountView { current: 0, last_author: None }
}

/// What the game makes of `number` (`None` when the message is not a number)
/// from `author`: the next state and the outcome.
pub open spec fn count_step(g: CountView, number: Option<i64>, author: u64) -> (CountView, CountOutcome) {
    match number {
        None => (g, CountOutcome::NotANumber),
        Some(n) => if g.current == 0 && n == 0 {
            (g, CountOutcome::StartWithOne)
        } else if g.last_author == Some(author) {
            (g, CountOutcome::CountedTwice)
        } else if n - g.current == 1 {
            (CountView { current: n as int, last_author: Some(author) }, CountOutcome::Counted)
        } else {
            (count_start(), CountOutcome::WrongIncrement)
        },
    }
}

/// What holds of every state the game reaches: the count is never negative,
/// and someone counted last exactly when it is not 0.
pub open spec fn count_invariant(g: CountView) -> bool {
    &&& g.current >= 0
    &&& (g.current == 0 <==> g.last_author is None)
}

impl CountingGame {
    /// A game that has not started: the count stands at 0.
    pub fn new() -> (g: CountingGame)
        ensures
            g@ == count_start(),
    {
        CountingGame { current: 0, last_author: None }
    }

    /// The last number counted.
    pub fn current(&self) -> (n: i64)
        ensures
            n == self@.current,
    {
        self.current
    }

    /// Who counted the last number.
    pub fn last_author(&self) -> (a: Option<u64>)
        ensures
            a == self@.last_author,
    {
        self.last_author
    }

    /// Takes a message that reads as `number` (`None`: not a number) from `author`.
    pub fn submit_number(&mut self, number: Option<i64>, author: u64) -> (r: CountOutcome)
        ensures
            (final(self)@, r) == count_step(old(self)@, number, author),
    {
        match number {
            None => CountOutcome::NotANumber,
            Some(n) => {
                if self.current == 0 && n == 0 {
                    CountOutcome::StartWithOne
                } else if self.last_author == Some(author) {
                    CountOutcome::CountedTwice
                } else if self.current < i64::MAX && n == self.current + 1 {
                    self.current = n;
                    self.last_author = Some(author);
                    CountOutcome::Counted
                } else {
                    self.current = 0;
                    self.last_author = None;
                    CountOutcome::WrongIncrement
                }
            },
        }
    }

    /// Takes the message `content` from `author`: its number is what
    /// `content.parse::<i64>()` gives.
    pub fn submit(&mut self, content: &str, author: u64) -> (r: CountOutcome)
        ensures
            (final(self)@, r) == count_step(old(self)@, parsed_i64(content@), author),
    {
        let number = parse_i64(content);
        self.submit_number(number, author)
    }
}

/// The notice that answers `outcome` for `author`.
pub open spec fn counting_notice(outcome: CountOutcome, author: u64) -> Option<Seq<char>> {
    match outcome {
        CountOutcome::NotANumber => Some(mention_text(author) + " you can only type numbers."@),
        CountOutcome::StartWithOne => Some(mention_text(author) + " You can only start with 1."@),
        CountOutcome::CountedTwice => Some(mention_text(author) + " You can't count twice."@),
        CountOutcome::Counted => None,
        CountOutcome::WrongIncrement => Some(
            mention_text(author) + " You can only increment the number by 1."@,
        ),
    }
}

/// Whether `r` answers `outcome` for the message of `author`: ✅ on a counted
/// number; otherwise ❌ and a notice that mentions the author, and, unless the
/// message was not a number, the message is deleted with the notice.
pub open spec fn is_counting_reply(r: Reply, outcome: CountOutcome, author: u64) -> bool {
    &&& r.reaction == (if outcome == CountOutcome::Counted {
        Reaction::Approve
    } else {
        Reaction::Reject
    })
    &&& opt_view(r.notice) == counting_notice(outcome, author)
    &&& r.delete_original == (outcome != CountOutcome::Counted && outcome != CountOutcome::NotANumber)
    &&& r.announcement is None
}

/// The bot's answer to `outcome` for the message of `author`.
pub fn counting_reply(outcome: CountOutcome, author: u64) -> (r: Reply)
    requires
        author != 0,
    ensures
        is_counting_reply(r, outcome, author),
{
    match outcome {
        CountOutcome::Counted => Reply {
            reaction: Reaction::Approve,
            notice: None,
            delete_original: false,
            announcement: None,
        },
        CountOutcome::NotANumber => Reply {
            reaction: Reaction::Reject,
            notice: Some(user_mention(author).concat(" you can only type numbers.")),
            delete_original: false,
            announcement: None,
        },
        CountOutcome::StartWithOne => Reply {
            reaction: Reaction::Reject,
            notice: Some(user_mention(author).concat(" You can only start with 1.")),
            delete_original: true,
            announcement: None,
        },
        CountOutcome::CountedTwice => Reply {
            reaction: Reaction::Reject,
            notice: Some(user_mention(author).concat(" You can't count twice.")),
            delete_original: true,
            announcement: None,
        },
        CountOutcome::WrongIncrement => Reply {
            reaction: Reaction::Reject,
            notice: Some(user_mention(author).concat(" You can only increment the number by 1.")),
            delete_original: true,
            announcement: None,
        },
    }
}

/// Every step keeps the game's invariant, whatever the message.
pub proof fn lemma_step_keeps_invariant(g: CountView, number: Option<i64>, author: u64)
    requires
        count_invariant(g),
    ensures
        count_invariant(count_step(g, number, author).0),
{
}

/// The invariant holds from the start.
pub proof fn lemma_start_satisfies_invariant()
    ensures
        count_invariant(count_start()),
{
}

/// Nobody counts twice in a row: a number from the author of the last one is
/// never counted.
pub proof fn lemma_no_double_count(g: CountView, number: Option<i64>, author: u64)
    requires
        g.last_author == Some(author),
    ensures
        count_step(g, number, author).1 != CountOutcome::Counted,
{
}

/// A counted number is one more than the count before it, and its author is
/// the last to have counted.
pub proof fn lemma_counted_is_next(g: CountView, number: Option<i64>, author: u64)
    requires
        count_step(g, number, author).1 == CountOutcome::Counted,
    ensures
        count_step(g, number, author).0.current == g.current + 1,
        count_step(g, number, author).0.last_author == Some(author),
        number == Some((g.current + 1) as i64),
{
}

/// A wrong number starts the count over; every other refusal leaves the game
/// as it was.
pub proof fn lemma_refusals(g: CountView, number: Option<i64>, author: u64)
    ensures
        count_step(g, number, author).1 == CountOutcome::WrongIncrement ==> count_step(
            g,
            number,
            author,
        ).0 == count_start(),
        count_step(g, number, author).1 != CountOutcome::WrongIncrement
            && count_step(g, number, author).1 != CountOutcome::Counted ==> count_step(
            g,
            number,
            author,
        ).0 == g,
{
}

/// A number from the author of the last counted number leaves the count and
/// its author as they were, whatever the number (but for a 0 before anything
/// was counted, which is refused for that reason first): the member is told
/// they cannot count twice, and the count does not start over.
pub proof fn lemma_same_author_keeps_count(g: CountView, n: i64, author: u64)
    requires
        g.last_author == Some(author),
        !(g.current == 0 && n == 0),
    ensures
        count_step(g, Some(n), author).0 == g,
        count_step(g, Some(n), author).1 == CountOutcome::CountedTwice,
{
}

/// Which outcome a message gets, in terms of the message alone: not a number;
/// a 0 before anything was counted; a number from the last author; the next
/// number from someone else; any other number from someone else.
pub proof fn lemma_outcome_by_input(g: CountView, number: Option<i64>, author: u64)
    ensures
        (count_step(g, number, author).1 == CountOutcome::NotANumber) <==> number is None,
        (count_step(g, number, author).1 == CountOutcome::StartWithOne) <==> (number == Some(0i64)
            && g.current == 0),
        (count_step(g, number, author).1 == CountOutcome::CountedTwice) <==> (number is Some
            && !(g.current == 0 && number->0 == 0) && g.last_author == Some(author)),
        (count_step(g, number, author).1 == CountOutcome::Counted) <==> (number is Some
            && number->0 == g.current + 1 && g.last_author != Some(author)),
        (count_step(g, number, author).1 == CountOutcome::WrongIncrement) <==> (number is Some
            && number->0 != g.current + 1 && !(g.current == 0 && number->0 == 0)
            && g.last_author != Some(author)),
{
}

/// Only a wrong number from someone other than the last author starts the
/// count over; a counted number moves the count to it.
pub proof fn lemma_state_by_input(g: CountView, number: Option<i64>, author: u64)
    ensures
        count_step(g, number, author).0.current == 0 && count_step(g, number, author).0.last_author
            is None <== (number is Some && number->0 != g.current + 1 && !(g.current == 0
            && number->0 == 0) && g.last_author != Some(author)),
        (number is None || g.last_author == Some(author) || (g.current == 0 && number == Some(
            0i64,
        ))) ==> count_step(g, number, author).0 == g,
        (number is Some && number->0 == g.current + 1 && g.last_author != Some(author)) ==> (
        count_step(g, number, author).0.current == number->0 && count_step(
            g,
            number,
            author,
        ).0.last_author == Some(author)),
{
}

/// What the bot answers to each outcome: a counted number gets ✅ and
/// nothing else; every refusal gets ❌ and a notice that begins by mentioning
/// the member, and the message is deleted with it for all refusals but "not a
/// number".
pub proof fn lemma_counting_answers(r: Reply, outcome: CountOutcome, author: u64)
    requires
        is_counting_reply(r, outcome, author),
    ensures
        r.announcement is None,
        outcome == CountOutcome::Counted ==> r.reaction == Reaction::Approve && r.notice is None
            && !r.delete_original,
        outcome != CountOutcome::Counted ==> r.reaction == Reaction::Reject,
        r.delete_original <==> (outcome == CountOutcome::StartWithOne || outcome
            == CountOutcome::CountedTwice || outcome == CountOutcome::WrongIncrement),
        outcome == CountOutcome::NotANumber ==> opt_view(r.notice) == Some(
            seq!['<', '@'] + decimal(author as nat) + seq!['>'] + " you can only type numbers."@,
        ),
        outcome == CountOutcome::StartWithOne ==> opt_view(r.notice) == Some(
            seq!['<', '@'] + decimal(author as nat) + seq!['>'] + " You can only start with 1."@,
        ),
        outcome == CountOutcome::CountedTwice ==> opt_view(r.notice) == Some(
            seq!['<', '@'] + decimal(author as nat) + seq!['>'] + " You can't count twice."@,
        ),
        outcome == CountOutcome::WrongIncrement ==> opt_view(r.notice) == Some(
            seq!['<', '@'] + decimal(author as nat) + seq!['>']
                + " You can only increment the number by 1."@,
        ),
{
}

} // verus!
