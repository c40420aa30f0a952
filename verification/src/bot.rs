use vstd::prelude::*;

use crate::commands::{
    command_named, command_of, first_user_valid, is_schedule_plan, message_route, route_message,
    schedule_options, scheduled_messages_run, story_command, story_run, therock_run, therock_text,
    warn_run, warn_text, Command, OptionValue, Route, SchedulePlan,
};
use crate::counting::{
    count_invariant, count_start, count_step, counting_reply, is_counting_reply,
    lemma_start_satisfies_invariant, lemma_step_keeps_invariant, CountView, CountingGame,
};
use crate::reply::Reply;
use crate::story::{
    is_story_reply, lemma_start_satisfies_story_invariant, lemma_story_step_keeps_invariant,
    story_invariant, story_start, story_step, StoryState, StoryView,
};
use crate::text::parsed_i64;

verus! {

/// The state of the whole bot, as a mathematical value.
pub struct BotView {
    pub counting: CountView,
    pub story: StoryView,
}

/// Everything the bot remembers between events: the counting game and the
/// story.
pub struct Bot {
    counting: CountingGame,
    story: StoryState,
}

impl View for Bot {
    type V = BotView;

    closed spec fn view(&self) -> BotView {
        BotView { counting: self.counting@, story: self.story@ }
    }
}

/// The state after a message `content` from `author` in `channel`.
pub open spec fn message_step(
    v: BotView,
    channel: u64,
    from_self: bool,
    content: Seq<char>,
    author: u64,
) -> BotView {
    match message_route(channel, from_self) {
        Route::Ignore => v,
        Route::Counting => BotView {
            counting: count_step(v.counting, parsed_i64(content), author).0,
            story: v.story,
        },
        Route::Story => BotView { counting: v.counting, story: story_step(v.story, content, author).0 },
    }
}

/// The state after the slash command `name` with `options`.
pub open spec fn command_step(v: BotView, name: Seq<char>, options: Seq<OptionValue>) -> BotView {
    if command_of(name) == Some(Command::Story) {
        BotView { counting: v.counting, story: story_command(options, v.story).1 }
    } else {
        v
    }
}

/// What holds of every state the bot reaches: the invariants of both games.
pub open spec fn bot_invariant(v: BotView) -> bool {
    count_invariant(v.counting) && story_invariant(v.story)
}

/// The bot starts in a state that satisfies its invariant.
pub proof fn lemma_bot_starts_well()
    ensures
        bot_invariant(BotView { counting: count_start(), story: story_start() }),
{
    lemma_start_satisfies_invariant();
    lemma_start_satisfies_story_invariant();
}

/// Every message keeps the bot's invariant.
pub proof fn lemma_message_keeps_invariant(
    v: BotView,
    channel: u64,
    from_self: bool,
    content: Seq<char>,
    author: u64,
)
    requires
        bot_invariant(v),
    ensures
        bot_invariant(message_step(v, channel, from_self, content, author)),
{
    lemma_step_keeps_invariant(v.counting, parsed_i64(content), author);
    lemma_story_step_keeps_invariant(v.story, content, author);
}

/// Every slash command keeps the bot's invariant.
pub proof fn lemma_command_keeps_invariant(v: BotView, name: Seq<char>, options: Seq<OptionValue>)
    requires
        bot_invariant(v),
    ensures
        bot_invariant(command_step(v, name, options)),
{
    lemma_start_satisfies_story_invariant();
}

/// Messages of the bot itself, and messages outside the counting channel and
/// the story channel, change nothing; a message in one game's channel leaves
/// the other game as it was.
pub proof fn lemma_messages_reach_one_game(
    v: BotView,
    channel: u64,
    from_self: bool,
    content: Seq<char>,
    author: u64,
)
    ensures
        (from_self || (channel != 1241105245791322203u64 && channel != 1239201355722264576u64))
            ==> message_step(v, channel, from_self, content, author) == v,
        (!from_self && channel == 1241105245791322203u64) ==> message_step(
            v,
            channel,
            from_self,
            content,
            author,
        ).story == v.story,
        (!from_self && channel == 1239201355722264576u64) ==> message_step(
            v,
            channel,
            from_self,
            content,
            author,
        ).counting == v.counting,
{
}

/// The answer to a slash command.
#[derive(Debug)]
pub enum CommandAnswer {
    /// A text to answer with at once.
    Text(String),
    /// `/schedule`: a text to answer with at once and a message to post later.
    Schedule(SchedulePlan),
}

impl Bot {
    /// A bot that remembers nothing yet.
    pub fn new() -> (b: Bot)
        ensures
            b@ == (BotView { counting: count_start(), story: story_start() }),
    {
        Bot { counting: CountingGame::new(), story: StoryState::new() }
    }

    /// A message `content` from `author` in `channel` (`from_self`: the bot
    /// wrote it): the game of the channel takes it, and the bot answers;
    /// messages outside the game channels get no answer and change nothing.
    pub fn on_message(&mut self, channel: u64, from_self: bool, content: &str, author: u64) -> (r:
        Option<Reply>)
        requires
            author != 0,
        ensures
            final(self)@ == message_step(old(self)@, channel, from_self, content@, author),
            message_route(channel, from_self) == Route::Ignore ==> r is None && final(self)@ == old(
                self,
            )@,
            message_route(channel, from_self) == Route::Counting ==> {
                let (g, outcome) = count_step(old(self)@.counting, parsed_i64(content@), author);
                &&& final(self)@.counting == g
                &&& final(self)@.story == old(self)@.story
                &&& r matches Some(rep) && is_counting_reply(rep, outcome, author)
            },
            message_route(channel, from_self) == Route::Story ==> {
                let (s, outcome) = story_step(old(self)@.story, content@, author);
                &&& final(self)@.story == s
                &&& final(self)@.counting == old(self)@.counting
                &&& r matches Some(rep) && is_story_reply(rep, outcome, author, s)
            },
    {
        match route_message(channel, from_self) {
            Route::Ignore => None,
            Route::Counting => {
                let outcome = self.counting.submit(content, author);
                Some(counting_reply(outcome, author))
            },
            Route::Story => {
                let outcome = self.story.submit_word(content, author);
                Some(self.story.story_reply(outcome, author))
            },
        }
    }

    /// The slash command `name` with `options`, `name` being one of the four
    /// commands the bot registers. Only `/story end` changes the state.
    pub fn on_command(&mut self, name: &str, options: &[OptionValue]) -> (r: CommandAnswer)
        requires
            command_of(name@) is Some,
            first_user_valid(options@),
            command_of(name@) == Some(Command::Schedule) ==> schedule_options(options@),
        ensures
            final(self)@ == command_step(old(self)@, name@, options@),
            command_of(name@) != Some(Command::Story) ==> final(self)@ == old(self)@,
            command_of(name@) == Some(Command::Warn) ==> (r matches CommandAnswer::Text(t)
                && t@ == warn_text(options@)),
            command_of(name@) == Some(Command::TheRock) ==> (r matches CommandAnswer::Text(t)
                && t@ == therock_text(options@)),
            command_of(name@) == Some(Command::Story) ==> {
                let (text, s) = story_command(options@, old(self)@.story);
                &&& r matches CommandAnswer::Text(t) && t@ == text
                &&& final(self)@.story == s
                &&& final(self)@.counting == old(self)@.counting
            },
            command_of(name@) == Some(Command::Schedule) ==> (r matches CommandAnswer::Schedule(p)
                && is_schedule_plan(p, options@)),
    {
        match command_named(name) {
            Some(Command::Warn) => CommandAnswer::Text(warn_run(options)),
            Some(Command::TheRock) => CommandAnswer::Text(therock_run(options)),
            Some(Command::Story) => CommandAnswer::Text(story_run(options, &mut self.story)),
            Some(Command::Schedule) => CommandAnswer::Schedule(scheduled_messages_run(options)),
            None => {
                assert(false);
                CommandAnswer::Text(String::new())
            },
        }
    }
}

} // verus!
