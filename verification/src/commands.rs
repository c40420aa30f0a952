use vstd::prelude::*;

use crate::mention::{decimal, lemma_decimal_injective, mention_text, user_mention};
use crate::story::{story_start, story_text, StoryState, StoryView};
use crate::text::{join_words, same_text};

verus! {

/// The server the bot serves.
pub const GUILD_ID: u64 = 1238975924725350430;

/// The channel of the rules, where the reminder is posted.
pub const RULES_CHANNEL_ID: u64 = 1238975924725350433;

/// The channel of the counting game.
pub const COUNTING_CHANNEL_ID: u64 = 1241105245791322203;

/// The channel of the one-word story.
pub const STORY_CHANNEL_ID: u64 = 1239201355722264576;

/// How often the rules reminder is posted: every three hours.
pub const REMINDER_PERIOD_SECS: u64 = 10800;

/// How long a notice (and the reminder) stays before it is deleted.
pub const NOTICE_LIFETIME_SECS: u64 = 5;

/// The emoji of "the rock".
pub const THEROCK_EMOJI: &'static str = "\u{1F5FF}";

/// Which game, if any, a message belongs to.
#[derive(Debug, Clone, Copy, PartialEq, Eq, Structural)]
pub enum Route {
    /// The counting channel.
    Counting,
    /// The story channel.
    Story,
    /// Anywhere else, or a message of the bot itself.
    Ignore,
}

/// The game that a message in `channel` belongs to; the bot's own messages
/// belong to none.
pub open spec fn message_route(channel: u64, from_self: bool) -> Route {
    if from_self {
        Route::Ignore
    } else if channel == COUNTING_CHANNEL_ID {
        Route::Counting
    } else if channel == STORY_CHANNEL_ID {
        Route::Story
    } else {
        Route::Ignore
    }
}

/// The game that a message in `channel` belongs to.
pub fn route_message(channel: u64, from_self: bool) -> (r: Route)
    ensures
        r == message_route(channel, from_self),
{
    if from_self {
        Route::Ignore
    } else if channel == COUNTING_CHANNEL_ID {
        Route::Counting
    } else if channel == STORY_CHANNEL_ID {
        Route::Story
    } else {
        Route::Ignore
    }
}

/// The slash commands of the bot.
#[derive(Debug, Clone, Copy, PartialEq, Eq, Structural)]
pub enum Command {
    /// `/warn`
    Warn,
    /// `/therock`
    TheRock,
    /// `/story`
    Story,
    /// `/schedule`
    Schedule,
}

/// The command called `name`, if there is one.
pub open spec fn command_of(name: Seq<char>) -> Option<Command> {
    if name == "warn"@ {
        Some(Command::Warn)
    } else if name == "therock"@ {
        Some(Command::TheRock)
    } else if name == "story"@ {
        Some(Command::Story)
    } else if name == "schedule"@ {
        Some(Command::Schedule)
    } else {
        None
    }
}

/// The command called `name`, if there is one.
pub fn command_named(name: &str) -> (c: Option<Command>)
    ensures
        c == command_of(name@),
{
    if same_text(name, "warn") {
        Some(Command::Warn)
    } else if same_text(name, "therock") {
        Some(Command::TheRock)
    } else if same_text(name, "story") {
        Some(Command::Story)
    } else if same_text(name, "schedule") {
        Some(Command::Schedule)
    } else {
        None
    }
}

/// The value of an option given to a slash command.
#[derive(Debug)]
pub enum OptionValue {
    /// A user, by id.
    User(u64),
    /// A text.
    Text(String),
    /// A number, as a whole non-negative count (the fraction dropped).
    Number(u64),
    /// Any other kind of value.
    Other,
}

/// Whether the first option names a user by an id that is not 0 (Discord
/// ids never are), or is not a user at all.
pub open spec fn first_user_valid(options: Seq<OptionValue>) -> bool {
    options.len() > 0 ==> match options[0] {
        OptionValue::User(u) => u != 0,
        _ => true,
    }
}

/// The answer to `/warn`.
pub open spec fn warn_text(options: Seq<OptionValue>) -> Seq<char> {
    if options.len() == 0 {
        "No user"@
    } else {
        match options[0] {
            OptionValue::User(u) => if options.len() > 1 {
                match options[1] {
                    OptionValue::Text(reason) => mention_text(u) + " has been warned for **"@
                        + reason@ + "**."@,
                    _ => "No reason"@,
                }
            } else {
                "No reason"@
            },
            _ => "No user"@,
        }
    }
}

/// `/warn user reason`: announces that the user was warned, and why.
pub fn warn_run(options: &[OptionValue]) -> (t: String)
    requires
        first_user_valid(options@),
    ensures
        t@ == warn_text(options@),
{
    if options.len() == 0 {
        return String::from_str("No user");
    }
    match &options[0] {
        OptionValue::User(u) => {
            if options.len() > 1 {
                match &options[1] {
                    OptionValue::Text(reason) => {
                        let t = user_mention(*u).concat(" has been warned for **");
                        let t = t.concat(reason.as_str());
                        t.concat("**.")
                    },
                    _ => String::from_str("No reason"),
                }
            } else {
                String::from_str("No reason")
            }
        },
        _ => String::from_str("No user"),
    }
}

/// The answer to `/therock`.
pub open spec fn therock_text(options: Seq<OptionValue>) -> Seq<char> {
    if options.len() == 0 {
        "No user"@
    } else {
        match options[0] {
            OptionValue::User(u) => mention_text(u) + " "@ + THEROCK_EMOJI@,
            _ => "No user"@,
        }
    }
}

/// `/therock victim`: throws the rock at the user.
pub fn therock_run(options: &[OptionValue]) -> (t: String)
    requires
        first_user_valid(options@),
    ensures
        t@ == therock_text(options@),
{
    if options.len() == 0 {
        return String::from_str("No user");
    }
    match &options[0] {
        OptionValue::User(u) => user_mention(*u).concat(" ").concat(THEROCK_EMOJI),
        _ => String::from_str("No user"),
    }
}

/// The answer to `/story` and the state of the story after it.
pub open spec fn story_command(options: Seq<OptionValue>, s: StoryView) -> (Seq<char>, StoryView) {
    if options.len() == 0 {
        ("No command"@, s)
    } else {
        match options[0] {
            OptionValue::Text(c) => if c@ == "see"@ {
                (story_text(s), s)
            } else if c@ == "end"@ {
                (join_words(s.story, seq![' ']), story_start())
            } else {
                ("Unrecognized command."@, s)
            },
            _ => ("No command"@, s),
        }
    }
}

/// `/story see` shows the story so far; `/story end` ends it and shows its
/// finished sentences.
pub fn story_run(options: &[OptionValue], story: &mut StoryState) -> (t: String)
    ensures
        (t@, final(story)@) == story_command(options@, old(story)@),
{
    if options.len() == 0 {
        return String::from_str("No command");
    }
    match &options[0] {
        OptionValue::Text(c) => {
            if same_text(c.as_str(), "see") {
                story.see()
            } else if same_text(c.as_str(), "end") {
                story.end()
            } else {
                String::from_str("Unrecognized command.")
            }
        },
        _ => String::from_str("No command"),
    }
}

/// A message to post later.
#[derive(Debug)]
pub struct SchedulePlan {
    /// The text to post.
    pub message: String,
    /// How many seconds to wait before posting it.
    pub delay_secs: u64,
    /// The answer to the command itself.
    pub reply: String,
}

/// Whether the options are those that `/schedule` is registered with: a text,
/// then a number.
pub open spec fn schedule_options(options: Seq<OptionValue>) -> bool {
    &&& options.len() >= 2
    &&& options[0] is Text
    &&& options[1] is Number
}

/// Whether `p` posts the text of the first option after the number of
/// seconds of the second, and answers the command with "fff".
pub open spec fn is_schedule_plan(p: SchedulePlan, options: Seq<OptionValue>) -> bool {
    &&& options[0] matches OptionValue::Text(m) && p.message@ == m@
    &&& options[1] matches OptionValue::Number(n) && p.delay_secs == n
    &&& p.reply@ == "fff"@
}

/// `/schedule message_text send_in`: posts the text after that many seconds.
pub fn scheduled_messages_run(options: &[OptionValue]) -> (p: SchedulePlan)
    requires
        schedule_options(options@),
    ensures
        is_schedule_plan(p, options@),
{
    let message = match &options[0] {
        OptionValue::Text(m) => m.clone(),
        _ => String::new(),
    };
    let delay_secs = match &options[1] {
        OptionValue::Number(n) => *n,
        _ => 0,
    };
    SchedulePlan { message, delay_secs, reply: String::from_str("fff") }
}

/// The reminder posted in the rules channel.
pub fn rules_reminder() -> (t: String)
    ensures
        t@ == "Don't forget to follow the rules! "@ + THEROCK_EMOJI@,
{
    String::from_str("Don't forget to follow the rules! ").concat(THEROCK_EMOJI)
}

/// `/story see` shows the story and changes nothing, so that asking twice
/// gives the same answer twice.
pub proof fn lemma_see_changes_nothing(options: Seq<OptionValue>, c: String, s: StoryView)
    requires
        options.len() > 0,
        options[0] == OptionValue::Text(c),
        c@ == "see"@,
    ensures
        story_command(options, s).1 == s,
        story_command(options, s).0 == story_text(s),
        story_command(options, story_command(options, s).1) == story_command(options, s),
{
}

/// `/story end` answers with the finished sentences and leaves nothing
/// written; a `/story see` after it finds the story empty.
pub proof fn lemma_end_then_see(end: Seq<OptionValue>, e: String, see: Seq<OptionValue>, c: String, s: StoryView)
    requires
        end.len() > 0,
        end[0] == OptionValue::Text(e),
        e@ == "end"@,
        see.len() > 0,
        see[0] == OptionValue::Text(c),
        c@ == "see"@,
    ensures
        story_command(end, s).0 == join_words(s.story, seq![' ']),
        story_command(end, s).1 == story_start(),
        story_command(see, story_command(end, s).1).0 == "The story is empty."@,
{
    reveal_strlit("see");
    reveal_strlit("end");
    assert("end"@[0] != "see"@[0]);
    assert(e@ != "see"@);
    assert(story_start().story + story_start().sentence.map_values(|p: (Seq<char>, u64)| p.0)
        =~= Seq::<Seq<char>>::empty());
}

/// The answer to `/therock` mentions exactly the victim given, followed by a
/// space and the rock.
pub proof fn lemma_therock_mentions_victim(options: Seq<OptionValue>, u: u64)
    requires
        options.len() > 0,
        options[0] == OptionValue::User(u),
    ensures
        therock_text(options) == seq!['<', '@'] + decimal(u as nat) + seq!['>', ' '] + THEROCK_EMOJI@,
{
    assert(seq!['<', '@'] + decimal(u as nat) + seq!['>'] + " "@ + THEROCK_EMOJI@ =~= seq![
        '<',
        '@',
    ] + decimal(u as nat) + seq!['>', ' '] + THEROCK_EMOJI@) by {
        reveal_strlit(" ");
    }
}

/// The answer to `/warn` for a user and a reason is the user's mention, then
/// " has been warned for **", the reason exactly as given, and "**.", whatever
/// the reason says.
pub proof fn lemma_warn_writes_reason(options: Seq<OptionValue>, u: u64, reason: String)
    requires
        options.len() > 1,
        options[0] == OptionValue::User(u),
        options[1] == OptionValue::Text(reason),
    ensures
        warn_text(options) == seq!['<', '@'] + decimal(u as nat) + seq!['>']
            + " has been warned for **"@ + reason@ + "**."@,
        warn_text(options).subrange(
            (mention_text(u).len() + 23) as int,
            (mention_text(u).len() + 23 + reason@.len()) as int,
        ) == reason@,
{
    reveal_strlit(" has been warned for **");
    let pre = mention_text(u) + " has been warned for **"@;
    assert(pre.len() == mention_text(u).len() + 23);
    assert((pre + reason@ + "**."@).subrange(pre.len() as int, (pre.len() + reason@.len()) as int) =~= reason@);
}

/// `/schedule` posts exactly the text given, after exactly the number of
/// seconds given, and answers the command with "fff".
pub proof fn lemma_schedule_keeps_text_and_delay(
    p: SchedulePlan,
    options: Seq<OptionValue>,
    m: String,
    n: u64,
)
    requires
        is_schedule_plan(p, options),
        options.len() >= 2,
        options[0] == OptionValue::Text(m),
        options[1] == OptionValue::Number(n),
    ensures
        p.message@ == m@,
        p.delay_secs == n,
        p.reply@ == seq!['f', 'f', 'f'],
{
    reveal_strlit("fff");
}

/// Two different users are never mentioned by the same text.
pub proof fn lemma_mentions_differ(u: u64, v: u64)
    requires
        u != v,
    ensures
        mention_text(u) != mention_text(v),
{
    if mention_text(u) == mention_text(v) {
        let a = mention_text(u);
        assert(a.subrange(2, a.len() - 1) =~= decimal(u as nat));
        assert(mention_text(v).subrange(2, a.len() - 1) =~= decimal(v as nat));
        lemma_decimal_injective(u as nat, v as nat);
    }
}

} // verus!
