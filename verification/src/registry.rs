use vstd::prelude::*;

verus! {

/// The kind of value a slash command option takes.
#[derive(Debug, Clone, Copy, PartialEq, Eq, Structural)]
pub enum OptionKind {
    /// A user.
    User,
    /// A text.
    Text,
    /// A number.
    Number,
}

/// An option of a slash command, as it is registered.
#[derive(Debug)]
pub struct OptionSpec {
    pub kind: OptionKind,
    pub name: String,
    pub description: String,
    pub required: bool,
}

/// A slash command, as it is registered with Discord.
#[derive(Debug)]
pub struct CommandSpec {
    pub name: String,
    pub description: String,
    pub options: Vec<OptionSpec>,
}

/// Whether `o` is the option of kind `kind` named `name`, described by
/// `description`, and required.
pub open spec fn required_option(o: OptionSpec, kind: OptionKind, name: Seq<char>, description: Seq<char>) -> bool {
    &&& o.kind == kind
    &&& o.name@ == name
    &&& o.description@ == description
    &&& o.required
}

fn required(kind: OptionKind, name: &str, description: &str) -> (o: OptionSpec)
    ensures
        required_option(o, kind, name@, description@),
{
    OptionSpec {
        kind,
        name: String::from_str(name),
        description: String::from_str(description),
        required: true,
    }
}

/// Whether `c` is `/warn user reason`.
pub open spec fn is_warn_command(c: CommandSpec) -> bool {
    &&& c.name@ == "warn"@
    &&& c.description@ == "warn a user"@
    &&& c.options@.len() == 2
    &&& required_option(c.options@[0], OptionKind::User, "user"@, "the user"@)
    &&& required_option(c.options@[1], OptionKind::Text, "reason"@, "why?"@)
}

/// `/warn user reason`.
pub fn warn_register() -> (c: CommandSpec)
    ensures
        is_warn_command(c),
{
    let mut options: Vec<OptionSpec> = Vec::new();
    options.push(required(OptionKind::User, "user", "the user"));
    options.push(required(OptionKind::Text, "reason", "why?"));
    CommandSpec {
        name: String::from_str("warn"),
        description: String::from_str("warn a user"),
        options,
    }
}

/// Whether `c` is `/therock victim`.
pub open spec fn is_therock_command(c: CommandSpec) -> bool {
    &&& c.name@ == "therock"@
    &&& c.description@ == "throw therock at a user"@
    &&& c.options@.len() == 1
    &&& required_option(c.options@[0], OptionKind::User, "victim"@, "the victim"@)
}

/// `/therock victim`.
pub fn therock_register() -> (c: CommandSpec)
    ensures
        is_therock_command(c),
{
    let mut options: Vec<OptionSpec> = Vec::new();
    options.push(required(OptionKind::User, "victim", "the victim"));
    CommandSpec {
        name: String::from_str("therock"),
        description: String::from_str("throw therock at a user"),
        options,
    }
}

/// Whether `c` is `/story command`.
pub open spec fn is_story_command(c: CommandSpec) -> bool {
    &&& c.name@ == "story"@
    &&& c.description@ == "story"@
    &&& c.options@.len() == 1
    &&& required_option(c.options@[0], OptionKind::Text, "command"@, "see"@)
}

/// `/story command`.
pub fn story_register() -> (c: CommandSpec)
    ensures
        is_story_command(c),
{
    let mut options: Vec<OptionSpec> = Vec::new();
    options.push(required(OptionKind::Text, "command", "see"));
    CommandSpec { name: String::from_str("story"), description: String::from_str("story"), options }
}

/// Whether `c` is `/schedule message_text send_in`.
pub open spec fn is_schedule_command(c: CommandSpec) -> bool {
    &&& c.name@ == "schedule"@
    &&& c.description@ == "schedule a message"@
    &&& c.options@.len() == 2
    &&& required_option(
        c.options@[0],
        OptionKind::Text,
        "message_text"@,
        "the text of the scheduled message"@,
    )
    &&& required_option(c.options@[1], OptionKind::Number, "send in"@, "in seconds"@)
}

/// `/schedule message_text send_in`.
pub fn scheduled_messages_register() -> (c: CommandSpec)
    ensures
        is_schedule_command(c),
{
    let mut options: Vec<OptionSpec> = Vec::new();
    options.push(
        required(OptionKind::Text, "message_text", "the text of the scheduled message"),
    );
    options.push(required(OptionKind::Number, "send in", "in seconds"));
    CommandSpec {
        name: String::from_str("schedule"),
        description: String::from_str("schedule a message"),
        options,
    }
}

/// The commands the bot registers with its server, in order: `/warn`,
/// `/therock`, `/story`, `/schedule`.
pub fn registered_commands() -> (v: Vec<CommandSpec>)
    ensures
        v@.len() == 4,
        is_warn_command(v@[0]),
        is_therock_command(v@[1]),
        is_story_command(v@[2]),
        is_schedule_command(v@[3]),
{
    let mut v: Vec<CommandSpec> = Vec::new();
    v.push(warn_register());
    v.push(therock_register());
    v.push(story_register());
    v.push(scheduled_messages_register());
    v
}

} // verus!
