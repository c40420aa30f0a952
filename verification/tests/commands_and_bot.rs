use wordbot::bot::{Bot, CommandAnswer};
use wordbot::commands::{
    command_named, route_message, rules_reminder, scheduled_messages_run, story_run,
    therock_run, warn_run, Command, OptionValue, Route, COUNTING_CHANNEL_ID, STORY_CHANNEL_ID,
    THEROCK_EMOJI,
};
use wordbot::registry::{
    registered_commands, scheduled_messages_register, story_register, therock_register,
    warn_register, OptionKind,
};
use wordbot::reply::Reaction;
use wordbot::story::StoryState;

#[test]
fn warn_texts() {
    let opts = vec![OptionValue::User(77), OptionValue::Text("spam".to_string())];
    assert_eq!(warn_run(&opts), "<@77> has been warned for **spam**.");
    assert_eq!(warn_run(&[OptionValue::User(77)]), "No reason");
    assert_eq!(warn_run(&[OptionValue::User(77), OptionValue::Number(3)]), "No reason");
    assert_eq!(warn_run(&[]), "No user");
    assert_eq!(warn_run(&[OptionValue::Text("x".to_string())]), "No user");
}

#[test]
fn therock_texts() {
    assert_eq!(therock_run(&[OptionValue::User(5)]), format!("<@5> {}", THEROCK_EMOJI));
    assert_eq!(therock_run(&[]), "No user");
    assert_eq!(therock_run(&[OptionValue::Other]), "No user");
}

#[test]
fn story_command_texts() {
    let mut s = StoryState::new();
    assert_eq!(story_run(&[OptionValue::Text("see".to_string())], &mut s), "The story is empty.");
    s.submit_word("Hi.", 1);
    s.submit_word("More", 2);
    assert_eq!(story_run(&[OptionValue::Text("see".to_string())], &mut s), "Hi. More");
    assert_eq!(story_run(&[OptionValue::Text("read".to_string())], &mut s), "Unrecognized command.");
    assert_eq!(story_run(&[], &mut s), "No command");
    assert_eq!(story_run(&[OptionValue::User(3)], &mut s), "No command");
    assert_eq!(story_run(&[OptionValue::Text("end".to_string())], &mut s), "Hi.");
    assert_eq!(story_run(&[OptionValue::Text("see".to_string())], &mut s), "The story is empty.");
}

#[test]
fn schedule_plan() {
    let p = scheduled_messages_run(&[OptionValue::Text("later".to_string()), OptionValue::Number(30)]);
    assert_eq!(p.message, "later");
    assert_eq!(p.delay_secs, 30);
    assert_eq!(p.reply, "fff");
}

#[test]
fn reminder_text() {
    assert_eq!(rules_reminder(), format!("Don't forget to follow the rules! {}", THEROCK_EMOJI));
}

#[test]
fn routing_and_names() {
    assert_eq!(route_message(COUNTING_CHANNEL_ID, false), Route::Counting);
    assert_eq!(route_message(STORY_CHANNEL_ID, false), Route::Story);
    assert_eq!(route_message(STORY_CHANNEL_ID, true), Route::Ignore);
    assert_eq!(route_message(1, false), Route::Ignore);
    assert_eq!(command_named("warn"), Some(Command::Warn));
    assert_eq!(command_named("therock"), Some(Command::TheRock));
    assert_eq!(command_named("story"), Some(Command::Story));
    assert_eq!(command_named("schedule"), Some(Command::Schedule));
    assert_eq!(command_named("ban"), None);
}

#[test]
fn registered_command_specs() {
    let w = warn_register();
    assert_eq!(w.name, "warn");
    assert_eq!(w.description, "warn a user");
    assert_eq!(w.options.len(), 2);
    assert_eq!(w.options[0].kind, OptionKind::User);
    assert_eq!(w.options[0].name, "user");
    assert_eq!(w.options[1].kind, OptionKind::Text);
    assert_eq!(w.options[1].description, "why?");
    assert!(w.options.iter().all(|o| o.required));
    let t = therock_register();
    assert_eq!(t.name, "therock");
    assert_eq!(t.options[0].name, "victim");
    let s = story_register();
    assert_eq!(s.description, "story");
    assert_eq!(s.options[0].name, "command");
    let names: Vec<String> = registered_commands().into_iter().map(|c| c.name).collect();
    assert_eq!(names, vec!["warn", "therock", "story", "schedule"]);
    let c = scheduled_messages_register();
    assert_eq!(c.name, "schedule");
    assert_eq!(c.options[1].kind, OptionKind::Number);
    assert_eq!(c.options[1].name, "send in");
}

#[test]
fn bot_routes_messages_to_the_games() {
    let mut b = Bot::new();
    let r = b.on_message(COUNTING_CHANNEL_ID, false, "1", 8).unwrap();
    assert_eq!(r.reaction, Reaction::Approve);
    let r = b.on_message(COUNTING_CHANNEL_ID, false, "2", 8).unwrap();
    assert_eq!(r.notice.as_deref(), Some("<@8> You can't count twice."));
    assert!(b.on_message(COUNTING_CHANNEL_ID, true, "2", 8).is_none());
    assert!(b.on_message(42, false, "hello", 8).is_none());
    let r = b.on_message(STORY_CHANNEL_ID, false, "End.", 8).unwrap();
    assert_eq!(r.announcement.as_deref(), Some("End."));
    match b.on_command("story", &[OptionValue::Text("end".to_string())]) {
        CommandAnswer::Text(t) => assert_eq!(t, "End."),
        _ => panic!("story answers with a text"),
    }
    match b.on_command("warn", &[OptionValue::User(3)]) {
        CommandAnswer::Text(t) => assert_eq!(t, "No reason"),
        _ => panic!("warn answers with a text"),
    }
    match b.on_command("schedule", &[OptionValue::Text("m".to_string()), OptionValue::Number(2)]) {
        CommandAnswer::Schedule(p) => assert_eq!(p.delay_secs, 2),
        _ => panic!("schedule answers with a plan"),
    }
}
