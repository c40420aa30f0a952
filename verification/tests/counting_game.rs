use wordbot::counting::{counting_reply, CountOutcome, CountingGame};
use wordbot::reply::Reaction;

#[test]
fn counting_goes_up_by_one_from_alternating_members() {
    let mut g = CountingGame::new();
    assert_eq!(g.submit("1", 10), CountOutcome::Counted);
    assert_eq!(g.submit("2", 20), CountOutcome::Counted);
    assert_eq!(g.submit("3", 10), CountOutcome::Counted);
    assert_eq!(g.current(), 3);
    assert_eq!(g.last_author(), Some(10));
}

#[test]
fn zero_at_the_start_is_refused_and_changes_nothing() {
    let mut g = CountingGame::new();
    assert_eq!(g.submit("0", 10), CountOutcome::StartWithOne);
    assert_eq!(g.current(), 0);
    assert_eq!(g.last_author(), None);
}

#[test]
fn nobody_counts_twice_in_a_row() {
    let mut g = CountingGame::new();
    assert_eq!(g.submit("1", 10), CountOutcome::Counted);
    assert_eq!(g.submit("2", 10), CountOutcome::CountedTwice);
    assert_eq!(g.current(), 1);
    assert_eq!(g.submit("2", 11), CountOutcome::Counted);
}

#[test]
fn a_wrong_number_starts_over() {
    let mut g = CountingGame::new();
    g.submit("1", 10);
    g.submit("2", 11);
    assert_eq!(g.submit("5", 10), CountOutcome::WrongIncrement);
    assert_eq!(g.current(), 0);
    assert_eq!(g.last_author(), None);
    assert_eq!(g.submit("1", 11), CountOutcome::Counted);
}

#[test]
fn a_wrong_first_number_starts_over_too() {
    let mut g = CountingGame::new();
    assert_eq!(g.submit("2", 10), CountOutcome::WrongIncrement);
    assert_eq!(g.current(), 0);
}

#[test]
fn words_are_not_numbers() {
    let mut g = CountingGame::new();
    g.submit("1", 10);
    assert_eq!(g.submit("two", 11), CountOutcome::NotANumber);
    assert_eq!(g.submit(" 2", 11), CountOutcome::NotANumber);
    assert_eq!(g.current(), 1);
    assert_eq!(g.submit("+2", 11), CountOutcome::Counted);
}

#[test]
fn replies_mention_the_author() {
    let r = counting_reply(CountOutcome::NotANumber, 123);
    assert_eq!(r.reaction, Reaction::Reject);
    assert_eq!(r.notice.as_deref(), Some("<@123> you can only type numbers."));
    assert!(!r.delete_original);
    let r = counting_reply(CountOutcome::StartWithOne, 123);
    assert_eq!(r.notice.as_deref(), Some("<@123> You can only start with 1."));
    assert!(r.delete_original);
    let r = counting_reply(CountOutcome::CountedTwice, 45);
    assert_eq!(r.notice.as_deref(), Some("<@45> You can't count twice."));
    assert!(r.delete_original);
    let r = counting_reply(CountOutcome::WrongIncrement, 45);
    assert_eq!(r.notice.as_deref(), Some("<@45> You can only increment the number by 1."));
    assert!(r.delete_original);
    let r = counting_reply(CountOutcome::Counted, 45);
    assert_eq!(r.reaction, Reaction::Approve);
    assert!(r.notice.is_none());
    assert!(!r.delete_original);
    assert!(r.announcement.is_none());
}
