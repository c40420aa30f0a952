use wordbot::reply::Reaction;
use wordbot::story::{StoryOutcome, StoryState};

#[test]
fn a_sentence_joins_the_story_when_it_ends() {
    let mut s = StoryState::new();
    assert_eq!(s.submit_word("Once", 1), StoryOutcome::Added);
    assert_eq!(s.submit_word("upon", 2), StoryOutcome::Added);
    assert_eq!(s.see(), "Once upon");
    assert_eq!(s.submit_word("time.", 1), StoryOutcome::Finished);
    assert_eq!(s.see(), "Once upon time.");
    let r = s.story_reply(StoryOutcome::Finished, 1);
    assert_eq!(r.reaction, Reaction::Approve);
    assert_eq!(r.announcement.as_deref(), Some("Once upon time."));
    assert!(r.notice.is_none());
}

#[test]
fn the_same_member_cannot_add_two_words_in_a_row() {
    let mut s = StoryState::new();
    s.submit_word("Hello", 1);
    assert_eq!(s.submit_word("there", 1), StoryOutcome::TwoInARow);
    assert_eq!(s.see(), "Hello");
    let r = s.story_reply(StoryOutcome::TwoInARow, 1);
    assert_eq!(r.notice.as_deref(), Some("<@1> you can't type 2 words in a row."));
    assert!(r.delete_original);
    assert_eq!(r.reaction, Reaction::Reject);
}

#[test]
fn only_one_word_per_message() {
    let mut s = StoryState::new();
    assert_eq!(s.submit_word("two words", 1), StoryOutcome::NotOneWord);
    assert_eq!(s.submit_word("   ", 1), StoryOutcome::NotOneWord);
    assert_eq!(s.see(), "The story is empty.");
    let r = s.story_reply(StoryOutcome::NotOneWord, 9);
    assert_eq!(r.notice.as_deref(), Some("<@9> only 1 word is allowed."));
    assert!(r.delete_original);
}

#[test]
fn a_sentence_cannot_begin_with_punctuation() {
    let mut s = StoryState::new();
    assert_eq!(s.submit_word(",hi", 1), StoryOutcome::PunctuationStart);
    s.submit_word("Hi", 1);
    assert_eq!(s.submit_word(",you", 2), StoryOutcome::Added);
    let r = s.story_reply(StoryOutcome::PunctuationStart, 2);
    assert_eq!(
        r.notice.as_deref(),
        Some("The sentence can't be started with a punctuational symbol.")
    );
    assert!(!r.delete_original);
}

#[test]
fn a_word_that_begins_with_an_end_mark_closes_the_sentence() {
    let mut s = StoryState::new();
    s.submit_word("Yes", 1);
    assert_eq!(s.submit_word("!indeed", 2), StoryOutcome::Finished);
    assert_eq!(s.submit_word("Next", 2), StoryOutcome::Added);
    assert_eq!(s.see(), "Yes !indeed Next");
}

#[test]
fn ending_returns_the_finished_sentences_and_forgets_all() {
    let mut s = StoryState::new();
    s.submit_word("Done.", 1);
    s.submit_word("Not", 2);
    assert_eq!(s.end(), "Done.");
    assert_eq!(s.see(), "The story is empty.");
    assert_eq!(s.end(), "");
}
