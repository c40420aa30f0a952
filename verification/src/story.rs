use vstd::prelude::*;

use crate::mention::{decimal, mention_text, user_mention};
use crate::reply::{opt_view, Reaction, Reply};
use crate::text::{
    begins_with_punctuation, closes_sentence, is_punctuation, count_words, ends_sentence, join_with_spaces,
    join_words, lemma_string_views_push, starts_with_punctuation, string_views, word_count,
};

verus! {

/// How a message in the story channel was taken.
#[derive(Debug, Clone, Copy, PartialEq, Eq, Structural)]
pub enum StoryOutcome {
    /// The author of the last word of the sentence tried to add another.
    TwoInARow,
    /// The message is not exactly one word.
    NotOneWord,
    /// A sentence may not begin with punctuation.
    PunctuationStart,
    /// The word was added to the sentence.
    Added,
    /// The word was added and closed the sentence, which joined the story.
    Finished,
}

/// The state of the story game, as a mathematical value.
pub struct StoryView {
    /// The words of the finished sentences, in order.
    pub story: Seq<Seq<char>>,
    /// The sentence being written: each word with its author.
    pub sentence: Seq<(Seq<char>, u64)>,
}

/// The one-word story: members write a story one word per message, never two
/// words in a row; a word that begins or ends with `.`, `?` or `!` closes the
/// sentence, which then joins the story.
pub struct StoryState {
    words: Vec<String>,
    sentence: Vec<(String, u64)>,
}

/// The words of a sentence, without their authors.
pub open spec fn sentence_words(sentence: Seq<(Seq<char>, u64)>) -> Seq<Seq<char>> {
    sentence.map_values(|p: (Seq<char>, u64)| p.0)
}

/// The views of the entries of a sentence.
pub open spec fn entry_views(sentence: Seq<(String, u64)>) -> Seq<(Seq<char>, u64)> {
    sentence.map_values(|p: (String, u64)| (p.0@, p.1))
}

impl View for StoryState {
    type V = StoryView;

    closed spec fn view(&self) -> StoryView {
        StoryView { story: string_views(self.words@), sentence: entry_views(self.sentence@) }
    }
}

/// The state of a fresh story: nothing written.
pub open spec fn story_start() -> StoryView {
    StoryView { story: Seq::empty(), sentence: Seq::empty() }
}

/// What the game makes of the message `content` from `author`: the next
/// state and the outcome.
pub open spec fn story_step(s: StoryView, content: Seq<char>, author: u64) -> (StoryView, StoryOutcome) {
    if s.sentence.len() > 0 && s.sentence.last().1 == author {
        (s, StoryOutcome::TwoInARow)
    } else if word_count(content) != 1 {
        (s, StoryOutcome::NotOneWord)
    } else if s.sentence.len() == 0 && starts_with_punctuation(content) {
        (s, StoryOutcome::PunctuationStart)
    } else if closes_sentence(content) {
        (
            StoryView {
                story: s.story + sentence_words(s.sentence.push((content, author))),
                sentence: Seq::empty(),
            },
            StoryOutcome::Finished,
        )
    } else {
        (StoryView { story: s.story, sentence: s.sentence.push((content, author)) }, StoryOutcome::Added)
    }
}

/// Everything written so far: the story, then the sentence being written.
pub open spec fn all_words(s: StoryView) -> Seq<Seq<char>> {
    s.story + sentence_words(s.sentence)
}

/// What `see` shows of the story.
pub open spec fn story_text(s: StoryView) -> Seq<char> {
    if all_words(s).len() == 0 {
        "The story is empty."@
    } else {
        join_words(all_words(s), seq![' '])
    }
}

/// What holds of every state the game reaches: the sentence being written
/// never has one author twice in a row, does not begin with punctuation, and
/// holds single words none of which closes it; the story is made of single
/// words.
pub open spec fn story_invariant(s: StoryView) -> bool {
    &&& forall|i: int|
        0 <= i < s.sentence.len() - 1 ==> #[trigger] s.sentence[i].1 != s.sentence[i + 1].1
    &&& forall|i: int|
        0 <= i < s.sentence.len() ==> word_count(#[trigger] s.sentence[i].0) == 1 && !closes_sentence(
            s.sentence[i].0,
        )
    &&& s.sentence.len() > 0 ==> !starts_with_punctuation(s.sentence[0].0)
    &&& forall|i: int| 0 <= i < s.story.len() ==> word_count(#[trigger] s.story[i]) == 1
}

impl StoryState {
    /// A story with nothing written.
    pub fn new() -> (s: StoryState)
        ensures
            s@ == story_start(),
    {
        let s = StoryState { words: Vec::new(), sentence: Vec::new() };
        assert(s@.story =~= Seq::<Seq<char>>::empty());
        assert(s@.sentence =~= Seq::<(Seq<char>, u64)>::empty());
        s
    }

    /// Takes the message `content` from `author`.
    pub fn submit_word(&mut self, content: &str, author: u64) -> (r: StoryOutcome)
        ensures
            (final(self)@, r) == story_step(old(self)@, content@, author),
    {
        let ghost old_view = self@;
        let n = self.sentence.len();
        if n > 0 && self.sentence[n - 1].1 == author {
            return StoryOutcome::TwoInARow;
        }
        if count_words(content) != 1 {
            return StoryOutcome::NotOneWord;
        }
        if n == 0 && begins_with_punctuation(content) {
            return StoryOutcome::PunctuationStart;
        }
        let ended = ends_sentence(content);
        self.sentence.push((String::from_str(content), author));
        assert(entry_views(self.sentence@) =~= old_view.sentence.push((content@, author)));
        if !ended {
            return StoryOutcome::Added;
        }
        let ghost full = entry_views(self.sentence@);
        let m = self.sentence.len();
        let mut i: usize = 0;
        while i < m
            invariant
                m == self.sentence@.len(),
                i <= m,
                full == entry_views(self.sentence@),
                string_views(self.words@) == old_view.story + sentence_words(full.take(i as int)),
            decreases m - i,
        {
            let w = self.sentence[i].0.clone();
            proof {
                lemma_string_views_push(self.words@, w);
            }
            self.words.push(w);
            assert(sentence_words(full.take(i + 1)) =~= sentence_words(full.take(i as int)).push(
                full[i as int].0,
            ));
            assert(string_views(self.words@) =~= old_view.story + sentence_words(full.take(i + 1)));
            i = i + 1;
        }
        assert(full.take(m as int) =~= full);
        self.sentence = Vec::new();
        assert(entry_views(self.sentence@) =~= Seq::<(Seq<char>, u64)>::empty());
        StoryOutcome::Finished
    }

    /// The story so far, the sentence being written included, words joined by
    /// spaces; "The story is empty." when nothing is written.
    pub fn see(&self) -> (t: String)
        ensures
            t@ == story_text(self@),
    {
        let mut all: Vec<String> = Vec::new();
        let n = self.words.len();
        let mut i: usize = 0;
        while i < n
            invariant
                n == self.words@.len(),
                i <= n,
                string_views(all@) == string_views(self.words@).take(i as int),
            decreases n - i,
        {
            let w = self.words[i].clone();
            proof {
                lemma_string_views_push(all@, w);
            }
            all.push(w);
            assert(string_views(all@) =~= string_views(self.words@).take(i + 1));
            i = i + 1;
        }
        assert(string_views(self.words@).take(n as int) =~= string_views(self.words@));
        let m = self.sentence.len();
        let mut j: usize = 0;
        while j < m
            invariant
                n == self.words@.len(),
                m == self.sentence@.len(),
                j <= m,
                string_views(all@) == string_views(self.words@) + sentence_words(
                    entry_views(self.sentence@),
                ).take(j as int),
            decreases m - j,
        {
            let w = self.sentence[j].0.clone();
            proof {
                lemma_string_views_push(all@, w);
            }
            all.push(w);
            assert(string_views(all@) =~= string_views(self.words@) + sentence_words(
                entry_views(self.sentence@),
            ).take(j + 1));
            j = j + 1;
        }
        assert(sentence_words(entry_views(self.sentence@)).take(m as int) =~= sentence_words(
            entry_views(self.sentence@),
        ));
        if all.len() == 0 {
            String::from_str("The story is empty.")
        } else {
            join_with_spaces(&all)
        }
    }

    /// Ends the story: returns its finished sentences, words joined by spaces,
    /// and forgets everything written, the sentence being written included.
    pub fn end(&mut self) -> (t: String)
        ensures
            t@ == join_words(old(self)@.story, seq![' ']),
            final(self)@ == story_start(),
    {
        let t = join_with_spaces(&self.words);
        self.words = Vec::new();
        self.sentence = Vec::new();
        assert(self@.story =~= Seq::<Seq<char>>::empty());
        assert(self@.sentence =~= Seq::<(Seq<char>, u64)>::empty());
        t
    }
}


/// The notice that answers `outcome` for `author`.
pub open spec fn story_notice(outcome: StoryOutcome, author: u64) -> Option<Seq<char>> {
    match outcome {
        StoryOutcome::TwoInARow => Some(mention_text(author) + " you can't type 2 words in a row."@),
        StoryOutcome::NotOneWord => Some(mention_text(author) + " only 1 word is allowed."@),
        StoryOutcome::PunctuationStart => Some(
            "The sentence can't be started with a punctuational symbol."@,
        ),
        StoryOutcome::Added => None,
        StoryOutcome::Finished => None,
    }
}

/// Whether `r` answers `outcome` for the message of `author`, the story being
/// `after` once the message is taken: ✅ on a taken word, and the whole story
/// posted when it closed a sentence; otherwise ❌ and a notice, the message
/// being deleted with it unless the refusal is for punctuation.
pub open spec fn is_story_reply(r: Reply, outcome: StoryOutcome, author: u64, after: StoryView) -> bool {
    &&& r.reaction == (if outcome == StoryOutcome::Added || outcome == StoryOutcome::Finished {
        Reaction::Approve
    } else {
        Reaction::Reject
    })
    &&& opt_view(r.notice) == story_notice(outcome, author)
    &&& r.delete_original == (outcome == StoryOutcome::TwoInARow || outcome
        == StoryOutcome::NotOneWord)
    &&& opt_view(r.announcement) == (if outcome == StoryOutcome::Finished {
        Some(join_words(after.story, seq![' ']))
    } else {
        None
    })
}

impl StoryState {
    /// The bot's answer to `outcome` for the message of `author`, given on the
    /// state after the message.
    pub fn story_reply(&self, outcome: StoryOutcome, author: u64) -> (r: Reply)
        requires
            author != 0,
        ensures
            is_story_reply(r, outcome, author, self@),
    {
        match outcome {
            StoryOutcome::TwoInARow => Reply {
                reaction: Reaction::Reject,
                notice: Some(user_mention(author).concat(" you can't type 2 words in a row.")),
                delete_original: true,
                announcement: None,
            },
            StoryOutcome::NotOneWord => Reply {
                reaction: Reaction::Reject,
                notice: Some(user_mention(author).concat(" only 1 word is allowed.")),
                delete_original: true,
                announcement: None,
            },
            StoryOutcome::PunctuationStart => Reply {
                reaction: Reaction::Reject,
                notice: Some(
                    String::from_str("The sentence can't be started with a punctuational symbol."),
                ),
                delete_original: false,
                announcement: None,
            },
            StoryOutcome::Added => Reply {
                reaction: Reaction::Approve,
                notice: None,
                delete_original: false,
                announcement: None,
            },
            StoryOutcome::Finished => Reply {
                reaction: Reaction::Approve,
                notice: None,
                delete_original: false,
                announcement: Some(join_with_spaces(&self.words)),
            },
        }
    }
}

/// The invariant holds from the start.
pub proof fn lemma_start_satisfies_story_invariant()
    ensures
        story_invariant(story_start()),
{
}

/// Every step keeps the story's invariant, whatever the message.
pub proof fn lemma_story_step_keeps_invariant(s: StoryView, content: Seq<char>, author: u64)
    requires
        story_invariant(s),
    ensures
        story_invariant(story_step(s, content, author).0),
{
    let (t, outcome) = story_step(s, content, author);
    if outcome == StoryOutcome::Added {
        let ns = s.sentence.push((content, author));
        assert(t.sentence == ns);
        assert forall|i: int| 0 <= i < ns.len() - 1 implies #[trigger] ns[i].1 != ns[i + 1].1 by {
            if i < s.sentence.len() - 1 {
                assert(ns[i] == s.sentence[i] && ns[i + 1] == s.sentence[i + 1]);
            } else {
                assert(ns[i + 1] == (content, author));
                assert(ns[i] == s.sentence.last());
            }
        }
        assert forall|i: int| 0 <= i < ns.len() implies word_count(#[trigger] ns[i].0) == 1
            && !closes_sentence(ns[i].0) by {
            if i < s.sentence.len() {
                assert(ns[i] == s.sentence[i]);
            }
        }
        if s.sentence.len() > 0 {
            assert(ns[0] == s.sentence[0]);
        }
    } else if outcome == StoryOutcome::Finished {
        let ns = s.sentence.push((content, author));
        let story = s.story + sentence_words(ns);
        assert(t.story == story);
        assert forall|i: int| 0 <= i < story.len() implies word_count(#[trigger] story[i]) == 1 by {
            if i < s.story.len() {
                assert(story[i] == s.story[i]);
            } else {
                let k = i - s.story.len();
                assert(story[i] == ns[k].0);
                if k < s.sentence.len() {
                    assert(ns[k] == s.sentence[k]);
                }
            }
        }
    }
}

/// A refused word leaves the story and the sentence as they were.
pub proof fn lemma_story_refusals(s: StoryView, content: Seq<char>, author: u64)
    ensures
        story_step(s, content, author).1 != StoryOutcome::Added && story_step(s, content, author).1
            != StoryOutcome::Finished ==> story_step(s, content, author).0 == s,
{
}

/// A word that closes the sentence moves the whole sentence, that word last,
/// to the end of the story, and a new sentence begins.
pub proof fn lemma_finished_sentence_joins_story(s: StoryView, content: Seq<char>, author: u64)
    requires
        story_step(s, content, author).1 == StoryOutcome::Finished,
    ensures
        story_step(s, content, author).0.story == s.story + sentence_words(s.sentence) + seq![content],
        story_step(s, content, author).0.sentence.len() == 0,
        all_words(story_step(s, content, author).0) == all_words(s).push(content),
{
    let ns = s.sentence.push((content, author));
    assert(sentence_words(ns) =~= sentence_words(s.sentence).push(content));
    assert(s.story + sentence_words(ns) =~= s.story + sentence_words(s.sentence) + seq![content]);
    let t = story_step(s, content, author).0;
    assert(sentence_words(t.sentence) =~= Seq::<Seq<char>>::empty());
    assert(all_words(t) =~= all_words(s).push(content));
}

/// A taken word is written after everything written before it, and nothing
/// written is ever lost by a message.
pub proof fn lemma_words_are_kept(s: StoryView, content: Seq<char>, author: u64)
    ensures
        story_step(s, content, author).1 == StoryOutcome::Added || story_step(s, content, author).1
            == StoryOutcome::Finished ==> all_words(story_step(s, content, author).0) == all_words(
            s,
        ).push(content),
        s.story.is_prefix_of(story_step(s, content, author).0.story),
{
    let (t, outcome) = story_step(s, content, author);
    let ns = s.sentence.push((content, author));
    assert(sentence_words(ns) =~= sentence_words(s.sentence).push(content));
    if outcome == StoryOutcome::Finished {
        lemma_finished_sentence_joins_story(s, content, author);
    } else if outcome == StoryOutcome::Added {
        assert(all_words(t) =~= all_words(s).push(content));
    }
    assert(s.story.is_prefix_of(t.story)) by {
        assert(t.story.len() >= s.story.len());
        assert forall|i: int| 0 <= i < s.story.len() implies t.story[i] == s.story[i] by {
            if outcome == StoryOutcome::Finished {
                assert((s.story + sentence_words(ns))[i] == s.story[i]);
            }
        }
        assert(t.story.subrange(0, s.story.len() as int) =~= s.story);
    }
}

/// Once the story is ended, `see` finds it empty.
pub proof fn lemma_nothing_left_after_end()
    ensures
        story_text(story_start()) == "The story is empty."@,
{
    assert(all_words(story_start()) =~= Seq::<Seq<char>>::empty());
}

/// With no sentence being written, `see` shows what `end` returns, as long as
/// the story is not empty.
pub proof fn lemma_end_returns_what_see_shows(s: StoryView)
    requires
        s.sentence.len() == 0,
        s.story.len() > 0,
    ensures
        join_words(s.story, seq![' ']) == story_text(s),
{
    assert(all_words(s) =~= s.story);
}

/// A taken word closes the sentence exactly when its first or its last
/// character is `.`, `?` or `!`; any other word only joins the sentence.
pub proof fn lemma_end_marks_close_sentences(s: StoryView, w: Seq<char>, author: u64)
    ensures
        story_step(s, w, author).1 == StoryOutcome::Finished ==> w.len() > 0 && (w[0] == '.'
            || w[0] == '?' || w[0] == '!' || w[w.len() - 1] == '.' || w[w.len() - 1] == '?'
            || w[w.len() - 1] == '!'),
        story_step(s, w, author).1 == StoryOutcome::Added ==> !(w.len() > 0 && (w[0] == '.'
            || w[0] == '?' || w[0] == '!' || w[w.len() - 1] == '.' || w[w.len() - 1] == '?'
            || w[w.len() - 1] == '!')),
        story_step(s, w, author).1 == StoryOutcome::Added ==> story_step(s, w, author).0.story
            == s.story && story_step(s, w, author).0.sentence == s.sentence.push((w, author)),
{
}

/// Which messages are taken: a single word, from someone other than the
/// author of the sentence's last word, that does not begin with punctuation
/// when it would begin the sentence.
pub proof fn lemma_taken_words(s: StoryView, w: Seq<char>, author: u64)
    ensures
        (story_step(s, w, author).1 == StoryOutcome::Added || story_step(s, w, author).1
            == StoryOutcome::Finished) <==> ((s.sentence.len() == 0 || s.sentence[s.sentence.len()
            - 1].1 != author) && word_count(w) == 1 && !(s.sentence.len() == 0 && w.len() > 0
            && is_punctuation(w[0]))),
        (story_step(s, w, author).1 == StoryOutcome::TwoInARow) <==> (s.sentence.len() > 0
            && s.sentence[s.sentence.len() - 1].1 == author),
{
}

/// `see` shows every word written, the sentence being written included, in
/// order and separated by single spaces.
pub proof fn lemma_see_shows_everything(s: StoryView)
    ensures
        s.story.len() + s.sentence.len() > 0 ==> story_text(s) == join_words(
            s.story + s.sentence.map_values(|p: (Seq<char>, u64)| p.0),
            seq![' '],
        ),
        s.story.len() + s.sentence.len() == 0 ==> story_text(s) == "The story is empty."@,
{
}

/// What the bot answers to each outcome: a taken word gets ✅, and the whole
/// story, words separated by single spaces, is posted when the word closed a
/// sentence; every refusal gets ❌ and a notice, which mentions the member
/// unless the refusal is for punctuation, and the message is deleted with it
/// unless the refusal is for punctuation.
pub proof fn lemma_story_answers(r: Reply, outcome: StoryOutcome, author: u64, after: StoryView)
    requires
        is_story_reply(r, outcome, author, after),
    ensures
        outcome == StoryOutcome::Added ==> r.reaction == Reaction::Approve && r.notice is None
            && !r.delete_original && r.announcement is None,
        outcome == StoryOutcome::Finished ==> r.reaction == Reaction::Approve && r.notice is None
            && !r.delete_original && opt_view(r.announcement) == Some(
            join_words(after.story, seq![' ']),
        ),
        outcome == StoryOutcome::TwoInARow ==> r.reaction == Reaction::Reject && r.delete_original
            && r.announcement is None && opt_view(r.notice) == Some(
            seq!['<', '@'] + decimal(author as nat) + seq!['>'] + " you can't type 2 words in a row."@,
        ),
        outcome == StoryOutcome::NotOneWord ==> r.reaction == Reaction::Reject && r.delete_original
            && r.announcement is None && opt_view(r.notice) == Some(
            seq!['<', '@'] + decimal(author as nat) + seq!['>'] + " only 1 word is allowed."@,
        ),
        outcome == StoryOutcome::PunctuationStart ==> r.reaction == Reaction::Reject
            && !r.delete_original && r.announcement is None && opt_view(r.notice) == Some(
            "The sentence can't be started with a punctuational symbol."@,
        ),
{
}

/// Joining puts exactly one space between each two words: adding a word
/// after at least one adds a space and the word.
pub proof fn lemma_join_appends(words: Seq<Seq<char>>, w: Seq<char>)
    ensures
        words.len() == 0 ==> join_words(words.push(w), seq![' ']) == w,
        words.len() > 0 ==> join_words(words.push(w), seq![' ']) == join_words(words, seq![' '])
            + seq![' '] + w,
{
    assert(words.push(w).drop_last() =~= words);
}

} // verus!
