use vstd::prelude::*;

verus! {

/// The personality the bot starts with.
pub const DEFAULT_PERSONALITY: &'static str = "I'm a helpful assistant";

/// The text that leads the answer to a question for the personality.
pub const CURRENT_PREFIX: &'static str = "My personality is: ";

/// The text that leads the answer to a change of personality.
pub const CHANGED_PREFIX: &'static str = "Got it! From now on my personality is: ";

/// The bot's personality: one text, replaced whole by each change. The bot
/// keeps one behind a lock and hands it to every command.
#[derive(Debug)]
pub struct Personality {
    text: String,
}

impl View for Personality {
    type V = Seq<char>;

    closed spec fn view(&self) -> Seq<char> {
        self.text@
    }
}

/// The personality after `text` was set over `current`: the new text, whole.
pub open spec fn after_set(current: Seq<char>, text: Seq<char>) -> Seq<char> {
    text
}

impl Personality {
    /// The personality the bot starts with.
    pub fn new() -> (r: Personality)
        ensures
            r@ == DEFAULT_PERSONALITY@,
    {
        Personality { text: DEFAULT_PERSONALITY.to_owned() }
    }

    /// A personality that holds `text`.
    pub fn with_text(text: String) -> (r: Personality)
        ensures
            r@ == text@,
    {
        Personality { text }
    }

    /// The current text.
    pub fn get(&self) -> (r: String)
        ensures
            r@ == self@,
    {
        self.text.clone()
    }

    /// Replaces the text.
    pub fn set(&mut self, text: String)
        ensures
            final(self)@ == after_set(old(self)@, text@),
    {
        self.text = text;
    }

    /// The answer to a question for the personality.
    pub fn describe(&self) -> (r: String)
        ensures
            r@ == CURRENT_PREFIX@ + self@,
    {
        personality_reply(self.text.as_str())
    }
}

/// The answer that names `text` as the personality.
pub fn personality_reply(text: &str) -> (r: String)
    ensures
        r@ == CURRENT_PREFIX@ + text@,
{
    let mut r = CURRENT_PREFIX.to_owned();
    r.append(text);
    r
}

/// The answer that confirms `text` as the new personality.
pub fn personality_set_reply(text: &str) -> (r: String)
    ensures
        r@ == CHANGED_PREFIX@ + text@,
{
    let mut r = CHANGED_PREFIX.to_owned();
    r.append(text);
    r
}

/// Two writers that take turns, in either order, leave one of their two texts,
/// whole: the one that came last.
pub proof fn lemma_two_writers(start: Seq<char>, a: Seq<char>, b: Seq<char>)
    ensures
        after_set(after_set(start, a), b) == b,
        after_set(after_set(start, b), a) == a,
        ({
            let x = after_set(after_set(start, a), b);
            let y = after_set(after_set(start, b), a);
            (x == a || x == b) && (y == a || y == b)
        }),
{
}

} // verus!
