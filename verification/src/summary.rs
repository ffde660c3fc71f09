//! Summaries of published items.
//!
//! [`Summary`] asks an implementer for one thing, the author line, and derives the
//! summary from it unless the implementer supplies its own. [`NewsArticle`] keeps the
//! derived summary; [`Tweet`] replaces it. The `notify` family composes announcement
//! lines for any item that can be summarized, whatever its concrete type.
//!
//! Contracts of generic functions speak of an item's summary through
//! [`is_summary_of`], which holds of exactly the strings that the item's own
//! `summarize` can return. For a concrete type this resolves to that type's contract,
//! so the announcement for a `Tweet` is known to carry the tweet's own wording.

use vstd::prelude::*;
use vstd::string::StringExecFns;

verus! {

/// The default summary wording for an item by `author`.
pub open spec fn read_more(author: Seq<char>) -> Seq<char> {
    "(Read more from "@ + author + "...)"@
}

/// The summary wording of a tweet.
pub open spec fn tweet_summary(content: Seq<char>, username: Seq<char>) -> Seq<char> {
    content + ", "@ + read_more("@"@ + username)
}

/// Something that can be summarized for a reader.
pub trait Summary {
    /// Names whoever wrote the item.
    fn summarize_author(&self) -> String;

    /// A one-line summary. Unless an implementer replaces it, this is the
    /// [`read_more`] wording around the item's own author line.
    fn summarize(&self) -> (summary: String)
        default_ensures
            exists|author: String| #[trigger]
                call_ensures(Self::summarize_author, (self,), author) && summary@ == read_more(
                    author@,
                ),
    {
        let author = self.summarize_author();
        read_more_from(author.as_str())
    }
}

/// Something that can render itself as text.
pub trait Display {
    /// The rendered text.
    fn display(&self) -> String;
}

/// Holds when `summary` is a summary that `item` can report.
pub open spec fn is_summary_of<T: Summary>(item: &T, summary: Seq<char>) -> bool {
    exists|s: String| #[trigger] call_ensures(T::summarize, (item,), s) && s@ == summary
}

/// Holds when `text` is a rendering that `item` can report.
pub open spec fn is_display_of<T: Display>(item: &T, text: Seq<char>) -> bool {
    exists|d: String| #[trigger] call_ensures(T::display, (item,), d) && d@ == text
}

/// Writes the default summary wording around an author line.
pub fn read_more_from(author: &str) -> (summary: String)
    ensures
        summary@ == read_more(author@),
{
    let mut summary = String::from_str("(Read more from ");
    summary.append(author);
    summary.append("...)");
    summary
}

/// A press article.
pub struct NewsArticle {
    pub headline: String,
    pub location: String,
    pub author: String,
    pub content: String,
}

impl Summary for NewsArticle {
    /// The author's plain name.
    fn summarize_author(&self) -> (author: String)
        ensures
            author@ == self.author@,
    {
        self.author.clone()
    }
}

/// A short public message.
pub struct Tweet {
    pub username: String,
    pub content: String,
    pub reply: bool,
    pub retweet: bool,
}

impl Summary for Tweet {
    /// The user's handle: the username behind an `@`.
    fn summarize_author(&self) -> (author: String)
        ensures
            author@ == "@"@ + self.username@,
    {
        let mut author = String::from_str("@");
        author.append(self.username.as_str());
        author
    }

    /// The tweet's content, then the default wording around the user's handle.
    fn summarize(&self) -> (summary: String)
        ensures
            summary@ == tweet_summary(self.content@, self.username@),
    {
        let author = self.summarize_author();
        let tail = read_more_from(author.as_str());
        let mut summary = self.content.clone();
        summary.append(", ");
        summary.append(tail.as_str());
        summary
    }
}

/// The announcement line of [`notify`].
pub open spec fn breaking_news_line(summary: Seq<char>) -> Seq<char> {
    "Breaking news with trait as parameter! "@ + summary
}

/// The announcement line of [`notify_bound`].
pub open spec fn breaking_news_bound_line(summary: Seq<char>) -> Seq<char> {
    "Breaking news with trait as parameter using the bound syntax! "@ + summary
}

/// The three lines of [`notify_bound2`]: a heading, then the two summaries, numbered.
pub open spec fn two_summaries_lines(first: Seq<char>, second: Seq<char>) -> Seq<Seq<char>> {
    seq!["Two things want to be summarized!"@, "1: "@ + first, "2: "@ + second]
}

/// The line of [`notify_bound3`].
pub open spec fn display_and_summary_line(display: Seq<char>, summary: Seq<char>) -> Seq<char> {
    "Display: "@ + display + ", Summary: "@ + summary
}

/// Announces a summary.
pub fn breaking_news(summary: &str) -> (line: String)
    ensures
        line@ == breaking_news_line(summary@),
{
    let mut line = String::from_str("Breaking news with trait as parameter! ");
    line.append(summary);
    line
}

/// Announces a summary, in the longer wording.
pub fn breaking_news_bound(summary: &str) -> (line: String)
    ensures
        line@ == breaking_news_bound_line(summary@),
{
    let mut line = String::from_str(
        "Breaking news with trait as parameter using the bound syntax! ",
    );
    line.append(summary);
    line
}

/// Lists two summaries under a heading.
pub fn two_summaries(first: &str, second: &str) -> (lines: Vec<String>)
    ensures
        lines.deep_view() == two_summaries_lines(first@, second@),
{
    let mut one = String::from_str("1: ");
    one.append(first);
    let mut two = String::from_str("2: ");
    two.append(second);
    let mut lines: Vec<String> = Vec::new();
    lines.push(String::from_str("Two things want to be summarized!"));
    lines.push(one);
    lines.push(two);
    assert(lines.deep_view() =~= two_summaries_lines(first@, second@));
    lines
}

/// Puts a rendering and a summary on one line.
pub fn display_and_summary(display: &str, summary: &str) -> (line: String)
    ensures
        line@ == display_and_summary_line(display@, summary@),
{
    let mut line = String::from_str("Display: ");
    line.append(display);
    line.append(", Summary: ");
    line.append(summary);
    line
}

/// The announcement for `item`: [`breaking_news_line`] around the item's own summary.
pub fn notify(item: &impl Summary) -> (line: String)
    ensures
        exists|summary: Seq<char>|
            is_summary_of(item, summary) && line@ == breaking_news_line(summary),
{
    let summary = item.summarize();
    assert(is_summary_of(item, summary@));
    breaking_news(summary.as_str())
}

/// The announcement for `item` in the longer wording: [`breaking_news_bound_line`]
/// around the item's own summary.
pub fn notify_bound<T: Summary>(item: &T) -> (line: String)
    ensures
        exists|summary: Seq<char>|
            is_summary_of(item, summary) && line@ == breaking_news_bound_line(summary),
{
    let summary = item.summarize();
    assert(is_summary_of(item, summary@));
    breaking_news_bound(summary.as_str())
}

/// The lines that list the summaries of two items of one type: [`two_summaries_lines`]
/// of the first item's summary and the second's.
pub fn notify_bound2<T: Summary>(item1: &T, item2: &T) -> (lines: Vec<String>)
    ensures
        exists|first: Seq<char>, second: Seq<char>|
            is_summary_of(item1, first) && is_summary_of(item2, second) && lines.deep_view()
                == two_summaries_lines(first, second),
{
    let first = item1.summarize();
    let second = item2.summarize();
    assert(is_summary_of(item1, first@) && is_summary_of(item2, second@));
    two_summaries(first.as_str(), second.as_str())
}

/// The line for an item that can both render and summarize itself:
/// [`display_and_summary_line`] of its own rendering and its own summary.
pub fn notify_bound3<T: Summary + Display>(item: &T) -> (line: String)
    ensures
        exists|display: Seq<char>, summary: Seq<char>|
            is_display_of(item, display) && is_summary_of(item, summary) && line@
                == display_and_summary_line(display, summary),
{
    let display = item.display();
    let summary = item.summarize();
    assert(is_display_of(item, display@) && is_summary_of(item, summary@));
    display_and_summary(display.as_str(), summary.as_str())
}

/// A news article does not replace the default: its only summary is the
/// [`read_more`] wording around its author's name.
pub proof fn lemma_article_keeps_default(article: &NewsArticle, summary: Seq<char>)
    requires
        is_summary_of(article, summary),
    ensures
        summary == read_more(article.author@),
{
}

/// A tweet replaces the default: its only summary is [`tweet_summary`], which is
/// never the default wording around its handle.
pub proof fn lemma_tweet_replaces_default(tweet: &Tweet, summary: Seq<char>)
    requires
        is_summary_of(tweet, summary),
    ensures
        summary == tweet_summary(tweet.content@, tweet.username@),
        summary != read_more("@"@ + tweet.username@),
{
    reveal_strlit(", ");
    let handle = "@"@ + tweet.username@;
    assert(summary.len() == tweet.content@.len() + 2 + read_more(handle).len());
}

/// Generic code dispatches on the item it is given: announced through [`notify`], an
/// article carries the default summary and a tweet carries its own.
pub proof fn lemma_notify_dispatches(article: &NewsArticle, tweet: &Tweet, a: String, t: String)
    requires
        call_ensures(notify, (article,), a),
        call_ensures(notify, (tweet,), t),
    ensures
        a@ == breaking_news_line(read_more(article.author@)),
        t@ == breaking_news_line(tweet_summary(tweet.content@, tweet.username@)),
{
}

} // verus!
