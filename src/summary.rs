use vstd::prelude::*;
use vstd::string::StringExecFns;

verus! {

/// The capability of producing a short text about a value.
pub trait Summary {
    /// The text that `summarize` produces.
    spec fn summary(&self) -> Seq<char>;

    fn summarize(&self) -> (r: String)
        ensures
            r@ == self.summary(),
    ;
}

/// A long-form article.
pub struct NewsArticle {
    pub headline: String,
    pub location: String,
    pub author: String,
    pub content: String,
}

impl Summary for NewsArticle {
    /// `"{headline}, by {author} ({location})"`.
    open spec fn summary(&self) -> Seq<char> {
        self.headline@ + ", by "@ + self.author@ + " ("@ + self.location@ + ")"@
    }

    fn summarize(&self) -> (r: String) {
        self.headline.clone().concat(", by ").concat(self.author.as_str()).concat(" (").concat(
            self.location.as_str(),
        ).concat(")")
    }
}

/// A short-form post.
pub struct Tweet {
    pub username: String,
    pub content: String,
    pub reply: bool,
    pub retweet: bool,
}

impl Summary for Tweet {
    /// `"{username}: {content}"`.
    open spec fn summary(&self) -> Seq<char> {
        self.username@ + ": "@ + self.content@
    }

    fn summarize(&self) -> (r: String) {
        self.username.clone().concat(": ").concat(self.content.as_str())
    }
}

/// The text that the provided `summarize_2` builds around an author line.
pub open spec fn read_more(author: Seq<char>) -> Seq<char> {
    "(Read more from "@ + author + "...)"@
}

/// A capability whose one required operation names the author; the summary
/// itself is provided on top of it, and a type may replace it.
pub trait Summary_2 {
    fn summarize_author(&self) -> String;

    fn summarize_2(&self) -> (r: String)
        default_ensures
            exists|author: String|
                call_ensures(Self::summarize_author, (self,), author) && r@ == read_more(author@),
    {
        let author = self.summarize_author();
        String::from_str("(Read more from ").concat(author.as_str()).concat("...)")
    }
}

impl Summary_2 for Tweet {
    /// `"@{username}"`.
    fn summarize_author(&self) -> (r: String)
        ensures
            r@ == "@"@ + self.username@,
    {
        String::from_str("@").concat(self.username.as_str())
    }
}

/// The headline line for an item: `"Breaking news! {summary}"`.
pub fn breaking_news<T: Summary>(item: &T) -> (r: String)
    ensures
        r@ == "Breaking news! "@ + item.summary(),
{
    let summary = item.summarize();
    String::from_str("Breaking news! ").concat(summary.as_str())
}

/// Accepts any item that can be summarized and rendered.
pub fn notify_3<T: Summary + std::fmt::Display>(item: &T) {
}

/// Accepts any item that can be summarized and rendered (named bound form).
pub fn notify_4<T: Summary + std::fmt::Display>(item: &T) {
}

/// Accepts a renderable, clonable value and a debuggable, clonable one.
pub fn some_function<T: std::fmt::Display + Clone, U: Clone + std::fmt::Debug>(
    t: &T,
    u: &U,
) -> (r: i32)
    ensures
        r == 32,
{
    32
}

/// The same bounds as `some_function`, written as a `where` clause.
pub fn some_function_2<T, U>(t: &T, u: &U) -> (r: i32) where
    T: std::fmt::Display + Clone,
    U: Clone + std::fmt::Debug,
    ensures
        r == 32,
{
    32
}

/// Returns some summarizable value without naming its type.
pub fn returns_summarizable() -> (r: impl Summary)
    ensures
        r.summary() == "horse_ebooks: of course, as you probably already know, people"@,
{
    let t = Tweet {
        username: String::from_str("horse_ebooks"),
        content: String::from_str("of course, as you probably already know, people"),
        reply: false,
        retweet: false,
    };
    proof {
        assert(t.summary() == "horse_ebooks"@ + ": "@ + "of course, as you probably already know, people"@);
        reveal_strlit("horse_ebooks");
        reveal_strlit(": ");
        reveal_strlit("of course, as you probably already know, people");
        reveal_strlit("horse_ebooks: of course, as you probably already know, people");
        assert(t.summary() =~= "horse_ebooks: of course, as you probably already know, people"@);
    }
    t
}

} // verus!
