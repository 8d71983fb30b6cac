//! Summaries: a trait for one-line descriptions of content, with two
//! implementing types and a default-method variant.

use vstd::prelude::*;

verus! {

/// Content that can describe itself in one line.
pub trait Summary {
    /// The abstract content of the one-line description.
    spec fn summary_desc(&self) -> Seq<char>;

    /// Produce the one-line description.
    fn summarize(&self) -> (r: String)
        ensures
            r@ == self.summary_desc(),
    ;
}

/// A short post by a user.
pub struct Tweet {
    /// Who posted it.
    pub username: String,
    /// What it says.
    pub content: String,
    /// Whether it answers another post.
    pub reply: bool,
    /// Whether it repeats another post.
    pub retweet: bool,
}

impl Summary for Tweet {
    open spec fn summary_desc(&self) -> Seq<char> {
        self.username@ + ": "@ + self.content@
    }

    fn summarize(&self) -> (r: String) {
        let mut s = self.username.clone();
        s.append(": ");
        s.append(self.content.as_str());
        s
    }
}

/// A news story.
pub struct NewsArticle {
    /// The story's title.
    pub headline: String,
    /// Where it happened.
    pub location: String,
    /// Who wrote it.
    pub author: String,
    /// The story itself.
    pub content: String,
}

/// Content that names its author; the description defaults to pointing the
/// reader at that author.
pub trait SummaryDefault {
    /// The abstract content of the author line.
    spec fn author_desc(&self) -> Seq<char>;

    /// Name the author.
    fn summarize_author(&self) -> (r: String)
        ensures
            r@ == self.author_desc(),
    ;

    /// Describe the content; by default, refer the reader to the author.
    fn summarize(&self) -> (r: String)
        ensures
            r@ == "(Read more from "@ + self.author_desc() + ")"@,
    {
        let mut s = String::from_str("(Read more from ");
        let a = self.summarize_author();
        s.append(a.as_str());
        s.append(")");
        s
    }
}

impl SummaryDefault for NewsArticle {
    open spec fn author_desc(&self) -> Seq<char> {
        "@"@ + self.author@
    }

    fn summarize_author(&self) -> (r: String) {
        let mut s = String::from_str("@");
        s.append(self.author.as_str());
        s
    }
}

/// Something that offers a greeting.
pub trait GetGreet {
    /// The abstract content of the greeting.
    spec fn greeting_desc(&self) -> Seq<char>;

    /// Produce the greeting.
    fn get(&self) -> (r: String)
        ensures
            r@ == self.greeting_desc(),
    ;
}

/// A fixed greeting.
pub struct Hello {
    /// The greeting held.
    pub greeting: String,
}

impl GetGreet for Hello {
    open spec fn greeting_desc(&self) -> Seq<char> {
        self.greeting@
    }

    fn get(&self) -> (r: String) {
        self.greeting.clone()
    }
}

/// The sample post that the summary examples use.
pub fn returns_summarizable() -> (r: Tweet)
    ensures
        r.username@ == "horse_ebooks"@,
        r.content@ == "of course, as you probably already know, people"@,
        r.reply == false,
        r.retweet == false,
{
    Tweet {
        username: String::from_str("horse_ebooks"),
        content: String::from_str("of course, as you probably already know, people"),
        reply: false,
        retweet: false,
    }
}

} // verus!
