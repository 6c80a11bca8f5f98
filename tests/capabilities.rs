use polykit::pair::Pair;
use polykit::summary::{
    breaking_news, returns_summarizable, some_function, some_function_2, NewsArticle, Summary,
    Summary_2, Tweet,
};

struct Plain;

impl Summary_2 for Plain {
    fn summarize_author(&self) -> String {
        String::from("x")
    }
}

struct Custom;

impl Summary_2 for Custom {
    fn summarize_author(&self) -> String {
        String::from("x")
    }

    fn summarize_2(&self) -> String {
        String::from("custom summary")
    }
}

struct Unordered {
    label: String,
}

fn horse_tweet() -> Tweet {
    Tweet {
        username: String::from("horse_ebooks"),
        content: String::from("of course, as you probably already know, people"),
        reply: false,
        retweet: false,
    }
}

#[test]
fn article_summary() {
    let article = NewsArticle {
        headline: String::from("Penguins win the Stanley Cup Championship!"),
        location: String::from("Pittsburgh, PA, USA"),
        author: String::from("Iceburgh"),
        content: String::from("The Pittsburgh Penguins once again are the best hockey team in the NHL."),
    };
    assert_eq!(
        article.summarize(),
        "Penguins win the Stanley Cup Championship!, by Iceburgh (Pittsburgh, PA, USA)"
    );
}

#[test]
fn tweet_summary() {
    assert_eq!(
        horse_tweet().summarize(),
        "horse_ebooks: of course, as you probably already know, people"
    );
}

#[test]
fn default_summary_uses_author() {
    assert_eq!(Plain.summarize_2(), "(Read more from x...)");
    assert_eq!(horse_tweet().summarize_author(), "@horse_ebooks");
    assert_eq!(horse_tweet().summarize_2(), "(Read more from @horse_ebooks...)");
}

#[test]
fn overridden_summary_bypasses_default() {
    assert_eq!(Custom.summarize_2(), "custom summary");
    assert_eq!(Custom.summarize_author(), "x");
}

#[test]
fn breaking_news_line() {
    assert_eq!(
        breaking_news(&horse_tweet()),
        "Breaking news! horse_ebooks: of course, as you probably already know, people"
    );
}

#[test]
fn hidden_type_still_summarizes() {
    let item = returns_summarizable();
    assert_eq!(
        item.summarize(),
        "horse_ebooks: of course, as you probably already know, people"
    );
}

#[test]
fn bounded_functions_return_constant() {
    assert_eq!(some_function(&5, &vec![1, 2]), 32);
    assert_eq!(some_function_2(&"text", &'c'), 32);
}

#[test]
fn pair_names_larger_member() {
    assert_eq!(Pair::new(5, 10).cmp_display(), "The largest member is y = 10");
    assert_eq!(Pair::new(10, 5).cmp_display(), "The largest member is x = 10");
    assert_eq!(Pair::new(-3, -3).cmp_display(), "The largest member is x = -3");
    assert_eq!(
        Pair::new(String::from("pear"), String::from("plum")).cmp_display(),
        "The largest member is y = plum"
    );
}

#[test]
fn pair_without_order_still_builds() {
    let p = Pair::new(
        Unordered { label: String::from("a") },
        Unordered { label: String::from("b") },
    );
    assert_eq!(p.x.label, "a");
    assert_eq!(p.y.label, "b");
}
