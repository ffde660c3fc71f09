use primer::summary::{
    breaking_news, breaking_news_bound, display_and_summary, notify, notify_bound, notify_bound2,
    notify_bound3, read_more_from, two_summaries, Display, NewsArticle, Summary, Tweet,
};

fn article() -> NewsArticle {
    NewsArticle {
        headline: String::from("Penguins win the Stanley Cup Championship!"),
        location: String::from("Pittsburgh, PA, USA"),
        author: String::from("Iceburgh"),
        content: String::from(
            "The Pittsburgh Penguins once again are the best hockey team in the NHL.",
        ),
    }
}

fn tweet() -> Tweet {
    Tweet {
        username: String::from("horse_ebooks"),
        content: String::from("of course, as you probably already know, people"),
        reply: false,
        retweet: false,
    }
}

#[test]
fn article_author_is_the_plain_name() {
    assert_eq!(article().summarize_author(), "Iceburgh");
}

#[test]
fn article_uses_the_default_summary() {
    assert_eq!(article().summarize(), "(Read more from Iceburgh...)");
}

#[test]
fn tweet_author_is_the_handle() {
    assert_eq!(tweet().summarize_author(), "@horse_ebooks");
}

#[test]
fn tweet_overrides_the_summary() {
    let summary = tweet().summarize();
    assert_eq!(
        summary,
        "of course, as you probably already know, people, (Read more from @horse_ebooks...)"
    );
    assert_ne!(summary, "(Read more from @horse_ebooks...)");
}

#[test]
fn summaries_leave_the_items_alone() {
    let item = tweet();
    let first = item.summarize();
    let second = item.summarize();
    assert_eq!(first, second);
    assert_eq!(item.username, "horse_ebooks");
    assert_eq!(item.content, "of course, as you probably already know, people");
    assert!(!item.reply);
    assert!(!item.retweet);
}

#[test]
fn read_more_wording() {
    assert_eq!(read_more_from("Iceburgh"), "(Read more from Iceburgh...)");
    assert_eq!(read_more_from(""), "(Read more from ...)");
}

#[test]
fn notify_announces_the_default_summary_of_an_article() {
    assert_eq!(
        notify(&article()),
        "Breaking news with trait as parameter! (Read more from Iceburgh...)"
    );
}

#[test]
fn notify_announces_the_own_summary_of_a_tweet() {
    assert_eq!(
        notify(&tweet()),
        "Breaking news with trait as parameter! of course, as you probably already know, people, \
         (Read more from @horse_ebooks...)"
    );
}

#[test]
fn notify_bound_uses_the_longer_wording() {
    assert_eq!(
        notify_bound(&article()),
        "Breaking news with trait as parameter using the bound syntax! \
         (Read more from Iceburgh...)"
    );
}

#[test]
fn notify_bound2_lists_both_summaries() {
    let first = Tweet {
        username: String::from("a"),
        content: String::from("one"),
        reply: false,
        retweet: true,
    };
    let second = Tweet {
        username: String::from("b"),
        content: String::from("two"),
        reply: true,
        retweet: false,
    };
    assert_eq!(
        notify_bound2(&first, &second),
        vec![
            String::from("Two things want to be summarized!"),
            String::from("1: one, (Read more from @a...)"),
            String::from("2: two, (Read more from @b...)"),
        ]
    );
}

struct Plain {
    by: String,
}

impl Summary for Plain {
    fn summarize_author(&self) -> String {
        self.by.clone()
    }
}

impl Display for Plain {
    fn display(&self) -> String {
        format!("<{}>", self.by)
    }
}

struct Loud {
    by: String,
}

impl Summary for Loud {
    fn summarize_author(&self) -> String {
        self.by.clone()
    }

    fn summarize(&self) -> String {
        format!("{}!", self.by.to_uppercase())
    }
}

impl Display for Loud {
    fn display(&self) -> String {
        String::from("loud")
    }
}

#[test]
fn default_summary_follows_the_implementers_author() {
    let item = Plain { by: String::from("Iceburgh") };
    assert_eq!(item.summarize(), "(Read more from Iceburgh...)");
    assert_eq!(
        notify(&item),
        "Breaking news with trait as parameter! (Read more from Iceburgh...)"
    );
}

#[test]
fn override_replaces_the_default_in_generic_code() {
    let item = Loud { by: String::from("ann") };
    assert_eq!(item.summarize(), "ANN!");
    assert_eq!(notify(&item), "Breaking news with trait as parameter! ANN!");
    assert_eq!(
        notify_bound(&item),
        "Breaking news with trait as parameter using the bound syntax! ANN!"
    );
}

#[test]
fn notify_bound3_joins_display_and_summary() {
    assert_eq!(
        notify_bound3(&Plain { by: String::from("bo") }),
        "Display: <bo>, Summary: (Read more from bo...)"
    );
    assert_eq!(
        notify_bound3(&Loud { by: String::from("cy") }),
        "Display: loud, Summary: CY!"
    );
}

#[test]
fn announcement_lines_from_given_summaries() {
    assert_eq!(breaking_news("s"), "Breaking news with trait as parameter! s");
    assert_eq!(
        breaking_news_bound("s"),
        "Breaking news with trait as parameter using the bound syntax! s"
    );
    assert_eq!(
        two_summaries("a", "b"),
        vec![
            String::from("Two things want to be summarized!"),
            String::from("1: a"),
            String::from("2: b"),
        ]
    );
    assert_eq!(display_and_summary("d", "s"), "Display: d, Summary: s");
}
