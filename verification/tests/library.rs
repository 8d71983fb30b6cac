use validated_accumulator::guess::Guess;
use validated_accumulator::numbers::{five, largest};
use validated_accumulator::restaurant::{another_eat, add_to_waitlist, Appetizer, Breakfast};
use validated_accumulator::shapes::{calculate, Point, PointTwo, Rect, Rectangle};
use validated_accumulator::summary::{
    returns_summarizable, GetGreet, Hello, NewsArticle, Summary, SummaryDefault, Tweet,
};
use validated_accumulator::text::{
    calculate_length, change, first_word, first_word_slice, gives_ownership, longest,
    takes_and_gives_back,
};
use validated_accumulator::users::build_user;

#[test]
fn guess_round_trips_its_value() {
    let g = Guess::new(10);
    assert_eq!(g.value(), 10);
    assert_eq!(Guess::new(1).value(), 1);
    assert_eq!(Guess::new(100).value(), 100);
}

#[test]
fn five_is_five() {
    assert_eq!(five(), 5);
}

#[test]
fn largest_finds_the_maximum() {
    assert_eq!(largest(&vec![34, 50, 25, 100, 65]), 100);
    assert_eq!(largest(&vec![7]), 7);
    assert_eq!(largest(&vec![-3, -1, -2]), -1);
}

#[test]
fn breakfast_in_summer_has_peaches() {
    let meal = Breakfast::summer("Rye");
    assert_eq!(meal.toast, String::from("Rye"));
    let mut meal = meal;
    meal.toast = String::from("Wheat");
    assert_eq!(meal.toast, String::from("Wheat"));
}

#[test]
fn restaurant_flow_runs() {
    add_to_waitlist();
    another_eat();
    let _starter = Appetizer::Soup;
    let _other = Appetizer::Salad;
}

#[test]
fn rectangle_area_and_containment() {
    let rect1 = Rectangle { width: 15, height: 15 };
    assert_eq!(rect1.area(), 225);
    let rect2 = Rectangle { width: 10, height: 10 };
    assert!(rect1.can_hold(&rect2));
    assert!(!rect2.can_hold(&rect1));
    let sq = Rectangle::square(15);
    assert_eq!(sq.width, 15);
    assert_eq!(sq.height, 15);
    assert_eq!(calculate(&Rect(10, 10)), 100);
}

#[test]
fn points_mix_their_fields() {
    let p = Point { x: 5, y: 10 };
    assert_eq!(*p.x(), 5);
    let a = PointTwo { x: 5, y: 10.4 };
    let b = PointTwo { x: "Hello", y: 'c' };
    let mixed = a.mixup(b);
    assert_eq!(mixed.x, 5);
    assert_eq!(mixed.y, 'c');
}

#[test]
fn build_user_sets_the_defaults() {
    let user = build_user(
        String::from("someone@example.com"),
        String::from("someusername123"),
    );
    assert_eq!(user.email, String::from("someone@example.com"));
    assert_eq!(user.username, String::from("someusername123"));
    assert!(user.active);
    assert_eq!(user.sign_in_count, 1);
}

#[test]
fn tweet_summary_is_user_and_content() {
    let tweet = Tweet {
        username: String::from("horse_ebooks"),
        content: String::from("of course, as you probably already know, people"),
        reply: false,
        retweet: false,
    };
    assert_eq!(
        tweet.summarize(),
        String::from("horse_ebooks: of course, as you probably already know, people")
    );
}

#[test]
fn article_summary_points_at_the_author() {
    let article = NewsArticle {
        headline: String::from("Penguins win the Stanley Cup Championship!"),
        location: String::from("Pittsburgh, PA, USA"),
        author: String::from("Iceburgh"),
        content: String::from("The Pittsburgh Penguins once again are the best hockey team in the NHL."),
    };
    assert_eq!(article.summarize_author(), String::from("@Iceburgh"));
    assert_eq!(article.summarize(), String::from("(Read more from @Iceburgh)"));
}

#[test]
fn returns_summarizable_returns_the_sample_tweet() {
    let tweet = returns_summarizable();
    assert_eq!(tweet.username, String::from("horse_ebooks"));
    assert!(!tweet.reply);
    assert!(!tweet.retweet);
}

#[test]
fn hello_greets() {
    let greet = Hello { greeting: String::from("hello!") };
    assert_eq!(greet.get(), String::from("hello!"));
}

#[test]
fn first_word_stops_at_the_space() {
    let s = String::from("hello world");
    assert_eq!(first_word(&s), "hello");
    assert_eq!(first_word_slice("hello world"), "hello");
    assert_eq!(first_word_slice("hello"), "hello");
    assert_eq!(first_word_slice(""), "");
    assert_eq!(first_word_slice(" lead"), "");
}

#[test]
fn longest_picks_more_characters() {
    assert_eq!(longest("abcd", "xyz"), "abcd");
    assert_eq!(longest("ab", "xyz"), "xyz");
    // Ties go to the second argument.
    assert_eq!(longest("ab", "cd"), "cd");
}

#[test]
fn ownership_helpers() {
    assert_eq!(gives_ownership(), String::from("zz"));
    let s = String::from("hello");
    assert_eq!(takes_and_gives_back(s), String::from("hello"));
    assert_eq!(calculate_length(&String::from("hiiii")), 5);
    let mut s = String::from("Hello");
    change(&mut s);
    assert_eq!(s, String::from("Hello, world"));
}
