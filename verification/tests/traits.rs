use basic_learning::generic_and_traits::blanket::{func as text_behind_trait, Summary2};
use basic_learning::generic_and_traits::self_demo;
use basic_learning::generic_and_traits::trait_demo::{add, largest, File, FileState, Point};
use basic_learning::generic_and_traits::trait_object_test_1;
use basic_learning::generic_and_traits::trait_object_test_2::{
    draw1, draw2, run_2, Button, Draw, Screen, SelectBox,
};
use basic_learning::generic_and_traits::trait_test::{
    func, func_use_where, notify1, notify2, notify3, notify4, run_3, run_4, run_5, Pair, Post,
    Post1, Summary, Summary1, Weibo, Weibo1,
};

fn post1() -> Post1 {
    Post1 {
        title: "Rust语言简介".to_string(),
        author: "Sunface".to_string(),
        content: "Rust棒极了!".to_string(),
    }
}

#[test]
fn post_and_weibo_summaries() {
    let post = Post {
        title: "Rust语言简介".to_string(),
        author: "Sunface".to_string(),
        content: "Rust棒极了!".to_string(),
    };
    let weibo = Weibo {
        username: "sunface".to_string(),
        content: "好像微博没Tweet好用".to_string(),
    };
    assert_eq!(post.summarize(), "文章Rust语言简介, 作者是Sunface");
    assert_eq!(weibo.summarize(), "sunface发表了微博好像微博没Tweet好用");
    assert_eq!(post.summarize(), format!("文章{}, 作者是{}", post.title, post.author));
    assert_eq!(weibo.summarize(), format!("{}发表了微博{}", weibo.username, weibo.content));
}

#[test]
fn default_summary_and_overriding_it() {
    let post = post1();
    let weibo = Weibo1 {
        username: "sunface".to_string(),
        content: "好像微博没Tweet好用".to_string(),
    };
    assert_eq!(post.summarize(), "文章Rust语言简介, 作者是Sunface");
    assert_eq!(weibo.summarize(), "(Read more...)");
}

#[test]
fn string_has_a_summary_of_its_own() {
    let s = String::from("string");
    assert_eq!(Summary1::summarize(&s), "这是一个String的summarize实现,str为string");
    assert_eq!(Summary1::summarize(&String::new()), "这是一个String的summarize实现,str为");
}

#[test]
fn everything_displayed_reads_more() {
    assert_eq!(Summary2::summarize(&"文本"), "(Read more...)");
    assert_eq!(Summary2::summarize(&42u8), "(Read more...)");
    assert_eq!(Summary2::summarize(&String::from("x")), "(Read more...)");
    let n = text_behind_trait();
    assert_eq!(n.summarize(), "(Read more...)");
}

#[test]
fn bounds_accept_what_has_the_traits() {
    let post = post1();
    let s = String::from("string");
    notify1(&post);
    notify1(&s);
    notify2(&post, &s);
    notify2(&post, &post);
    notify3(&post, &post);
    notify4(&s);
    run_3();
    run_4();
    run_5();
    assert_eq!(func_use_where(&1u8, &s), 18);
    assert_eq!(func(&1u8, &s), 0);
}

#[test]
fn pair_keeps_its_members_and_finds_the_largest() {
    let p = Pair::new(3, 7);
    assert_eq!((p.x, p.y), (3, 7));
    assert!(!p.cmp_display());
    assert!(Pair::new(7, 3).cmp_display());
    assert!(Pair::new(5, 5).cmp_display());
    assert!(Pair::new("b", "a").cmp_display());
    assert!(!Pair::new(f64::NAN, 1.0).cmp_display());
}

#[test]
fn largest_of_numbers_and_letters() {
    assert_eq!(largest(&[3, 5, 1]), 5);
    assert_eq!(largest(&['d', 'b', 'g']), 'g');
    assert_eq!(largest(&[7]), 7);
    assert_eq!(largest(&[2, 2, 2]), 2);
    assert_eq!(largest(&[-3, -1, -2]), -1);
    assert_eq!(largest(&[1.5, 0.5, 2.5]), 2.5);
    assert_eq!(largest(&[i32::MIN, i32::MAX, 0]), i32::MAX);
}

#[test]
fn add_and_points() {
    assert_eq!(add(2i8, 3i8), 5);
    assert_eq!(add(20, 30), 50);
    assert_eq!(add(1.23, 1.23), 2.46);
    let p = Point { x: 1i32, y: 1i32 } + Point { x: 2i32, y: 2i32 };
    assert_eq!((p.x, p.y), (3, 3));
    let q = Point { x: 1.1f32, y: 1.1f32 } + Point { x: 2.1f32, y: 2.1f32 };
    assert_eq!((q.x, q.y), (1.1f32 + 2.1f32, 1.1f32 + 2.1f32));
    let r = add(Point { x: 1u8, y: 2u8 }, Point { x: 10u8, y: 20u8 });
    assert_eq!((r.x, r.y), (11, 22));
}

#[test]
fn file_texts() {
    let f6 = File::new("f6.txt");
    assert_eq!(f6.name, "f6.txt");
    assert!(f6.data.is_empty());
    assert!(matches!(f6.state, FileState::Closed));
    assert_eq!(f6.to_debug_text(), "Debug: <f6.txt (CLOSED)>");
    assert_eq!(f6.to_text(), "Display: <f6.txt (CLOSED)>");
    let open = File { name: "a".to_string(), data: vec![1, 2], state: FileState::Open };
    assert_eq!(open.to_text(), "Display: <a (OPEN)>");
    assert_eq!(open.to_debug_text(), "Debug: <a (OPEN)>");
    assert_eq!(FileState::Open.to_text(), "OPEN");
    assert_eq!(FileState::Closed.to_text(), "CLOSED");
}

#[test]
fn trait_object_chosen_at_run_time() {
    let t = trait_object_test_1::returns_summarizable(true);
    let f = trait_object_test_1::returns_summarizable(false);
    assert_eq!(t.summarize(), "Summary Post.summarize");
    assert_eq!(f.summarize(), "Summary Weibo.summarize");
}

#[test]
fn trait_object_default_summary() {
    struct Plain;
    impl trait_object_test_1::Summary for Plain {}
    assert_eq!(trait_object_test_1::Summary::summarize(&Plain), "Summary Default.summarize");
}

#[test]
fn drawing_through_trait_objects() {
    let y = 8u8;
    assert_eq!(draw1(Box::new(y)), "u8: 8");
    assert_eq!(draw2(&y), "u8: 8");
    assert_eq!(draw2(&0u8), "u8: 0");
    assert_eq!(draw2(&255u8), "u8: 255");
    let button = Button { width: 50, height: 10, label: String::from("OK") };
    assert_eq!(draw2(&button), "Button Draw");
    assert_eq!(draw1(Box::new(button)), "Button Draw");
    for v in 0u8..=255 {
        assert_eq!(v.draw(), format!("u8: {}", v));
    }
}

#[test]
fn screen_draws_components_in_order() {
    assert_eq!(run_2(), vec!["SelectBox Draw".to_string(), "Button Draw".to_string()]);
    let screen = Screen {
        components: vec![
            Box::new(7u8),
            Box::new(SelectBox { width: 1, height: 2, options: vec![String::from("Yes")] }),
        ],
    };
    assert_eq!(screen.run(), vec!["u8: 7".to_string(), "SelectBox Draw".to_string()]);
    assert!(Screen { components: Vec::new() }.run().is_empty());
}

#[test]
fn button_draws_itself() {
    let new_b = self_demo::run();
    assert_eq!(format!("{:?}", new_b), "Button");
    let again = self_demo::Draw::draw(&new_b);
    assert_eq!(format!("{:?}", again), "Button");
}
