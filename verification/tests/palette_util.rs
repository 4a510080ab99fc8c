use avid_rustacean::api::Url;
use avid_rustacean::blog::PagerQuery;
use avid_rustacean::palette::{
    gruvbox_from_rgb, indexed_color_str, indexed_gruvbox, GruvboxAccent, GruvboxColor,
    GruvboxNeutral, Shade,
};
use avid_rustacean::term::{get_screen_size, get_window_size, Position, ScrollMotion, TouchScroll};

#[test]
fn hex_strings_match_the_palette() {
    assert_eq!(GruvboxColor::dark_1().hex_str(), "#1d2021");
    assert_eq!(GruvboxColor::light_4().hex_str(), "#fbf1c7");
    assert_eq!(GruvboxColor::red().hex_str(), "#fb4934");
    assert_eq!(GruvboxColor::burnt_orange().hex_str(), "#d65d0e");
    assert_eq!(GruvboxColor::pink().hex_str(), "#d3869b");
}

#[test]
fn defaults_are_light_3_on_dark_2() {
    assert_eq!(
        GruvboxColor::default_fg(),
        GruvboxColor::Neutral(GruvboxNeutral::Light(Shade::Lighter))
    );
    assert_eq!(
        GruvboxColor::default_bg(),
        GruvboxColor::Neutral(GruvboxNeutral::Dark(Shade::Darker))
    );
}

#[test]
fn indexed_lookup_agrees_with_hex_table() {
    for i in 0..16u8 {
        assert_eq!(indexed_gruvbox(i).hex_str(), indexed_color_str(i));
    }
    assert_eq!(indexed_gruvbox(9), GruvboxColor::Accent(GruvboxAccent::BurntOrange));
    assert_eq!(indexed_color_str(0), "#1d2021");
    assert_eq!(indexed_color_str(15), "#d3869b");
}

#[test]
fn color_index_covers_all_sixteen_colours() {
    assert_eq!(GruvboxColor::dark_1().color_index(), 0);
    assert_eq!(GruvboxColor::light_4().color_index(), 7);
    assert_eq!(GruvboxColor::red().color_index(), 8);
    assert_eq!(GruvboxColor::orange().color_index(), 9);
    assert_eq!(GruvboxColor::burnt_orange().color_index(), 15);
}

#[test]
fn rgb_round_trip_for_known_colours() {
    assert_eq!(gruvbox_from_rgb(0x1d, 0x20, 0x21), Ok(GruvboxColor::dark_1()));
    assert_eq!(gruvbox_from_rgb(0xd6, 0x5d, 0x0e), Ok(GruvboxColor::burnt_orange()));
    assert!(gruvbox_from_rgb(1, 2, 3).is_err());
}

#[test]
fn window_and_screen_sizes_divide_raw_pixels() {
    assert_eq!(get_window_size(1200, 800), (120, 40));
    assert_eq!(get_screen_size(1200, 800), (120, 42));
    assert_eq!(get_window_size(0, 0), (0, 0));
}

#[test]
fn touch_positions_connect_within_two_hundred_units() {
    let origin = Position::new(0, 0);
    assert!(origin.is_connected(Position::new(200, 0)));
    assert!(!origin.is_connected(Position::new(201, 0)));
    assert!(origin.is_connected(Position::new(120, 120)));
}

#[test]
fn touch_series_yields_scrolls_per_threshold() {
    let mut touch = TouchScroll::new();
    touch.init_touch(0, 100);
    // Moving up 50 units: two scrolls of 20 with 10 left over.
    let scrolls = touch.add_touch(0, 50);
    assert_eq!(scrolls, vec![ScrollMotion::Up, ScrollMotion::Up]);
    // The 10 left over plus 15 more crosses the threshold once.
    let scrolls = touch.add_touch(0, 35);
    assert_eq!(scrolls, vec![ScrollMotion::Up]);
    // Moving down yields downward scrolls.
    let scrolls = touch.add_touch(0, 80);
    assert_eq!(scrolls, vec![ScrollMotion::Down, ScrollMotion::Down]);
    // A far-away touch is ignored.
    let scrolls = touch.add_touch(5000, 5000);
    assert!(scrolls.is_empty());
}

#[test]
fn pager_query_moves_between_pages() {
    let mut query = PagerQuery::default();
    assert_eq!(query.page_size, 20);
    assert_eq!(query.page_no, 0);
    query.prev();
    assert_eq!(query.page_no, 0);
    query.next();
    assert_eq!(query.page_no, 1);
    query.set_page(7);
    assert_eq!(query.page_no, 7);
    query.prev();
    assert_eq!(query.page_no, 6);
}

#[test]
fn url_routes_keep_their_text() {
    let base = Url::from("api/v1/blog");
    assert_eq!(base.as_str(), "api/v1/blog");
    let post = Url::new("api/v1/blog/:p_id", [":p_id"]);
    assert_eq!(post.as_str(), "api/v1/blog/:p_id");
}

#[test]
fn url_replace_fills_each_placeholder_once() {
    let url = Url::new("api/:a/:b", [":a", ":b"]);
    assert_eq!(url.replace(["one", "two"]), "api/one/two");
    let none = Url::from("api/static");
    assert_eq!(none.replace([]), "api/static");
}

#[test]
fn url_insert_fills_every_occurrence() {
    let url = Url::new("blog/:p_id/related/:p_id", [":p_id"]);
    assert_eq!(url.insert("42"), "blog/42/related/42");
    let single = Url::new("blog/:p_id", [":p_id"]);
    assert_eq!(single.insert("abc"), "blog/abc");
}
