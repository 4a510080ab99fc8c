use avid_rustacean::blog::{BlogPost, UnpublishedPost};
use avid_rustacean::content::{CreatePost, CreateProject, UpdateHome};

#[test]
fn draft_update_replaces_title_and_body() {
    let mut draft = UnpublishedPost::new(11, String::from("a"), String::from("b"));
    draft.update(String::from("c"), String::from("d"));
    assert_eq!(draft.id, 11);
    assert_eq!(draft.title, "c");
    assert_eq!(draft.body, "d");
}

#[test]
fn publish_at_keeps_content_and_stamps_date() {
    let draft = UnpublishedPost::new(12, String::from("t"), String::from("b"));
    let done = draft.publish_at(987);
    assert_eq!(done.id(), 12);
    assert_eq!(done.published_date(), 987);
    assert_eq!(done.title(), "t");
    assert_eq!(done.body(), "b");
}

#[test]
fn blog_post_update_works_on_both_variants() {
    let mut in_progress =
        BlogPost::InProgress(UnpublishedPost::new(1, String::from("x"), String::from("y")));
    in_progress.update(String::from("x2"), String::from("y2"));
    match in_progress {
        BlogPost::InProgress(draft) => {
            assert_eq!(draft.id, 1);
            assert_eq!(draft.title, "x2");
            assert_eq!(draft.body, "y2");
        }
        other => panic!("variant changed: {other:?}"),
    }

    let mut finished = BlogPost::Finished(
        UnpublishedPost::new(2, String::from("p"), String::from("q")).publish_at(5),
    );
    finished.update(String::from("p2"), String::from("q2"));
    match finished {
        BlogPost::Finished(post) => {
            assert_eq!(post.id(), 2);
            assert_eq!(post.published_date(), 5);
            assert_eq!(post.title(), "p2");
            assert_eq!(post.body(), "q2");
        }
        other => panic!("variant changed: {other:?}"),
    }
}

#[test]
fn content_payloads_hold_their_fields() {
    let post = CreatePost {
        title: String::from("t"),
        summary: String::from("s"),
        body: String::from("b"),
    };
    assert_eq!(post.title, "t");
    let project = CreateProject {
        name: String::from("n"),
        summary: String::from("s"),
        body: String::from("b"),
    };
    assert_eq!(project.name, "n");
    let home = UpdateHome {
        body: String::from("h"),
    };
    assert_eq!(home.body, "h");
}
