use avid_rustacean::blog::{BlogPost, PagerQuery, PostSummary, UnpublishedPost};
use avid_rustacean::cache::Cache;
use avid_rustacean::worker::{Command, Reply, StoreOp, Worker};

fn empty_cache() -> Cache {
    Cache::bootstrap(Vec::new(), Vec::new())
}

#[test]
fn create_then_get_observes_content() {
    let mut cache = empty_cache();
    let post = cache
        .create(String::from("Hello"), String::from("World"))
        .expect("a fresh random id should not collide in an empty cache");
    assert_eq!(post.title, "Hello");
    assert_eq!(post.body, "World");
    match cache.get(post.id) {
        Some(BlogPost::InProgress(draft)) => {
            assert_eq!(draft.id, post.id);
            assert_eq!(draft.title, "Hello");
            assert_eq!(draft.body, "World");
        }
        other => panic!("expected the draft back, got {other:?}"),
    }
}

#[test]
fn get_unknown_id_is_none() {
    let cache = empty_cache();
    assert!(cache.get(42).is_none());
}

#[test]
fn publish_unknown_id_returns_false() {
    let mut cache = empty_cache();
    assert!(!cache.publish(7));
    assert!(cache.get(7).is_none());
}

#[test]
fn publish_known_id_then_second_publish_fails() {
    let mut cache = empty_cache();
    let post = cache
        .create(String::from("T"), String::from("B"))
        .expect("create");
    assert!(cache.publish(post.id));
    match cache.get(post.id) {
        Some(BlogPost::Finished(done)) => {
            assert_eq!(done.id(), post.id);
            assert_eq!(done.title(), "T");
            assert_eq!(done.body(), "B");
        }
        other => panic!("expected a finished post, got {other:?}"),
    }
    assert!(!cache.publish(post.id));
}

#[test]
fn update_draft_preserves_id() {
    let mut cache = empty_cache();
    let post = cache
        .create(String::from("old title"), String::from("old body"))
        .expect("create");
    match cache.update(post.id, String::from("new title"), String::from("new body")) {
        Some(BlogPost::InProgress(draft)) => {
            assert_eq!(draft.id, post.id);
            assert_eq!(draft.title, "new title");
            assert_eq!(draft.body, "new body");
        }
        other => panic!("expected the updated draft, got {other:?}"),
    }
}

#[test]
fn update_published_preserves_id_and_date() {
    let mut cache = empty_cache();
    let post = cache
        .create(String::from("old title"), String::from("old body"))
        .expect("create");
    assert!(cache.publish_at(post.id, 1000));
    match cache.update(post.id, String::from("new title"), String::from("new body")) {
        Some(BlogPost::Finished(done)) => {
            assert_eq!(done.id(), post.id);
            assert_eq!(done.published_date(), 1000);
            assert_eq!(done.title(), "new title");
            assert_eq!(done.body(), "new body");
        }
        other => panic!("expected the updated post, got {other:?}"),
    }
    let pager = cache.get_pager(PagerQuery {
        page_size: 10,
        page_no: 0,
    });
    assert_eq!(pager.summaries.len(), 1);
    assert_eq!(pager.summaries[0].title(), "new title");
}

#[test]
fn update_unknown_id_is_none() {
    let mut cache = empty_cache();
    assert!(cache
        .update(99, String::from("t"), String::from("b"))
        .is_none());
}

#[test]
fn pager_pages_are_newest_first() {
    let mut cache = empty_cache();
    let p1 = cache.create(String::from("P1"), String::from("b1")).unwrap();
    let p2 = cache.create(String::from("P2"), String::from("b2")).unwrap();
    let p3 = cache.create(String::from("P3"), String::from("b3")).unwrap();
    assert!(cache.publish_at(p1.id, 1));
    assert!(cache.publish_at(p2.id, 2));
    assert!(cache.publish_at(p3.id, 3));

    let page0 = cache.get_pager(PagerQuery {
        page_size: 2,
        page_no: 0,
    });
    let titles0: Vec<&str> = page0.summaries.iter().map(|s| s.title()).collect();
    assert_eq!(titles0, vec!["P3", "P2"]);
    assert_eq!(page0.query.page_size, 2);
    assert_eq!(page0.query.page_no, 0);

    let page1 = cache.get_pager(PagerQuery {
        page_size: 2,
        page_no: 1,
    });
    let titles1: Vec<&str> = page1.summaries.iter().map(|s| s.title()).collect();
    assert_eq!(titles1, vec!["P1"]);

    let page2 = cache.get_pager(PagerQuery {
        page_size: 2,
        page_no: 2,
    });
    assert!(page2.summaries.is_empty());
}

#[test]
fn end_to_end_create_publish_list() {
    let mut cache = empty_cache();
    let created = cache
        .create(String::from("Hello"), String::from("World"))
        .expect("create");
    match cache.get(created.id) {
        Some(BlogPost::InProgress(draft)) => {
            assert_eq!(draft.title, "Hello");
            assert_eq!(draft.body, "World");
        }
        other => panic!("expected a draft, got {other:?}"),
    }
    assert!(cache.publish(created.id));
    match cache.get(created.id) {
        Some(BlogPost::Finished(done)) => {
            assert_eq!(done.id(), created.id);
            assert_eq!(done.title(), "Hello");
            assert_eq!(done.body(), "World");
        }
        other => panic!("expected a finished post, got {other:?}"),
    }
    let pager = cache.get_pager(PagerQuery {
        page_size: 1,
        page_no: 0,
    });
    assert_eq!(pager.summaries.len(), 1);
    assert_eq!(pager.summaries[0].id(), created.id);
    assert_eq!(pager.summaries[0].title(), "Hello");
}

#[test]
fn worker_applies_commands_in_order() {
    let mut worker = Worker::bootstrap(Vec::new(), Vec::new());
    let (reply, ops) = worker.handle_command(Command::Create {
        title: String::from("A"),
        body: String::from("1"),
    });
    let created = match reply {
        Reply::Created(Some(post)) => post,
        other => panic!("expected a created draft, got {other:?}"),
    };
    assert_eq!(ops.len(), 1);
    match &ops[0] {
        StoreOp::UpsertUnpublished(p) => assert_eq!(p.id, created.id),
        other => panic!("expected a draft upsert, got {other:?}"),
    }

    let (reply, ops) = worker.handle_command(Command::Get { id: created.id });
    assert!(ops.is_empty());
    match reply {
        Reply::Post(Some(BlogPost::InProgress(draft))) => {
            assert_eq!(draft.title, "A");
            assert_eq!(draft.body, "1");
        }
        other => panic!("expected the draft back, got {other:?}"),
    }

    let (reply, ops) = worker.handle_command(Command::Publish { id: created.id });
    assert!(matches!(reply, Reply::Published(true)));
    assert_eq!(ops.len(), 2);
    match &ops[0] {
        StoreOp::DeleteUnpublished(id) => assert_eq!(*id, created.id),
        other => panic!("expected a draft delete, got {other:?}"),
    }
    match &ops[1] {
        StoreOp::UpsertPublished(p) => assert_eq!(p.id(), created.id),
        other => panic!("expected a published upsert, got {other:?}"),
    }

    let (reply, ops) = worker.handle_command(Command::Publish { id: created.id });
    assert!(matches!(reply, Reply::Published(false)));
    assert!(ops.is_empty());

    let (reply, ops) = worker.handle_command(Command::GetPager {
        query: PagerQuery {
            page_size: 1,
            page_no: 0,
        },
    });
    assert!(ops.is_empty());
    match reply {
        Reply::Pager(pager) => {
            assert_eq!(pager.summaries.len(), 1);
            assert_eq!(pager.summaries[0].id(), created.id);
        }
        other => panic!("expected a page, got {other:?}"),
    }
}

#[test]
fn worker_update_unknown_persists_nothing() {
    let mut worker = Worker::bootstrap(Vec::new(), Vec::new());
    let (reply, ops) = worker.handle_command(Command::Update {
        id: 5,
        title: String::from("t"),
        body: String::from("b"),
    });
    assert!(matches!(reply, Reply::Updated(None)));
    assert!(ops.is_empty());
}

#[test]
fn bootstrap_orders_summaries_by_date() {
    let newer = UnpublishedPost::new(1, String::from("new"), String::from("n")).publish_at(200);
    let older = UnpublishedPost::new(2, String::from("old"), String::from("o")).publish_at(100);
    let cache = Cache::bootstrap(vec![newer, older], Vec::new());
    let pager = cache.get_pager(PagerQuery {
        page_size: 5,
        page_no: 0,
    });
    let titles: Vec<&str> = pager.summaries.iter().map(|s| s.title()).collect();
    assert_eq!(titles, vec!["new", "old"]);
}

#[test]
fn bootstrap_prefers_published_over_draft_for_one_id() {
    let published = UnpublishedPost::new(9, String::from("done"), String::from("x")).publish_at(50);
    let draft = UnpublishedPost::new(9, String::from("draft"), String::from("y"));
    let cache = Cache::bootstrap(vec![published], vec![draft]);
    match cache.get(9) {
        Some(BlogPost::Finished(p)) => assert_eq!(p.title(), "done"),
        other => panic!("expected the published post to win, got {other:?}"),
    }
}

#[test]
fn lost_persistence_means_lost_post_after_restart() {
    // Durability limitation: a create whose detached persistence write
    // failed leaves no record, so a rebuilt cache does not contain it.
    let mut cache = empty_cache();
    let post = cache
        .create(String::from("ephemeral"), String::from("gone"))
        .expect("create");
    let rebuilt = Cache::bootstrap(Vec::new(), Vec::new());
    assert!(rebuilt.get(post.id).is_none());
}

#[test]
fn summary_from_published_post() {
    let post = UnpublishedPost::new(3, String::from("T"), String::from("B")).publish_at(77);
    let summary = PostSummary::from(&post);
    assert_eq!(summary.id(), 3);
    assert_eq!(summary.title(), "T");
    assert_eq!(summary.published_date(), 77);
}
