use rustconf_explorer::explorer::{Effect, Explorer, LoadError, LoadStatus, CATALOG_PATH};
use rustconf_explorer::render::{video_details, videos_list};
use rustconf_explorer::video::Video;

fn two_talks() -> Vec<Video> {
    vec![
        Video::new(1, "Intro", "A. Dev", "/v1.mp4"),
        Video::new(2, "Deep Dive", "B. Dev", "/v2.mp4"),
    ]
}

fn labels(rows: &[rustconf_explorer::render::ListRow]) -> Vec<String> {
    rows.iter().map(|r| r.label.clone()).collect()
}

#[test]
fn list_has_one_row_per_record_in_order() {
    let videos = vec![
        Video::new(7, "Zeta", "Z. Speaker", "/z.mp4"),
        Video::new(3, "Alpha", "A. Speaker", "/a.mp4"),
        Video::new(5, "Mu", "M. Speaker", "/m.mp4"),
    ];
    let rows = videos_list(&videos);
    assert_eq!(rows.len(), 3);
    assert_eq!(labels(&rows), vec!["Z. Speaker: Zeta", "A. Speaker: Alpha", "M. Speaker: Mu"]);
    assert_eq!(rows.iter().map(|r| r.key).collect::<Vec<_>>(), vec![7, 3, 5]);
    for (row, video) in rows.iter().zip(videos.iter()) {
        assert_eq!(&row.video, video);
    }
}

#[test]
fn empty_catalog_renders_no_rows() {
    assert!(videos_list(&Vec::new()).is_empty());
}

#[test]
fn details_show_title_speaker_and_media() {
    let v = Video::new(9, "Ownership", "C. Dev", "https://cdn.example/own.mp4");
    let d = video_details(&v);
    assert_eq!(d.title, "Ownership");
    assert_eq!(d.speaker, "C. Dev");
    assert_eq!(d.media_src, "https://cdn.example/own.mp4");
    assert!(d.controls);
}

#[test]
fn renders_are_idempotent() {
    let videos = two_talks();
    assert_eq!(videos_list(&videos), videos_list(&videos));
    assert_eq!(video_details(&videos[0]), video_details(&videos[0]));
    let mut app = Explorer::new();
    app.finish_load(Ok(two_talks()));
    app.select(videos[1].clone());
    assert_eq!(app.render(), app.render());
}

#[test]
fn activating_a_row_hands_over_its_record() {
    let videos = two_talks();
    let rows = videos_list(&videos);
    assert_eq!(rows[1].activate(), videos[1]);
}

#[test]
fn no_details_before_any_activation() {
    let mut app = Explorer::new();
    assert!(app.render().details.is_none());
    app.mount();
    assert!(app.render().details.is_none());
    app.finish_load(Ok(two_talks()));
    assert!(app.render().details.is_none());
}

#[test]
fn selection_shows_exactly_the_activated_record() {
    let mut app = Explorer::new();
    app.mount();
    app.finish_load(Ok(two_talks()));
    let rows = app.render().rows.unwrap();
    app.select(rows[0].activate());
    app.select(rows[1].activate());
    let details = app.render().details.unwrap();
    assert_eq!(details, video_details(&two_talks()[1]));
    assert_eq!(app.selection(), &Some(two_talks()[1].clone()));
}

#[test]
fn load_replaces_the_catalog_and_keeps_the_selection() {
    let mut app = Explorer::new();
    app.finish_load(Ok(vec![Video::new(4, "Old", "O. Dev", "/old.mp4")]));
    app.select(Video::new(4, "Old", "O. Dev", "/old.mp4"));
    app.finish_load(Ok(two_talks()));
    assert_eq!(app.catalog(), &two_talks());
    let page = app.render();
    assert_eq!(labels(&page.rows.unwrap()), vec!["A. Dev: Intro", "B. Dev: Deep Dive"]);
    assert_eq!(page.details.unwrap().title, "Old");
}

#[test]
fn mount_fetches_once() {
    let mut app = Explorer::new();
    assert_eq!(app.status(), &LoadStatus::Idle);
    assert_eq!(app.mount(), Effect::Fetch { path: CATALOG_PATH.to_string() });
    assert_eq!(CATALOG_PATH, "/tutorial/data.json");
    assert_eq!(app.status(), &LoadStatus::Loading);
    assert_eq!(app.mount(), Effect::Nothing);
    app.finish_load(Ok(Vec::new()));
    assert_eq!(app.mount(), Effect::Nothing);
    assert_eq!(app.status(), &LoadStatus::Loaded);
}

#[test]
fn scenario_two_talks_listed_without_details() {
    let mut app = Explorer::new();
    app.mount();
    app.finish_load(Ok(two_talks()));
    let page = app.render();
    assert_eq!(page.heading, "RustConf Explorer");
    assert_eq!(page.list_heading, "Videos to watch");
    assert_eq!(labels(&page.rows.unwrap()), vec!["A. Dev: Intro", "B. Dev: Deep Dive"]);
    assert!(page.details.is_none());
    assert!(page.failure.is_none());
}

#[test]
fn scenario_second_row_selected() {
    let mut app = Explorer::new();
    app.mount();
    app.finish_load(Ok(two_talks()));
    let rows = app.render().rows.unwrap();
    app.select(rows[1].activate());
    let details = app.render().details.unwrap();
    assert_eq!(details.title, "Deep Dive");
    assert_eq!(details.speaker, "B. Dev");
    assert_eq!(details.media_src, "/v2.mp4");
}

#[test]
fn scenario_empty_catalog() {
    let mut app = Explorer::new();
    app.mount();
    app.finish_load(Ok(Vec::new()));
    let page = app.render();
    assert_eq!(page.rows, Some(Vec::new()));
    assert!(page.details.is_none());
    assert!(page.failure.is_none());
    assert_eq!(app.status(), &LoadStatus::Loaded);
}

#[test]
fn scenario_malformed_answer_fails_visibly() {
    let mut app = Explorer::new();
    app.mount();
    app.select(Video::new(1, "Intro", "A. Dev", "/v1.mp4"));
    let err = LoadError::Decode("expected value at line 1 column 1".to_string());
    app.finish_load(Err(err.clone()));
    assert_eq!(app.status(), &LoadStatus::Failed(err));
    let page = app.render();
    assert!(page.rows.is_none());
    assert!(page.details.is_none());
    assert_eq!(
        page.failure.unwrap(),
        "Could not read the catalog: expected value at line 1 column 1"
    );
}

#[test]
fn transport_failure_message() {
    let mut app = Explorer::new();
    app.mount();
    app.finish_load(Err(LoadError::Transport("HTTP 404 Not Found".to_string())));
    assert_eq!(app.render().failure.unwrap(), "Could not reach the catalog: HTTP 404 Not Found");
    assert!(app.catalog().is_empty());
}

#[test]
fn video_copies_keep_every_field() {
    let v = Video::new(12, "Traits", "D. Dev", "/t.mp4");
    let c = v.duplicate();
    assert_eq!(c, v);
    assert_eq!(v.clone(), v);
    assert_eq!((c.id, c.title.as_str(), c.speaker.as_str(), c.url.as_str()), (12, "Traits", "D. Dev", "/t.mp4"));
}
