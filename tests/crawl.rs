use listup_jorei::crawl::{Action, CrawlError, Crawler, Event, Phase};
use listup_jorei::date::{CivilDate, Instant};
use listup_jorei::query::{gen_jorei_url, gen_list_url};
use listup_jorei::record::{
    first_record, gen_jorei_data, gen_jorei_info, DecodeError, JoreiDocs,
};

fn docs(id: &str, title: &str) -> JoreiDocs {
    JoreiDocs {
        collection: vec!["latest".to_string()],
        collected_date: vec!["2022-03-01".to_string()],
        updated_date: vec![Instant { secs: 1641051000 }, Instant { secs: 0 }],
        municipality_id: "131016".to_string(),
        prefecture: Some("Tokyo".to_string()),
        city: Some("Chiyoda".to_string()),
        prefecture_kana: None,
        city_kana: None,
        municipality_type: "city".to_string(),
        area: "kanto".to_string(),
        id: id.to_string(),
        reiki_id: format!("r-{id}"),
        h1: None,
        title: title.to_string(),
        announcement_date: Some(Instant { secs: 1641049199 }),
        jorei_type: "jorei".to_string(),
        last_updated_date: None,
        reiki_dates: Some(vec!["x".to_string()]),
        reiki_numbers: None,
        update_count: Some(2),
        original_url: Some("http://example.invalid/a".to_string()),
        reiki_url: None,
        has_version: true,
        file_type: Some("html".to_string()),
        h_type: vec![],
        content: Some("body".to_string()),
        collected_date_s: None,
        announcement_date_s: Some("2022-01-01".to_string()),
        last_updated_date_s: None,
        updated_date_s: None,
    }
}

fn ids(v: &[&str]) -> Vec<String> {
    v.iter().map(|s| s.to_string()).collect()
}

fn list_url_of(action: &Action) -> String {
    match action {
        Action::FetchList(u) => u.clone(),
        other => panic!("expected a listing, got {other:?}"),
    }
}

#[test]
fn normalizes_dates_and_keeps_fields() {
    let r = gen_jorei_data(docs("a1", "Ordinance A")).unwrap();
    assert_eq!(r.id, "a1");
    assert_eq!(r.title, "Ordinance A");
    assert_eq!(r.reiki_id, "r-a1");
    assert_eq!(r.file_type, "html");
    assert_eq!(r.content, Some("body".to_string()));
    assert_eq!(r.has_version, true);
    assert_eq!(
        r.updated_date,
        vec![
            CivilDate { year: 2022, month: 1, day: 2 },
            CivilDate { year: 1970, month: 1, day: 1 }
        ]
    );
    assert_eq!(r.announcement_date, Some(CivilDate { year: 2022, month: 1, day: 1 }));
    assert_eq!(r.last_updated_date, None);
    let info = gen_jorei_info(&r);
    assert_eq!(info.id, "a1");
    assert_eq!(info.title, "Ordinance A");
    assert_eq!(info.reiki_id, "r-a1");
    assert_eq!(info.prefecture, Some("Tokyo".to_string()));
    assert_eq!(info.city, Some("Chiyoda".to_string()));
    assert_eq!(info.announcement_date, Some(CivilDate { year: 2022, month: 1, day: 1 }));
    assert_eq!(info.updated_date, None);
}

#[test]
fn missing_file_type_is_a_decode_error() {
    let mut d = docs("a1", "A");
    d.file_type = None;
    assert_eq!(gen_jorei_data(d).err(), Some(DecodeError::MissingFileType));
}

#[test]
fn date_out_of_range_is_a_decode_error() {
    let mut d = docs("a1", "A");
    d.updated_date.push(Instant { secs: i64::MAX });
    assert_eq!(gen_jorei_data(d).err(), Some(DecodeError::DateOutOfRange));
    let mut d = docs("a1", "A");
    d.last_updated_date = Some(Instant { secs: i64::MIN });
    assert_eq!(gen_jorei_data(d).err(), Some(DecodeError::DateOutOfRange));
}

#[test]
fn empty_detail_has_no_record() {
    assert_eq!(first_record(vec![]).err(), Some(DecodeError::NoRecord));
    let r = first_record(vec![docs("x", "X"), docs("y", "Y")]).unwrap();
    assert_eq!(r.id, "x");
}

#[test]
fn bootstrap_lists_page_zero() {
    let (c, a) = Crawler::new(Some(2000), None, 50, 500);
    assert_eq!(c.phase, Phase::Bootstrap);
    assert_eq!(list_url_of(&a), gen_list_url(Some(2000), None, 0, 50));
}

#[test]
fn visits_pages_zero_through_total_over_rows() {
    let (mut c, _) = Crawler::new(None, None, 50, 500);
    let mut a = c.step(Event::ListFetched { total: 120, ids: vec![] });
    let mut pages: Vec<String> = Vec::new();
    let mut sleeps = 0;
    loop {
        match a {
            Action::FetchList(u) => {
                pages.push(u);
                a = c.step(Event::ListFetched { total: 120, ids: vec![] });
            }
            Action::Sleep(ms) => {
                assert_eq!(ms, 500);
                sleeps += 1;
                a = c.step(Event::Slept);
            }
            Action::Flush => break,
            other => panic!("unexpected action {other:?}"),
        }
    }
    assert_eq!(c.last_page, 2);
    assert_eq!(
        pages,
        vec![
            gen_list_url(None, None, 0, 50),
            gen_list_url(None, None, 1, 50),
            gen_list_url(None, None, 2, 50)
        ]
    );
    assert_eq!(sleeps, 3);
    assert_eq!(c.phase, Phase::Done);
}

#[test]
fn exact_multiple_visits_one_extra_page() {
    let (mut c, _) = Crawler::new(None, None, 50, 0);
    let mut a = c.step(Event::ListFetched { total: 100, ids: vec![] });
    let mut n = 0;
    while let Action::FetchList(_) = a {
        n += 1;
        a = c.step(Event::ListFetched { total: 100, ids: vec![] });
        assert!(matches!(a, Action::Sleep(0)));
        a = c.step(Event::Slept);
    }
    assert!(matches!(a, Action::Flush));
    assert_eq!(n, 3);
}

#[test]
fn empty_corpus_visits_page_zero_only() {
    let (mut c, _) = Crawler::new(None, None, 50, 10);
    let a = c.step(Event::ListFetched { total: 0, ids: vec![] });
    assert_eq!(list_url_of(&a), gen_list_url(None, None, 0, 50));
    assert!(matches!(c.step(Event::ListFetched { total: 0, ids: vec![] }), Action::Sleep(10)));
    assert!(matches!(c.step(Event::Slept), Action::Flush));
    assert!(c.index.is_empty());
}

#[test]
fn full_run_writes_each_record_and_indexes_in_order() {
    let order = ["c3", "a1", "b2"];
    let (mut c, _) = Crawler::new(None, None, 50, 500);
    let mut a = c.step(Event::ListFetched { total: 3, ids: ids(&order) });
    let mut written: Vec<String> = Vec::new();
    let mut flushed = false;
    loop {
        a = match a {
            Action::FetchList(_) => c.step(Event::ListFetched { total: 3, ids: ids(&order) }),
            Action::FetchDetail(u) => {
                let id = order[written.len()];
                assert_eq!(u, gen_jorei_url(id));
                c.step(Event::DetailFetched(vec![docs(id, &format!("T {id}"))]))
            }
            Action::WriteRecord { id, record } => {
                assert_eq!(id, record.id);
                written.push(id);
                c.step(Event::Written)
            }
            Action::Sleep(_) => c.step(Event::Slept),
            Action::Flush => {
                flushed = true;
                break;
            }
            other => panic!("unexpected action {other:?}"),
        };
    }
    assert!(flushed);
    assert_eq!(written, ids(&order));
    let indexed: Vec<String> = c.index.iter().map(|e| e.id.clone()).collect();
    assert_eq!(indexed, ids(&order));
    assert_eq!(c.index[1].title, "T a1");
    assert!(matches!(c.step(Event::Slept), Action::Halt));
}

#[test]
fn write_failure_aborts_without_flush() {
    let order = ["a1", "b2", "c3"];
    let (mut c, _) = Crawler::new(None, None, 50, 500);
    c.step(Event::ListFetched { total: 3, ids: ids(&order) });
    let a = c.step(Event::ListFetched { total: 3, ids: ids(&order) });
    assert!(matches!(a, Action::FetchDetail(_)));
    let a = c.step(Event::DetailFetched(vec![docs("a1", "A")]));
    assert!(matches!(a, Action::WriteRecord { .. }));
    let a = c.step(Event::Written);
    assert_eq!(list_or_detail(&a), gen_jorei_url("b2"));
    let a = c.step(Event::DetailFetched(vec![docs("b2", "B")]));
    assert!(matches!(a, Action::WriteRecord { .. }));
    let a = c.step(Event::Failed(CrawlError::Io));
    assert!(matches!(a, Action::Abort(CrawlError::Io)));
    assert_eq!(c.phase, Phase::Failed);
    assert_eq!(c.index.len(), 1);
    // nothing further is attempted, and the index is never flushed
    assert!(matches!(c.step(Event::Written), Action::Halt));
    assert!(matches!(c.step(Event::Slept), Action::Halt));
    assert_eq!(c.index.len(), 1);
}

fn list_or_detail(a: &Action) -> String {
    match a {
        Action::FetchDetail(u) | Action::FetchList(u) => u.clone(),
        other => panic!("unexpected action {other:?}"),
    }
}

#[test]
fn empty_detail_aborts_before_any_write() {
    let (mut c, _) = Crawler::new(None, None, 50, 500);
    c.step(Event::ListFetched { total: 1, ids: ids(&["a1"]) });
    c.step(Event::ListFetched { total: 1, ids: ids(&["a1"]) });
    let a = c.step(Event::DetailFetched(vec![]));
    assert!(matches!(a, Action::Abort(CrawlError::Decode(DecodeError::NoRecord))));
    assert!(matches!(c.step(Event::Written), Action::Halt));
    assert!(c.index.is_empty());
}

#[test]
fn record_without_file_type_aborts() {
    let (mut c, _) = Crawler::new(None, None, 50, 500);
    c.step(Event::ListFetched { total: 1, ids: ids(&["a1"]) });
    c.step(Event::ListFetched { total: 1, ids: ids(&["a1"]) });
    let mut d = docs("a1", "A");
    d.file_type = None;
    let a = c.step(Event::DetailFetched(vec![d]));
    assert!(matches!(a, Action::Abort(CrawlError::Decode(DecodeError::MissingFileType))));
}

#[test]
fn transport_failure_aborts() {
    let (mut c, _) = Crawler::new(None, None, 50, 500);
    let a = c.step(Event::Failed(CrawlError::Transport));
    assert!(matches!(a, Action::Abort(CrawlError::Transport)));
    assert_eq!(c.phase, Phase::Failed);
}

#[test]
fn unexpected_event_aborts() {
    let (mut c, _) = Crawler::new(None, None, 50, 500);
    let a = c.step(Event::Written);
    assert!(matches!(a, Action::Abort(CrawlError::Unexpected)));
    assert!(matches!(c.step(Event::Slept), Action::Halt));
}

#[test]
fn pages_with_records_advance_after_sleep() {
    let (mut c, _) = Crawler::new(Some(2022), Some(2022), 2, 7);
    c.step(Event::ListFetched { total: 3, ids: ids(&["p", "q"]) });
    assert_eq!(c.last_page, 1);
    c.step(Event::ListFetched { total: 3, ids: ids(&["p", "q"]) });
    for id in ["p", "q"] {
        assert!(matches!(c.step(Event::DetailFetched(vec![docs(id, id)])), Action::WriteRecord { .. }));
        c.step(Event::Written);
    }
    assert_eq!(c.phase, Phase::Sleeping);
    let a = c.step(Event::Slept);
    assert_eq!(list_url_of(&a), gen_list_url(Some(2022), Some(2022), 1, 2));
    assert_eq!(c.page, 1);
}
