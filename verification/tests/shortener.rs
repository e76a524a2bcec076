use shorturl_rs::idgen::generate;
use shorturl_rs::model::{FormData, InsertOutcome, ResolveError, ShortenError};
use shorturl_rs::service::{
    format_short_url, resolve_outcome, resolve_short_url, shorten_step, shorten_url, submit,
    StepAction, SubmitError,
};
use shorturl_rs::model::LookupOutcome;
use shorturl_rs::model::Url;
use shorturl_rs::store::Store;
use shorturl_rs::timefmt::{convert_datetime, rfc822z_trim};

#[test]
fn generator_length_and_alphabet() {
    let s = generate(4);
    assert_eq!(s.chars().count(), 4);
    assert!(s.chars().all(|c| c.is_ascii_alphanumeric()));
    let longer = generate(16);
    assert_eq!(longer.chars().count(), 16);
    assert!(longer.chars().all(|c| c.is_ascii_alphanumeric()));
    let empty = generate(0);
    assert!(empty.is_empty());
}

#[test]
fn shorten_returns_four_alphanumeric_chars() {
    let mut store = Store::new();
    let link = shorten_url(&mut store, String::from("https://example.org/a"), 7).unwrap();
    assert_eq!(link.id.chars().count(), 4);
    assert!(link.id.chars().all(|c| c.is_ascii_alphanumeric()));
    assert_eq!(link.long_url, "https://example.org/a");
    assert_eq!(link.created_at, 7);
}

#[test]
fn shorten_then_resolve_round_trip() {
    let mut store = Store::new();
    let link = shorten_url(&mut store, String::from("https://example.com"), 1_700_000_000)
        .unwrap();
    assert_eq!(link.id.chars().count(), 4);
    assert_eq!(link.long_url, "https://example.com");
    let resolved = resolve_short_url(&store, link.id.clone()).unwrap();
    assert_eq!(resolved, "https://example.com");
}

#[test]
fn resolve_unknown_id_is_not_found() {
    let store = Store::new();
    let r = resolve_short_url(&store, String::from("zzzz"));
    assert_eq!(r, Err(ResolveError::NotFound));
}

#[test]
fn shortened_ids_are_unique() {
    let mut store = Store::new();
    let mut ids: Vec<String> = Vec::new();
    for k in 0..10 {
        let url = format!("https://example.com/{}", k);
        let link = shorten_url(&mut store, url, k).unwrap();
        ids.push(link.id);
    }
    let mut sorted = ids.clone();
    sorted.sort();
    sorted.dedup();
    assert_eq!(sorted.len(), ids.len());
}

#[test]
fn insert_conflict_leaves_store_unchanged() {
    let mut store = Store::new();
    match store.insert(
        String::from("abcd"),
        String::from("https://first.example"),
        1,
    ) {
        InsertOutcome::Inserted(u) => {
            assert_eq!(u.id, "abcd");
            assert_eq!(u.long_url, "https://first.example");
            assert_eq!(u.created_at, 1);
        }
        _ => panic!("first insert must succeed"),
    }
    match store.insert(
        String::from("abcd"),
        String::from("https://second.example"),
        2,
    ) {
        InsertOutcome::Conflict => {}
        _ => panic!("second insert of the same id must conflict"),
    }
    let resolved = resolve_short_url(&store, String::from("abcd")).unwrap();
    assert_eq!(resolved, "https://first.example");
}

#[test]
fn lookup_hit_returns_stored_row() {
    let mut store = Store::new();
    match store.insert(String::from("wxyz"), String::from("https://example.net"), 3) {
        InsertOutcome::Inserted(_) => {}
        _ => panic!("insert into empty store must succeed"),
    }
    let row = store.lookup(&String::from("wxyz")).unwrap();
    assert_eq!(row.id, "wxyz");
    assert_eq!(row.long_url, "https://example.net");
    assert_eq!(row.created_at, 3);
    assert!(store.lookup(&String::from("wxyy")).is_none());
}

#[test]
fn conflicts_exhaust_retry_budget() {
    let budget: u64 = 5;
    let mut attempts: u64 = 0;
    let error = loop {
        attempts += 1;
        match shorten_step(InsertOutcome::Conflict, attempts, budget) {
            StepAction::Retry => continue,
            StepAction::Fail(e) => break e,
            StepAction::Accept(_) => panic!("a conflict is never accepted"),
        }
    };
    assert_eq!(attempts, 5);
    assert_eq!(error, ShortenError::RetriesExhausted);
}

#[test]
fn gateway_failure_aborts_on_first_attempt() {
    match shorten_step(InsertOutcome::Failure, 1, 5) {
        StepAction::Fail(ShortenError::GatewayFailure) => {}
        _ => panic!("a non-conflict failure must abort at once"),
    }
}

#[test]
fn success_is_accepted_at_once() {
    let row = Url {
        id: String::from("abcd"),
        long_url: String::from("https://example.com"),
        created_at: 1,
    };
    match shorten_step(InsertOutcome::Inserted(row), 1, 5) {
        StepAction::Accept(u) => assert_eq!(u.id, "abcd"),
        _ => panic!("a successful insert must be accepted"),
    }
}

#[test]
fn resolve_outcome_maps_each_gateway_answer() {
    let row = Url {
        id: String::from("abcd"),
        long_url: String::from("https://example.com"),
        created_at: 1,
    };
    assert_eq!(
        resolve_outcome(LookupOutcome::Found(row)),
        Ok(String::from("https://example.com"))
    );
    assert_eq!(
        resolve_outcome(LookupOutcome::NotFound),
        Err(ResolveError::NotFound)
    );
    assert_eq!(
        resolve_outcome(LookupOutcome::Failure),
        Err(ResolveError::GatewayFailure)
    );
}

#[test]
fn submit_rejects_text_that_is_no_url() {
    let mut store = Store::new();
    let r = submit(
        &mut store,
        FormData { url: String::from("not a url") },
        5,
    );
    match r {
        Err(SubmitError::InvalidUrl) => {}
        _ => panic!("an invalid URL must be rejected"),
    }
    assert_eq!(
        resolve_short_url(&store, String::from("zzzz")),
        Err(ResolveError::NotFound)
    );
}

#[test]
fn submit_shortens_a_valid_url() {
    let mut store = Store::new();
    let link = submit(
        &mut store,
        FormData { url: String::from("https://example.com/page?x=1") },
        5,
    )
    .unwrap();
    assert_eq!(link.id.chars().count(), 4);
    let resolved = resolve_short_url(&store, link.id.clone()).unwrap();
    assert_eq!(resolved, "https://example.com/page?x=1");
}

#[test]
fn format_short_url_joins_host_and_id() {
    let s = format_short_url("localhost:8086", "abcd");
    assert_eq!(s, "localhost:8086/abcd");
}

#[test]
fn rfc822z_trim_drops_weekday_and_seconds() {
    let trimmed = rfc822z_trim("Thu, 15 Jan 1970 00:00:00 +0000");
    assert_eq!(trimmed, "15 Jan 1970 00:00 +0000");
}

#[test]
fn rfc822z_trim_keeps_a_one_digit_day_whole() {
    let trimmed = rfc822z_trim("Thu, 1 Jan 1970 00:00:00 +0000");
    assert_eq!(trimmed, "1 Jan 1970 00:00 +0000");
}

#[test]
fn convert_datetime_formats_utc() {
    let secs: i64 = 14 * 86_400;
    let out = convert_datetime("UTC", secs).unwrap();
    assert_eq!(out, "15 Jan 1970 00:00 +0000");
}

#[test]
fn convert_datetime_formats_another_zone() {
    let secs: i64 = 14 * 86_400;
    let out = convert_datetime("Europe/Madrid", secs).unwrap();
    assert_eq!(out, "15 Jan 1970 01:00 +0100");
}

#[test]
fn convert_datetime_formats_the_epoch() {
    let out = convert_datetime("UTC", 0).unwrap();
    assert_eq!(out, "1 Jan 1970 00:00 +0000");
}

#[test]
fn convert_datetime_formats_an_instant_before_1970() {
    let secs: i64 = -351 * 86_400;
    let out = convert_datetime("UTC", secs).unwrap();
    assert_eq!(out, "15 Jan 1969 00:00 +0000");
}

#[test]
fn convert_datetime_rejects_an_unknown_zone() {
    assert!(convert_datetime("Not/AZone", 0).is_none());
}
