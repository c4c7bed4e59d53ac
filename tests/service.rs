use message_service::handlers::{clear, index, lookup, post, post_error, BAD_REQUEST};
use message_service::identity::IdentityAllocator;
use message_service::service::{MessageApp, BODY_LIMIT, WORKERS};
use message_service::store::MessageLog;
use message_service::worker::WorkerContext;

fn texts(v: &[&str]) -> Vec<String> {
    v.iter().map(|s| s.to_string()).collect()
}

#[test]
fn identities_start_at_zero_and_never_repeat() {
    let mut ids = IdentityAllocator::new();
    let mut seen = Vec::new();
    for expected in 0..WORKERS {
        let id = ids.allocate().unwrap();
        assert_eq!(id, expected);
        assert!(!seen.contains(&id));
        seen.push(id);
    }
}

#[test]
fn counts_rise_by_one_including_errors() {
    let mut log = MessageLog::new();
    let mut ctx = WorkerContext::new(2);
    assert_eq!(ctx.request_count(), 0);
    let c1 = index(&mut ctx, &log).request_count;
    let c2 = post(&mut ctx, &mut log, "x".to_string()).request_count;
    let c3 = post_error(&mut ctx, &log, "bad body".to_string()).request_count;
    let c4 = lookup(&mut ctx, &log, 9).request_count;
    let c5 = clear(&mut ctx, &mut log).request_count;
    assert_eq!(vec![c1, c2, c3, c4, c5], vec![1, 2, 3, 4, 5]);
    assert_eq!(ctx.request_count(), 5);
    assert_eq!(ctx.identity(), 2);
}

#[test]
fn append_order_is_kept_for_any_reader() {
    let mut log = MessageLog::new();
    let mut writer = WorkerContext::new(0);
    let mut reader = WorkerContext::new(1);
    for t in ["a", "b", "c"] {
        let r = post(&mut writer, &mut log, t.to_string());
        assert_eq!(r.message, t);
        assert_eq!(r.server_id, 0);
    }
    let r = index(&mut reader, &log);
    assert_eq!(r.messages, texts(&["a", "b", "c"]));
    assert_eq!(r.server_id, 1);
    assert_eq!(r.request_count, 1);
}

#[test]
fn clear_empties_the_log_and_counts_itself() {
    let mut log = MessageLog::new();
    let mut ctx = WorkerContext::new(0);
    post(&mut ctx, &mut log, "one".to_string());
    post(&mut ctx, &mut log, "two".to_string());
    let r = clear(&mut ctx, &mut log);
    assert!(r.messages.is_empty());
    assert_eq!(r.request_count, 3);
    assert_eq!(log.len(), 0);
    let after = index(&mut ctx, &log);
    assert!(after.messages.is_empty());
    assert_eq!(after.request_count, 4);
    let again = clear(&mut ctx, &mut log);
    assert!(again.messages.is_empty());
    assert_eq!(again.request_count, 5);
}

#[test]
fn lookup_past_the_end_is_absent_not_an_error() {
    let mut log = MessageLog::new();
    let mut ctx = WorkerContext::new(4);
    post(&mut ctx, &mut log, "first".to_string());
    post(&mut ctx, &mut log, "second".to_string());
    assert_eq!(lookup(&mut ctx, &log, 0).result, Some("first".to_string()));
    assert_eq!(lookup(&mut ctx, &log, 1).result, Some("second".to_string()));
    let miss = lookup(&mut ctx, &log, 2);
    assert_eq!(miss.result, None);
    assert_eq!(miss.request_count, 5);
    assert_eq!(miss.server_id, 4);
    assert_eq!(lookup(&mut ctx, &log, usize::MAX).result, None);
}

#[test]
fn rejected_body_reports_state_and_leaves_log_alone() {
    let mut log = MessageLog::new();
    let mut ctx = WorkerContext::new(7);
    post(&mut ctx, &mut log, "kept".to_string());
    let reason = format!("JSON payload is larger than allowed (limit: {} bytes)", BODY_LIMIT);
    let r = post_error(&mut ctx, &log, reason.clone());
    assert_eq!(r.status, BAD_REQUEST);
    assert!((400..500).contains(&r.status));
    assert_eq!(r.error, reason);
    assert_eq!(r.server_id, 7);
    assert_eq!(r.request_count, 2);
    assert_eq!(r.messages, texts(&["kept"]));
    assert_eq!(log.snapshot(), texts(&["kept"]));
}

#[test]
fn interleaved_appends_keep_every_text_once() {
    let mut log = MessageLog::new();
    let mut w0 = WorkerContext::new(0);
    let mut w1 = WorkerContext::new(1);
    let all = texts(&["p", "q", "r", "s", "t"]);
    for (i, t) in all.iter().enumerate() {
        let ctx = if i % 2 == 0 { &mut w0 } else { &mut w1 };
        post(ctx, &mut log, t.clone());
    }
    let got = log.snapshot();
    assert_eq!(got.len(), all.len());
    for t in &all {
        assert_eq!(got.iter().filter(|g| *g == t).count(), 1);
    }
}

#[test]
fn empty_message_is_a_valid_message() {
    let mut log = MessageLog::new();
    let mut ctx = WorkerContext::new(0);
    let r = post(&mut ctx, &mut log, String::new());
    assert_eq!(r.message, "");
    assert_eq!(log.get(0), Some(String::new()));
    assert_eq!(log.len(), 1);
}

#[test]
fn store_operations() {
    let mut log = MessageLog::new();
    assert_eq!(log.append("a".to_string()), 1);
    assert_eq!(log.append("b".to_string()), 2);
    assert_eq!(log.get(1), Some("b".to_string()));
    assert_eq!(log.get(2), None);
    assert_eq!(log.snapshot(), texts(&["a", "b"]));
    log.clear();
    assert_eq!(log.snapshot(), Vec::<String>::new());
    assert_eq!(log.get(0), None);
}

#[test]
fn worker_counter_bounds() {
    let mut ctx = WorkerContext::new(5);
    assert!(ctx.can_serve());
    assert_eq!(ctx.begin_request(), 1);
    assert_eq!(ctx.begin_request(), 2);
    assert_eq!(ctx.identity(), 5);
}

#[test]
fn app_settings() {
    let app = MessageApp::new(8080);
    assert_eq!(app.port(), 8080);
    assert_eq!(WORKERS, 8);
    assert_eq!(BODY_LIMIT, 4096);
}
