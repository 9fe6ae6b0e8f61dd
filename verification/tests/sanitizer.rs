use job_tracker::error::JobError;
use job_tracker::record::Jobs;
use job_tracker::sanitizer::sanitize_text;

fn job(note: Option<&str>) -> Jobs {
    Jobs {
        id: "<b>id</b>".to_string(),
        status: "<b>applied</b>".to_string(),
        title: "<script>alert(1)</script>Engineer".to_string(),
        company: "Acme".to_string(),
        url: "https://acme.example/job/1".to_string(),
        location: "<p>Remote</p>".to_string(),
        note: note.map(|n| n.to_string()),
        created_at: "<i>now</i>".to_string(),
    }
}

fn some(text: &str) -> Option<String> {
    Some(text.to_string())
}

#[test]
fn sanitize_text_strips_markup() {
    assert_eq!(sanitize_text("<b>bold</b>"), some("bold"));
    assert_eq!(sanitize_text("<script>alert(1)</script>"), some(""));
    assert_eq!(sanitize_text("a<br>b"), some("a b"));
    assert_eq!(sanitize_text("<!-- c -->t"), some("t"));
}

#[test]
fn sanitize_text_leaves_plain_text() {
    assert_eq!(sanitize_text("Engineer"), some("Engineer"));
    assert_eq!(sanitize_text(""), some(""));
    assert_eq!(
        sanitize_text("3fa85f64-5717-4562-b3fc-2c963f66afa6"),
        some("3fa85f64-5717-4562-b3fc-2c963f66afa6")
    );
    assert_eq!(sanitize_text("2024-05-06 07:08:09"), some("2024-05-06 07:08:09"));
}

#[test]
fn sanitize_text_escapes_what_could_open_markup() {
    assert_eq!(sanitize_text("x < y"), some("x &lt; y"));
    assert_eq!(sanitize_text("a & b"), some("a &amp; b"));
    assert_eq!(sanitize_text("&lt;script&gt;"), some("&lt;script&gt;"));
}

#[test]
fn sanitize_inputs_cleans_free_text_and_keeps_identity() {
    let clean = Jobs::sanitize_inputs(job(Some("<u>call</u>"))).unwrap();
    assert_eq!(clean.id, "<b>id</b>");
    assert_eq!(clean.created_at, "<i>now</i>");
    assert_eq!(clean.status, "applied");
    assert_eq!(clean.title, "Engineer");
    assert_eq!(clean.company, "Acme");
    assert_eq!(clean.url, "https://acme.example/job/1");
    assert_eq!(clean.location, " Remote ");
    assert_eq!(clean.note, some("call"));
}

#[test]
fn sanitize_inputs_keeps_an_absent_note_absent() {
    let clean = Jobs::sanitize_inputs(job(None)).unwrap();
    assert_eq!(clean.note, None);
    let clean = Jobs::sanitize_inputs(job(Some(""))).unwrap();
    assert_eq!(clean.note, some(""));
}

#[test]
fn sanitize_inputs_twice_changes_nothing_more() {
    let mut plain = job(Some("call back"));
    plain.title = "Engineer & <b>Lead</b>".to_string();
    plain.location = "Remote".to_string();
    let once = Jobs::sanitize_inputs(plain).unwrap();
    let twice = Jobs::sanitize_inputs(once.clone()).unwrap();
    assert_eq!(twice, once);
}

#[test]
fn sanitize_inputs_twice_may_drop_a_leading_space() {
    let once = Jobs::sanitize_inputs(job(None)).unwrap();
    assert_eq!(once.location, " Remote ");
    let twice = Jobs::sanitize_inputs(once).unwrap();
    assert_eq!(twice.location, "Remote ");
}

#[test]
fn with_clean_text_replaces_the_free_text() {
    let outcome = job(Some("n")).with_clean_text(
        some("s"),
        some("t"),
        some("c"),
        some("u"),
        some("l"),
        some("m"),
    );
    let clean = outcome.unwrap();
    assert_eq!(clean.id, "<b>id</b>");
    assert_eq!(clean.created_at, "<i>now</i>");
    assert_eq!(clean.status, "s");
    assert_eq!(clean.title, "t");
    assert_eq!(clean.company, "c");
    assert_eq!(clean.url, "u");
    assert_eq!(clean.location, "l");
    assert_eq!(clean.note, some("m"));
}

#[test]
fn with_clean_text_ignores_a_note_for_a_record_without() {
    let clean = job(None)
        .with_clean_text(some("s"), some("t"), some("c"), some("u"), some("l"), some("m"))
        .unwrap();
    assert_eq!(clean.note, None);
    let clean = job(None)
        .with_clean_text(some("s"), some("t"), some("c"), some("u"), some("l"), None)
        .unwrap();
    assert_eq!(clean.note, None);
}

#[test]
fn with_clean_text_fails_if_any_field_failed() {
    let failed = Err(JobError::Sanitization);
    assert_eq!(
        job(None).with_clean_text(None, some("t"), some("c"), some("u"), some("l"), None),
        failed
    );
    assert_eq!(
        job(None).with_clean_text(some("s"), None, some("c"), some("u"), some("l"), None),
        failed
    );
    assert_eq!(
        job(None).with_clean_text(some("s"), some("t"), None, some("u"), some("l"), None),
        failed
    );
    assert_eq!(
        job(None).with_clean_text(some("s"), some("t"), some("c"), None, some("l"), None),
        failed
    );
    assert_eq!(
        job(None).with_clean_text(some("s"), some("t"), some("c"), some("u"), None, None),
        failed
    );
    assert_eq!(
        job(Some("n")).with_clean_text(some("s"), some("t"), some("c"), some("u"), some("l"), None),
        failed
    );
}
