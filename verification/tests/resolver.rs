use loadgen::descriptor::LoadShape;
use loadgen::resolver::{resolve, ResolveError};

#[test]
fn full_document_resolves() {
    let doc = "{\"createdAt\":\"1970-01-01T00:00:10Z\",\"startTime\":\"1970-01-01T00:01:00Z\",\
               \"endTime\":\"1970-01-01T00:02:00Z\",\"url\":\"http://example.com/x\",\"qps\":5}";
    let d = resolve(doc).unwrap();
    assert_eq!(d.created_at, Some(10_000));
    assert_eq!(d.start_time, Some(60_000));
    assert_eq!(d.end_time, Some(120_000));
    assert_eq!(d.url.as_deref(), Some("http://example.com/x"));
    assert_eq!(d.load_shape, LoadShape::Rate { qps: 5 });
}

#[test]
fn timestamps_normalize_to_utc() {
    let d = resolve("{\"startTime\":\"1970-01-01T01:00:00+01:00\"}").unwrap();
    assert_eq!(d.start_time, Some(0));
    let d = resolve("{\"startTime\":\"1969-12-31T19:00:00-05:00\"}").unwrap();
    assert_eq!(d.start_time, Some(0));
}

#[test]
fn malformed_document_degrades_to_empty() {
    let d = resolve("not json").unwrap();
    let empty = resolve("{}").unwrap();
    assert_eq!(d, empty);
    assert_eq!(d.created_at, None);
    assert_eq!(d.start_time, None);
    assert_eq!(d.end_time, None);
    assert_eq!(d.url, None);
    assert_eq!(d.load_shape, LoadShape::Single);
}

#[test]
fn bad_created_at_is_fatal() {
    assert_eq!(
        resolve("{\"createdAt\":\"tomorrow\"}"),
        Err(ResolveError::BadCreatedAt)
    );
}

#[test]
fn bad_start_time_is_fatal() {
    let doc = "{\"createdAt\":\"1970-01-01T00:00:10Z\",\"startTime\":\"later\"}";
    assert_eq!(resolve(doc), Err(ResolveError::BadStartTime));
}

#[test]
fn bad_end_time_is_fatal() {
    assert_eq!(
        resolve("{\"endTime\":\"1970-13-40T99:00:00Z\"}"),
        Err(ResolveError::BadEndTime)
    );
}

#[test]
fn created_at_reported_before_start_time() {
    let doc = "{\"createdAt\":\"bad\",\"startTime\":\"also bad\"}";
    assert_eq!(resolve(doc), Err(ResolveError::BadCreatedAt));
}

#[test]
fn qps_takes_precedence_over_count() {
    let d = resolve("{\"qps\":4,\"n\":10,\"c\":2}").unwrap();
    assert_eq!(d.load_shape, LoadShape::Rate { qps: 4 });
}

#[test]
fn count_shape_needs_both_n_and_c() {
    let d = resolve("{\"n\":10,\"c\":3}").unwrap();
    assert_eq!(d.load_shape, LoadShape::Count { n: 10, c: 3 });
    let d = resolve("{\"n\":10}").unwrap();
    assert_eq!(d.load_shape, LoadShape::Single);
    let d = resolve("{\"c\":3}").unwrap();
    assert_eq!(d.load_shape, LoadShape::Single);
}

#[test]
fn absent_shape_fields_mean_single() {
    let d = resolve("{\"url\":\"http://example.com/\"}").unwrap();
    assert_eq!(d.load_shape, LoadShape::Single);
}

#[test]
fn non_numeric_qps_does_not_select_rate() {
    let d = resolve("{\"qps\":\"5\"}").unwrap();
    assert_eq!(d.load_shape, LoadShape::Single);
}

#[test]
fn numeric_but_unusable_values_fall_back_to_one() {
    let d = resolve("{\"qps\":0}").unwrap();
    assert_eq!(d.load_shape, LoadShape::Rate { qps: 1 });
    let d = resolve("{\"qps\":3.5}").unwrap();
    assert_eq!(d.load_shape, LoadShape::Rate { qps: 1 });
    let d = resolve("{\"qps\":-2}").unwrap();
    assert_eq!(d.load_shape, LoadShape::Rate { qps: 1 });
    let d = resolve("{\"n\":10,\"c\":0}").unwrap();
    assert_eq!(d.load_shape, LoadShape::Count { n: 10, c: 1 });
}

#[test]
fn wrong_typed_url_is_treated_as_absent() {
    let d = resolve("{\"url\":5}").unwrap();
    assert_eq!(d.url, None);
    let d = resolve("{\"url\":null}").unwrap();
    assert_eq!(d.url, None);
}
