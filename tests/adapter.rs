use s3_object_store::config::{Credentials, RetryPolicy, StoreConfig, TimeoutPolicy, FALLBACK_REGION};
use s3_object_store::counter::do_a_call;
use s3_object_store::error::S3Error;
use s3_object_store::path::{join_path, split_prefix};
use s3_object_store::range::{range_header, write_decimal};
use s3_object_store::reader::{AmazonS3FileReader, ReadOutcome, READ_TIMEOUT_SECS};
use s3_object_store::store::{RemoteObject, S3FileSystem, SizedFile, Timestamp};

fn object(n: usize) -> Vec<u8> {
    (0..n).map(|i| (i * 7 % 251) as u8).collect()
}

/// Answers a range request the way a provider that honours ranges does.
fn serve(obj: &[u8], range: &Option<String>) -> Vec<u8> {
    match range {
        None => obj.to_vec(),
        Some(h) => {
            let spec = h.strip_prefix("bytes=").unwrap();
            let (a, b) = spec.split_once('-').unwrap();
            let a: usize = a.parse().unwrap();
            let b: usize = b.parse().unwrap();
            if a >= obj.len() {
                Vec::new()
            } else {
                obj[a..(b + 1).min(obj.len())].to_vec()
            }
        }
    }
}

fn reader_for(path: &str, size: u64) -> AmazonS3FileReader {
    S3FileSystem::default().file_reader(SizedFile { path: path.to_owned(), size })
}

#[test]
fn split_with_separator() {
    assert_eq!(split_prefix("bucket1/data/"), ("bucket1".to_owned(), "data/".to_owned()));
    assert_eq!(split_prefix("a/b/c"), ("a".to_owned(), "b/c".to_owned()));
    assert_eq!(split_prefix("/x"), ("".to_owned(), "x".to_owned()));
    assert_eq!(split_prefix("bücket/kéy"), ("bücket".to_owned(), "kéy".to_owned()));
}

#[test]
fn split_without_separator() {
    assert_eq!(split_prefix("bucket1"), ("bucket1".to_owned(), "".to_owned()));
    assert_eq!(split_prefix(""), ("".to_owned(), "".to_owned()));
}

#[test]
fn list_request_splits_prefix() {
    let fs = S3FileSystem::default();
    let r = fs.list_request("bucket1/data/");
    assert_eq!(r.bucket, "bucket1");
    assert_eq!(r.prefix, "data/");
    let r = fs.list_request("bucket1");
    assert_eq!(r.bucket, "bucket1");
    assert_eq!(r.prefix, "");
}

#[test]
fn join_puts_separator_between() {
    assert_eq!(join_path("bucket1", "data/a.parquet"), "bucket1/data/a.parquet");
    assert_eq!(join_path("bucket1", ""), "bucket1/");
}

#[test]
fn decimal_rendering() {
    let mut s = String::from("n=");
    write_decimal(&mut s, 0);
    assert_eq!(s, "n=0");
    let mut s = String::new();
    write_decimal(&mut s, 1234567890);
    assert_eq!(s, "1234567890");
    let mut s = String::new();
    write_decimal(&mut s, u64::MAX);
    assert_eq!(s, "18446744073709551615");
}

#[test]
fn range_header_is_inclusive() {
    assert_eq!(range_header(0, 10), Some("bytes=0-9".to_owned()));
    assert_eq!(range_header(100, 1), Some("bytes=100-100".to_owned()));
    assert_eq!(range_header(4, 16), Some("bytes=4-19".to_owned()));
    assert_eq!(
        range_header(u64::MAX, 1),
        Some("bytes=18446744073709551615-18446744073709551615".to_owned())
    );
}

#[test]
fn range_header_absent_for_read_to_end() {
    assert_eq!(range_header(0, 0), None);
    assert_eq!(range_header(5, 0), None);
}

#[test]
fn read_request_names_object_and_range() {
    let reader = reader_for("bucket1/data/a.parquet", 100);
    let req = reader.read_request(10, 5);
    assert_eq!(req.bucket, "bucket1");
    assert_eq!(req.key, "data/a.parquet");
    assert_eq!(req.range, Some("bytes=10-14".to_owned()));
    let req = reader.read_request(10, 0);
    assert_eq!(req.range, None);
}

#[test]
fn bounded_read_returns_exact_span() {
    let obj = object(100);
    let reader = reader_for("b/k", 100);
    for (start, length) in [(0u64, 1usize), (10, 5), (0, 100), (99, 1), (37, 40)] {
        let req = reader.read_request(start, length);
        let body = serve(&obj, &req.range);
        let r = AmazonS3FileReader::finish_read(start, length, ReadOutcome::Body(body)).unwrap();
        assert_eq!(r.len(), length);
        assert_eq!(r, obj[start as usize..start as usize + length].to_vec());
    }
}

#[test]
fn bounded_read_past_end_is_refused() {
    let obj = object(100);
    let reader = reader_for("b/k", 100);
    for (start, length) in [(95u64, 10usize), (100, 1), (200, 3)] {
        let req = reader.read_request(start, length);
        let body = serve(&obj, &req.range);
        let r = AmazonS3FileReader::finish_read(start, length, ReadOutcome::Body(body));
        assert!(matches!(r, Err(S3Error::RemoteReadError(_))));
    }
}

#[test]
fn read_to_end_returns_rest_of_object() {
    let obj = object(50);
    let reader = reader_for("b/k", 50);
    for start in [0u64, 1, 20, 49, 50] {
        let req = reader.read_request(start, 0);
        let body = serve(&obj, &req.range);
        let r = AmazonS3FileReader::finish_read(start, 0, ReadOutcome::Body(body)).unwrap();
        assert_eq!(r, obj[start as usize..].to_vec());
    }
    let r = AmazonS3FileReader::finish_read(80, 0, ReadOutcome::Body(obj.clone())).unwrap();
    assert!(r.is_empty());
}

#[test]
fn read_timeout_gives_timeout_error() {
    let r = AmazonS3FileReader::finish_read(0, 10, ReadOutcome::TimedOut);
    assert_eq!(r, Err(S3Error::TimeoutError));
    let r = AmazonS3FileReader::finish_read(0, 0, ReadOutcome::TimedOut);
    assert_eq!(r, Err(S3Error::TimeoutError));
    assert_eq!(READ_TIMEOUT_SECS, 10);
}

#[test]
fn read_provider_error_is_kept() {
    let r = AmazonS3FileReader::finish_read(0, 10, ReadOutcome::ProviderError("NoSuchKey".to_owned()));
    assert_eq!(r, Err(S3Error::RemoteReadError("NoSuchKey".to_owned())));
    let r = AmazonS3FileReader::finish_read(0, 10, ReadOutcome::Disconnected);
    assert!(matches!(r, Err(S3Error::RemoteReadError(_))));
}

#[test]
fn reader_size_is_fixed_at_construction() {
    let fs = S3FileSystem::new(None, Some("eu-west-1".to_owned()), None, None, None);
    let reader = fs.file_reader(SizedFile { path: "b/k".to_owned(), size: 1234 });
    assert_eq!(reader.length(), 1234);
    let _ = reader.read_request(0, 10);
    assert_eq!(reader.length(), 1234);
    assert_eq!(reader.config().region, Some("eu-west-1".to_owned()));
}

#[test]
fn listing_keeps_provider_order() {
    let fs = S3FileSystem::default();
    let req = fs.list_request("bucket1/data/");
    let t = Timestamp { seconds: 1_600_000_000, nanos: 5 };
    let objs = || vec![
        RemoteObject { key: Some("data/z.parquet".to_owned()), size: 10, last_modified: Some(t) },
        RemoteObject { key: Some("data/a.parquet".to_owned()), size: 20, last_modified: None },
        RemoteObject { key: None, size: 0, last_modified: None },
    ];
    let metas = fs.finish_listing(&req, Ok(objs())).unwrap();
    assert_eq!(metas.len(), 3);
    assert_eq!(metas[0].sized_file.path, "bucket1/data/z.parquet");
    assert_eq!(metas[0].sized_file.size, 10);
    assert_eq!(metas[0].last_modified, Some(t));
    assert_eq!(metas[1].sized_file.path, "bucket1/data/a.parquet");
    assert_eq!(metas[1].sized_file.size, 20);
    assert_eq!(metas[1].last_modified, None);
    assert_eq!(metas[2].sized_file.path, "bucket1/");
}

#[test]
fn listing_twice_gives_same_entries() {
    let fs = S3FileSystem::default();
    let req = fs.list_request("bkt");
    let objs = || vec![
        RemoteObject { key: Some("b".to_owned()), size: 2, last_modified: None },
        RemoteObject { key: Some("a".to_owned()), size: 1, last_modified: None },
    ];
    let first = fs.finish_listing(&req, Ok(objs())).unwrap();
    let second = fs.finish_listing(&req, Ok(objs())).unwrap();
    let paths = |v: &Vec<s3_object_store::store::FileMeta>| {
        v.iter().map(|m| (m.sized_file.path.clone(), m.sized_file.size)).collect::<Vec<_>>()
    };
    assert_eq!(paths(&first), paths(&second));
    assert_eq!(paths(&first), vec![("bkt/b".to_owned(), 2), ("bkt/a".to_owned(), 1)]);
}

#[test]
fn listing_error_gives_no_entries() {
    let fs = S3FileSystem::default();
    let req = fs.list_request("bucket1/data/");
    let r = fs.finish_listing(&req, Err("AccessDenied".to_owned()));
    assert!(matches!(r, Err(S3Error::RemoteListError(ref d)) if d == "AccessDenied"));
}

#[test]
fn listing_empty_provider_answer() {
    let fs = S3FileSystem::default();
    let req = fs.list_request("bucket1/none/");
    assert!(fs.finish_listing(&req, Ok(Vec::new())).unwrap().is_empty());
}

#[test]
fn directory_listing_not_implemented() {
    let fs = S3FileSystem::default();
    assert!(matches!(fs.list_dir("bucket1/", Some("/".to_owned())), Err(S3Error::NotImplemented)));
    assert!(matches!(fs.list_dir("", None), Err(S3Error::NotImplemented)));
}

#[test]
fn region_falls_back_in_order() {
    let explicit = S3FileSystem::new(None, Some("eu-central-1".to_owned()), None, None, None);
    assert_eq!(explicit.config().resolve_region(&Some("ap-south-1".to_owned())), "eu-central-1");
    let plain = S3FileSystem::default();
    assert_eq!(plain.config().resolve_region(&Some("ap-south-1".to_owned())), "ap-south-1");
    assert_eq!(plain.config().resolve_region(&None), "us-west-2");
    assert_eq!(FALLBACK_REGION, "us-west-2");
}

#[test]
fn config_copy_keeps_every_setting() {
    let creds = Credentials {
        access_key_id: "minioadmin".to_owned(),
        secret_access_key: "minioadmin".to_owned(),
        session_token: Some("tok".to_owned()),
        provider_name: "Static".to_owned(),
    };
    let timeout = TimeoutPolicy { api_call_ms: Some(5000), api_call_attempt_ms: None, connect_ms: Some(100), read_ms: None };
    let fs = S3FileSystem::new(
        Some(creds),
        None,
        Some("http://localhost:9000".to_owned()),
        Some(RetryPolicy { max_attempts: 3 }),
        Some(timeout),
    );
    let reader = fs.file_reader(SizedFile { path: "b/k".to_owned(), size: 1 });
    let c: &StoreConfig = reader.config();
    let cc = c.credentials.as_ref().unwrap();
    assert_eq!(cc.access_key_id, "minioadmin");
    assert_eq!(cc.session_token, Some("tok".to_owned()));
    assert_eq!(cc.provider_name, "Static");
    assert_eq!(c.endpoint, Some("http://localhost:9000".to_owned()));
    assert_eq!(c.retry, Some(RetryPolicy { max_attempts: 3 }));
    assert_eq!(c.timeout, Some(timeout));
    assert_eq!(c.region, None);
}

#[test]
fn default_store_overrides_nothing() {
    let c = S3FileSystem::default();
    let c = c.config();
    assert!(c.credentials.is_none() && c.region.is_none() && c.endpoint.is_none());
    assert!(c.retry.is_none() && c.timeout.is_none());
}

#[test]
fn counter_counts_calls() {
    let mut n: u8 = 0;
    do_a_call(&mut n);
    do_a_call(&mut n);
    do_a_call(&mut n);
    assert_eq!(n, 3);
    let mut m: u8 = 254;
    do_a_call(&mut m);
    assert_eq!(m, 255);
}
