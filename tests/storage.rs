use mishka::storage::{registration_from, storage_for, store_kind, StoreError, StoreKind};

#[test]
fn local_paths_need_no_store() {
    assert!(matches!(storage_for("data/*.parquet"), Ok(None)));
    assert_eq!(store_kind("/tmp/x.csv"), None);
}

#[test]
fn s3_path_registers_its_bucket() {
    let reg = storage_for("s3://bucket/dir/x.parquet?v=1#frag").ok().unwrap().unwrap();
    assert_eq!(reg.kind, StoreKind::S3);
    assert_eq!(reg.bucket, "bucket");
    assert_eq!(reg.root, "s3://bucket");
}

#[test]
fn gs_path_registers_its_bucket() {
    let reg = storage_for("gs://my-bucket/a/b.csv").ok().unwrap().unwrap();
    assert_eq!(reg.kind, StoreKind::Gcs);
    assert_eq!(reg.bucket, "my-bucket");
    assert_eq!(reg.root, "gs://my-bucket");
}

#[test]
fn invalid_store_url_is_an_error() {
    assert!(matches!(storage_for("s3://bu cket:99999999/x"), Err(StoreError::InvalidUrl(_))));
}

#[test]
fn missing_host_names_no_bucket() {
    let r = registration_from(StoreKind::S3, None, "s3:".to_string());
    assert!(matches!(r, Err(StoreError::BucketNameMissing)));
    assert!(r.err().unwrap().is_bucket_name_missing());
    let ok = registration_from(StoreKind::Gcs, Some("b".to_string()), "gs://b".to_string()).ok().unwrap();
    assert_eq!(ok.bucket, "b");
}

#[test]
fn bucket_missing_message() {
    assert_eq!(StoreError::BucketNameMissing.message(), Some("URI is missing bucket name"));
}
