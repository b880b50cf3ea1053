//! The listing side of a store: object metadata, listings, and readers.

use vstd::prelude::*;

use crate::config::{StoreConfig, StoreConfigView, Credentials, RetryPolicy, TimeoutPolicy, opt_text};
use crate::error::S3Error;
use crate::path::{container_of, join_path, join_spec, key_prefix_of, split_prefix};
use crate::reader::AmazonS3FileReader;

verus! {

/// A point in time: seconds since the Unix epoch and nanoseconds past them.
#[derive(Debug, Clone, Copy, PartialEq, Eq)]
pub struct Timestamp {
    pub seconds: i64,
    pub nanos: u32,
}

/// An object's path (`<container>/<key>`) and its size in bytes.
#[derive(Debug)]
pub struct SizedFile {
    pub path: String,
    pub size: u64,
}

/// What a listing tells of one object.
#[derive(Debug)]
pub struct FileMeta {
    pub sized_file: SizedFile,
    pub last_modified: Option<Timestamp>,
}

pub struct FileMetaView {
    pub path: Seq<char>,
    pub size: u64,
    pub last_modified: Option<Timestamp>,
}

impl View for FileMeta {
    type V = FileMetaView;

    open spec fn view(&self) -> FileMetaView {
        FileMetaView {
            path: self.sized_file.path@,
            size: self.sized_file.size,
            last_modified: self.last_modified,
        }
    }
}

/// One entry of a hierarchical listing.
#[derive(Debug)]
pub enum ListEntry {
    FileMeta(FileMeta),
    Prefix(String),
}

/// One entry of the provider's listing, as the provider gave it.
#[derive(Debug)]
pub struct RemoteObject {
    pub key: Option<String>,
    pub size: u64,
    pub last_modified: Option<Timestamp>,
}

/// The listing call that a listing makes: a container and a key prefix.
#[derive(Debug)]
pub struct ListRequest {
    pub bucket: String,
    pub prefix: String,
}

/// The key of a provider entry; an entry without one has the empty key.
pub open spec fn key_text(key: Option<String>) -> Seq<char> {
    match key {
        Some(k) => k@,
        None => Seq::empty(),
    }
}

/// The metadata that a listing of `bucket` gives for provider entry `o`.
pub open spec fn meta_of(bucket: Seq<char>, o: RemoteObject) -> FileMetaView {
    FileMetaView { path: join_spec(bucket, key_text(o.key)), size: o.size, last_modified: o.last_modified }
}

/// The listing of `bucket` for the provider's entries `objs`, in their order.
pub open spec fn listing_of(bucket: Seq<char>, objs: Seq<RemoteObject>) -> Seq<FileMetaView> {
    Seq::new(objs.len(), |j: int| meta_of(bucket, objs[j]))
}

/// The listing that `r` holds, where it is one.
pub open spec fn listed(r: Result<Vec<FileMeta>, S3Error>) -> Option<Seq<FileMetaView>> {
    match r {
        Ok(v) => Some(Seq::new(v@.len(), |j: int| v@[j]@)),
        Err(_) => None,
    }
}

/// A store of objects in S3-compatible storage. It holds only its
/// configuration, which never changes after construction.
#[derive(Debug)]
pub struct S3FileSystem {
    config: StoreConfig,
}

impl S3FileSystem {
    pub closed spec fn config_view(&self) -> StoreConfigView {
        self.config@
    }

    /// A store with the given settings; each absent one falls through to the
    /// environment's default.
    pub fn new(
        credentials: Option<Credentials>,
        region: Option<String>,
        endpoint: Option<String>,
        retry_config: Option<RetryPolicy>,
        timeout_config: Option<TimeoutPolicy>,
    ) -> (r: S3FileSystem)
        ensures
            r.config_view().credentials == (match credentials {
                Some(c) => Some(c@),
                None => None,
            }),
            r.config_view().region == opt_text(region),
            r.config_view().endpoint == opt_text(endpoint),
            r.config_view().retry == retry_config,
            r.config_view().timeout == timeout_config,
    {
        S3FileSystem {
            config: StoreConfig { credentials, region, endpoint, retry: retry_config, timeout: timeout_config },
        }
    }

    /// A store that takes every setting from the environment.
    pub fn default() -> (r: S3FileSystem)
        ensures
            r.config_view().credentials is None,
            r.config_view().region is None,
            r.config_view().endpoint is None,
            r.config_view().retry is None,
            r.config_view().timeout is None,
    {
        S3FileSystem { config: StoreConfig::empty() }
    }

    /// The configuration of this store.
    pub fn config(&self) -> (r: &StoreConfig)
        ensures
            r@ == self.config_view(),
    {
        &self.config
    }

    /// The listing call for `prefix`: the container before its first
    /// separator and the key prefix after it; without a separator, the whole
    /// prefix names the container and the key prefix is empty.
    pub fn list_request(&self, prefix: &str) -> (r: ListRequest)
        ensures
            r.bucket@ == container_of(prefix@),
            r.prefix@ == key_prefix_of(prefix@),
    {
        let (bucket, prefix) = split_prefix(prefix);
        ListRequest { bucket, prefix }
    }

    /// The listing that the provider's answer to `request` gives: on success
    /// one entry per provider entry, in the provider's order, each with the
    /// path `<container>/<key>`; on failure the provider's error, and no
    /// entries.
    pub fn finish_listing(&self, request: &ListRequest, outcome: Result<Vec<RemoteObject>, String>) -> (r: Result<
        Vec<FileMeta>,
        S3Error,
    >)
        ensures
            match outcome {
                Ok(objs) => listed(r) == Some(listing_of(request.bucket@, objs@)),
                Err(detail) => r == Err::<Vec<FileMeta>, S3Error>(S3Error::RemoteListError(detail)),
            },
    {
        match outcome {
            Err(detail) => Err(S3Error::RemoteListError(detail)),
            Ok(objs) => {
                let bucket = request.bucket.as_str();
                let mut out: Vec<FileMeta> = Vec::new();
                let mut i: usize = 0;
                while i < objs.len()
                    invariant
                        i <= objs.len(),
                        out.len() == i,
                        bucket@ == request.bucket@,
                        forall|j: int| 0 <= j < i ==> #[trigger] out@[j]@ == meta_of(bucket@, objs@[j]),
                    decreases objs.len() - i,
                {
                    let o = &objs[i];
                    let path = match &o.key {
                        Some(k) => join_path(bucket, k.as_str()),
                        None => {
                            let empty = "";
                            proof {
                                reveal_strlit("");
                            }
                            join_path(bucket, empty)
                        },
                    };
                    let meta = FileMeta {
                        sized_file: SizedFile { path, size: o.size },
                        last_modified: o.last_modified,
                    };
                    out.push(meta);
                    i = i + 1;
                }
                let r = Ok(out);
                assert(listed(r).unwrap() =~= listing_of(request.bucket@, objs@));
                r
            },
        }
    }

    /// Hierarchical listing is not offered: every call fails.
    pub fn list_dir(&self, _prefix: &str, _delimiter: Option<String>) -> (r: Result<Vec<ListEntry>, S3Error>)
        ensures
            r == Err::<Vec<ListEntry>, S3Error>(S3Error::NotImplemented),
    {
        Err(S3Error::NotImplemented)
    }

    /// A reader of `file`, with its own copy of this store's configuration.
    /// Nothing is fetched: failures come with the first read.
    pub fn file_reader(&self, file: SizedFile) -> (r: AmazonS3FileReader)
        ensures
            r.config_view() == self.config_view(),
            r.path_view() == file.path@,
            r.size_view() == file.size,
    {
        AmazonS3FileReader::new(self.config.copy(), file)
    }
}

/// Two listings that the provider answers with the same entries give the
/// same entries, in the provider's order: entry `j` of the listing is made
/// from provider entry `j`.
pub proof fn lemma_listing_repeatable(bucket: Seq<char>, first: Seq<RemoteObject>, second: Seq<RemoteObject>)
    requires
        first == second,
    ensures
        listing_of(bucket, first) == listing_of(bucket, second),
        listing_of(bucket, first).len() == first.len(),
        forall|j: int| 0 <= j < first.len() ==> #[trigger] listing_of(bucket, first)[j] == meta_of(bucket, first[j]),
{
}

} // verus!
