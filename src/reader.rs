//! Reads of byte ranges of one object.

use vstd::prelude::*;

use crate::config::StoreConfig;
use crate::error::S3Error;
use crate::path::{container_of, key_prefix_of, split_prefix};
use crate::range::{range_header, range_header_text, read_bytes, requested_span};
use crate::store::SizedFile;

verus! {

/// How long, in seconds, a read waits for the provider's answer.
pub const READ_TIMEOUT_SECS: u64 = 10;

/// The get-object call that one read makes: the container, the key, and the
/// `Range` header where the read is bounded.
#[derive(Debug)]
pub struct ReadRequest {
    pub bucket: String,
    pub key: String,
    pub range: Option<String>,
}

/// What came back to the reading thread while it waited.
#[derive(Debug)]
pub enum ReadOutcome {
    /// The provider delivered this body.
    Body(Vec<u8>),
    /// The provider's call, or the transfer of its body, failed.
    ProviderError(String),
    /// Nothing came within the time limit.
    TimedOut,
    /// The worker ended without handing over a result.
    Disconnected,
}

/// A reader of one object of a store. It holds its own copy of the store's
/// configuration and the object's size as it was listed; neither changes
/// after construction.
#[derive(Debug)]
pub struct AmazonS3FileReader {
    config: StoreConfig,
    file: SizedFile,
}

/// The bytes that a read of `length` bytes at `start` returns for `outcome`.
pub open spec fn read_result(start: nat, length: nat, outcome: ReadOutcome, r: Result<Vec<u8>, S3Error>) -> bool {
    match outcome {
        ReadOutcome::Body(body) => match read_bytes(start, length, body@) {
            Some(b) => r matches Ok(v) && v@ == b,
            None => r matches Err(S3Error::RemoteReadError(_)),
        },
        ReadOutcome::ProviderError(d) => r == Err::<Vec<u8>, S3Error>(S3Error::RemoteReadError(d)),
        ReadOutcome::TimedOut => r == Err::<Vec<u8>, S3Error>(S3Error::TimeoutError),
        ReadOutcome::Disconnected => r matches Err(S3Error::RemoteReadError(_)),
    }
}

impl AmazonS3FileReader {
    pub closed spec fn config_view(&self) -> crate::config::StoreConfigView {
        self.config@
    }

    pub closed spec fn path_view(&self) -> Seq<char> {
        self.file.path@
    }

    pub closed spec fn size_view(&self) -> u64 {
        self.file.size
    }

    /// A reader of `file` that connects with `config`. Nothing is fetched.
    pub fn new(config: StoreConfig, file: SizedFile) -> (r: AmazonS3FileReader)
        ensures
            r.config_view() == config@,
            r.path_view() == file.path@,
            r.size_view() == file.size,
    {
        AmazonS3FileReader { config, file }
    }

    /// The configuration that this reader connects with.
    pub fn config(&self) -> (r: &StoreConfig)
        ensures
            r@ == self.config_view(),
    {
        &self.config
    }

    /// The object's size, as it was when the reader was made. No call is made.
    pub fn length(&self) -> (r: u64)
        ensures
            r == self.size_view(),
    {
        self.file.size
    }

    /// The call that a read of `length` bytes at `start` makes: the object's
    /// path split into container and key, and a `Range` header for bytes
    /// `start` to `start + length - 1` where `length` is not zero.
    pub fn read_request(&self, start: u64, length: usize) -> (r: ReadRequest)
        requires
            length == 0 || start + length - 1 <= u64::MAX,
        ensures
            r.bucket@ == container_of(self.path_view()),
            r.key@ == key_prefix_of(self.path_view()),
            match requested_span(start as nat, length as nat) {
                None => r.range is None,
                Some((first, last)) => r.range is Some && r.range->0@ == range_header_text(first, last),
            },
    {
        let (bucket, key) = split_prefix(self.file.path.as_str());
        let range = range_header(start, length);
        ReadRequest { bucket, key, range }
    }

    /// The result of a read of `length` bytes at `start`, given what came
    /// back: exactly the requested span of a bounded read, the bytes from
    /// `start` on of a read to the end, and otherwise an error. A body of the
    /// wrong length is refused, never handed on in part.
    pub fn finish_read(start: u64, length: usize, outcome: ReadOutcome) -> (r: Result<Vec<u8>, S3Error>)
        ensures
            read_result(start as nat, length as nat, outcome, r),
    {
        match outcome {
            ReadOutcome::Body(body) => {
                if length > 0 {
                    if body.len() == length {
                        Ok(body)
                    } else {
                        Err(S3Error::RemoteReadError("the provider sent a body of another length than the requested range".to_owned()))
                    }
                } else if start <= body.len() as u64 {
                    let from = start as usize;
                    let mut out: Vec<u8> = Vec::new();
                    let mut i: usize = from;
                    while i < body.len()
                        invariant
                            from <= i <= body.len(),
                            out@ == body@.subrange(from as int, i as int),
                        decreases body.len() - i,
                    {
                        out.push(body[i]);
                        i = i + 1;
                    }
                    assert(out@ =~= body@.skip(start as int));
                    Ok(out)
                } else {
                    Ok(Vec::new())
                }
            },
            ReadOutcome::ProviderError(detail) => Err(S3Error::RemoteReadError(detail)),
            ReadOutcome::TimedOut => Err(S3Error::TimeoutError),
            ReadOutcome::Disconnected => Err(S3Error::RemoteReadError("the read ended without a result".to_owned())),
        }
    }
}

} // verus!
