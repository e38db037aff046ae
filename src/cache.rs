//! The content-addressed track cache: each fetched track is stored under the
//! URL-safe base64 text of a 32-byte hash of its source and input.

use vstd::prelude::*;
use base64::Engine;
use base64::DecodeError as Base64Error;
use std::path::PathBuf;

verus! {

/// base64's decoding error, opaque.
#[verifier::external_type_specification]
#[verifier::external_body]
pub struct ExBase64DecodeError(Base64Error);

/// The URL-safe, padded base64 text of some bytes.
pub uninterp spec fn url_safe_encoding(bytes: Seq<u8>) -> Seq<char>;

/// The bytes whose URL-safe, padded base64 text a string is, if it is one.
pub uninterp spec fn url_safe_decoding(text: Seq<char>) -> Option<Seq<u8>>;

/// Relies on base64's `URL_SAFE` engine `encode`: the text depends on the
/// bytes alone.
#[verifier::external_body]
fn url_safe_encode(bytes: &[u8]) -> (r: String)
    ensures
        r@ == url_safe_encoding(bytes@),
{
    base64::engine::general_purpose::URL_SAFE.encode(bytes)
}

/// Relies on base64's `URL_SAFE` engine `decode`: the bytes, or an error,
/// depend on the text alone.
#[verifier::external_body]
fn url_safe_decode(text: &str) -> (r: Result<Vec<u8>, Base64Error>)
    ensures
        r matches Ok(v) ==> url_safe_decoding(text@) == Some(v@),
        r is Err ==> url_safe_decoding(text@) is None,
{
    base64::engine::general_purpose::URL_SAFE.decode(text)
}

/// Relies on `Path::join`: `name` appended to `base` as a new component.
#[verifier::external_body]
pub(crate) fn path_join(base: &PathBuf, name: &str) -> (r: PathBuf) {
    base.join(name)
}

/// Relies on `Path::exists`: whether the file system has an entry at the
/// path now; nothing is promised of the answer.
#[verifier::external_body]
fn path_exists(p: &PathBuf) -> (r: bool) {
    p.exists()
}

/// Hash of a source and a track's input: the key of the track in the cache.
#[derive(Debug, Clone, Copy, PartialEq, Eq, Hash)]
pub struct Hash {
    hash: [u8; 32],
}

/// Why a text is not a cache key.
#[derive(Debug)]
pub enum DecodeError {
    /// The text is not URL-safe base64.
    Base64(Base64Error),
    /// The text decodes to a byte count other than 32.
    NotEnoughBytes,
}

impl Hash {
    /// The key's 32 bytes.
    pub closed spec fn bytes(&self) -> Seq<u8> {
        self.hash@
    }

    /// The key made of the given 32 bytes.
    pub fn from_bytes(bytes: [u8; 32]) -> (r: Hash)
        ensures
            r.bytes() == bytes@,
    {
        Hash { hash: bytes }
    }

    /// The key's 32 bytes.
    pub fn to_bytes(&self) -> (r: [u8; 32])
        ensures
            r@ == self.bytes(),
    {
        self.hash
    }

    /// The key's text: the URL-safe base64 of its bytes.
    pub fn to_string(&self) -> (r: String)
        ensures
            r@ == url_safe_encoding(self.bytes()),
    {
        url_safe_encode(self.hash.as_slice())
    }

    /// Reads a key from its text: URL-safe base64 of exactly 32 bytes.
    pub fn decode(s: &str) -> (r: Result<Hash, DecodeError>)
        ensures
            r is Ok <==> (url_safe_decoding(s@) matches Some(b) && b.len() == 32),
            r matches Ok(h) ==> url_safe_decoding(s@) == Some(h.bytes()),
            r matches Err(DecodeError::Base64(_)) <==> url_safe_decoding(s@) is None,
            r matches Err(DecodeError::NotEnoughBytes) <==> (url_safe_decoding(s@) matches Some(b)
                && b.len() != 32),
    {
        match url_safe_decode(s) {
            Err(e) => Err(DecodeError::Base64(e)),
            Ok(v) => {
                if v.len() != 32 {
                    return Err(DecodeError::NotEnoughBytes);
                }
                let mut hash = [0u8; 32];
                let mut i: usize = 0;
                while i < 32
                    invariant
                        v@.len() == 32,
                        i <= 32,
                        forall|j: int| 0 <= j < i ==> hash@[j] == v@[j],
                    decreases 32 - i,
                {
                    hash[i] = v[i];
                    i = i + 1;
                }
                assert(hash@ =~= v@);
                Ok(Hash { hash })
            },
        }
    }
}

/// A key has exactly 32 bytes, and its bytes determine it.
pub proof fn lemma_hash_bytes(a: Hash, b: Hash)
    ensures
        a.bytes().len() == 32,
        a.bytes() == b.bytes() ==> a == b,
{
    if a.bytes() == b.bytes() {
        assert(a.hash@ == b.hash@);
        assert(a.hash == b.hash);
    }
}

/// Granting base64's own round trip on a key's bytes (decoding their text
/// gives them back, which base64 tests but does not document), any result
/// that `decode`'s contract allows on the key's text is exactly the key that
/// `to_string` wrote.
pub proof fn lemma_text_round_trip(h: Hash, text: Seq<char>, r: Result<Hash, DecodeError>)
    requires
        url_safe_decoding(url_safe_encoding(h.bytes())) == Some(h.bytes()),
        text == url_safe_encoding(h.bytes()),
        r is Ok <==> (url_safe_decoding(text) matches Some(b) && b.len() == 32),
        r matches Ok(k) ==> url_safe_decoding(text) == Some(k.bytes()),
    ensures
        r matches Ok(k) && k == h,
{
    lemma_hash_bytes(h, h);
    if let Ok(k) = r {
        lemma_hash_bytes(k, h);
    }
}

impl std::str::FromStr for Hash {
    type Err = DecodeError;

    fn from_str(s: &str) -> Result<Hash, DecodeError> {
        Hash::decode(s)
    }
}

/// The cache's directory.
#[derive(Debug)]
pub struct CacheDir {
    dir: PathBuf,
}

impl CacheDir {
    /// The directory that holds the cached tracks.
    pub closed spec fn dir(&self) -> PathBuf {
        self.dir
    }

    /// The cache kept in `path`.
    pub fn new(path: PathBuf) -> (r: Self)
        ensures
            r.dir() == path,
    {
        CacheDir { dir: path }
    }

    /// The path of the cached track with key `hash`, if the cache holds one.
    pub fn find(&self, hash: Hash) -> (r: Option<PathBuf>) {
        let p = self.create(hash);
        if path_exists(&p) {
            Some(p)
        } else {
            None
        }
    }

    /// The path at which the track with key `hash` is stored: the key's text
    /// inside the cache's directory.
    pub fn create(&self, hash: Hash) -> (r: PathBuf) {
        let name = hash.to_string();
        path_join(&self.dir, name.as_str())
    }
}

} // verus!
