//! Subresource Integrity digests: parsing `"<algorithm>-<base64>"` strings and
//! verifying content against the pinned hash.

use crate::text::{bytes_eq, find_byte, lemma_position_unique, position};
use base64::Engine;
use sha2::Digest;
use vstd::prelude::*;
use vstd::slice::slice_subrange;
use vstd::string::StringSliceAdditionalSpecFns;
use vstd::utf8::{encode_utf8, is_ascii_chars_encode_utf8};

verus! {

/// The ASCII code of `-`, which separates the algorithm from the hash.
pub const SEPARATOR: u8 = 45;

/// A hash algorithm that a digest can be pinned with.
#[derive(Debug, Clone, Copy, PartialEq, Eq)]
pub enum Algorithm {
    Sha256,
    Sha384,
    Sha512,
}

/// A pinned digest: the algorithm, and a hash of the length that the
/// algorithm produces.
#[derive(Debug, Clone, PartialEq, Eq)]
pub enum SriHash {
    /// SHA-256 hash (32 bytes).
    Sha256([u8; 32]),
    /// SHA-384 hash (48 bytes).
    Sha384([u8; 48]),
    /// SHA-512 hash (64 bytes).
    Sha512([u8; 64]),
}

/// Why a digest string was rejected.
#[derive(Debug, Clone, PartialEq, Eq)]
pub enum SriError {
    /// The `-` separator between algorithm and hash is missing.
    InvalidFormat,
    /// The algorithm is not one of `sha256`, `sha384`, `sha512`.
    UnsupportedAlgorithm,
    /// The hash part is not standard base64.
    InvalidBase64,
    /// The decoded hash has the wrong length for its algorithm.
    InvalidHashLength,
}

/// What standard base64 with padding decodes `input` to; `None` where `input`
/// is not valid base64.
pub uninterp spec fn base64_decoding(input: Seq<u8>) -> Option<Seq<u8>>;

/// The SHA-256 hash of `content`.
pub uninterp spec fn sha256(content: Seq<u8>) -> Seq<u8>;

/// The SHA-384 hash of `content`.
pub uninterp spec fn sha384(content: Seq<u8>) -> Seq<u8>;

/// The SHA-512 hash of `content`.
pub uninterp spec fn sha512(content: Seq<u8>) -> Seq<u8>;

/// The bytes of an optional byte vector.
pub open spec fn optional_bytes(bytes: Option<Vec<u8>>) -> Option<Seq<u8>> {
    match bytes {
        Some(b) => Some(b@),
        None => None,
    }
}

/// Calls `Engine::decode` of the base64 crate on its `STANDARD` engine (the
/// standard alphabet, padding required, no trailing bits). Trusted: the
/// result is `base64_decoding` of the input, `None` standing for every
/// decoding error.
#[verifier::external_body]
fn base64_decode(input: &[u8]) -> (decoded: Option<Vec<u8>>)
    ensures
        optional_bytes(decoded) == base64_decoding(input@),
{
    base64::engine::general_purpose::STANDARD.decode(input).ok()
}

/// Calls `Sha256::digest` of the sha2 crate. Trusted: the 32 bytes returned
/// are `sha256` of the content.
#[verifier::external_body]
fn sha256_of(content: &[u8]) -> (hash: [u8; 32])
    ensures
        hash@ == sha256(content@),
{
    sha2::Sha256::digest(content).into()
}

/// Calls `Sha384::digest` of the sha2 crate. Trusted: the 48 bytes returned
/// are `sha384` of the content.
#[verifier::external_body]
fn sha384_of(content: &[u8]) -> (hash: [u8; 48])
    ensures
        hash@ == sha384(content@),
{
    sha2::Sha384::digest(content).into()
}

/// Calls `Sha512::digest` of the sha2 crate. Trusted: the 64 bytes returned
/// are `sha512` of the content.
#[verifier::external_body]
fn sha512_of(content: &[u8]) -> (hash: [u8; 64])
    ensures
        hash@ == sha512(content@),
{
    sha2::Sha512::digest(content).into()
}

impl Algorithm {
    /// The name of the algorithm in a digest string.
    pub open spec fn name_text(self) -> Seq<char> {
        match self {
            Algorithm::Sha256 => "sha256"@,
            Algorithm::Sha384 => "sha384"@,
            Algorithm::Sha512 => "sha512"@,
        }
    }

    /// The name of the algorithm, as the bytes of a digest string.
    pub open spec fn name_bytes(self) -> Seq<u8> {
        match self {
            Algorithm::Sha256 => "sha256".spec_bytes(),
            Algorithm::Sha384 => "sha384".spec_bytes(),
            Algorithm::Sha512 => "sha512".spec_bytes(),
        }
    }

    /// The number of bytes in a hash of this algorithm.
    pub open spec fn hash_len(self) -> nat {
        match self {
            Algorithm::Sha256 => 32,
            Algorithm::Sha384 => 48,
            Algorithm::Sha512 => 64,
        }
    }

    /// The hash of `content` under this algorithm.
    pub open spec fn hash_of(self, content: Seq<u8>) -> Seq<u8> {
        match self {
            Algorithm::Sha256 => sha256(content),
            Algorithm::Sha384 => sha384(content),
            Algorithm::Sha512 => sha512(content),
        }
    }

    /// The algorithm that `name` names: exactly `sha256`, `sha384` or
    /// `sha512`, in lower case.
    pub open spec fn named(name: Seq<u8>) -> Option<Algorithm> {
        if name == Algorithm::Sha256.name_bytes() {
            Some(Algorithm::Sha256)
        } else if name == Algorithm::Sha384.name_bytes() {
            Some(Algorithm::Sha384)
        } else if name == Algorithm::Sha512.name_bytes() {
            Some(Algorithm::Sha512)
        } else {
            None
        }
    }

    /// Looks an algorithm up by its name in a digest string.
    pub fn from_name(name: &[u8]) -> (algorithm: Option<Algorithm>)
        ensures
            algorithm == Algorithm::named(name@),
    {
        if bytes_eq(name, "sha256".as_bytes()) {
            Some(Algorithm::Sha256)
        } else if bytes_eq(name, "sha384".as_bytes()) {
            Some(Algorithm::Sha384)
        } else if bytes_eq(name, "sha512".as_bytes()) {
            Some(Algorithm::Sha512)
        } else {
            None
        }
    }
}

/// What a digest string made of `name` and a hash that decoded to `decoded`
/// stands for: the algorithm must be known and the hash of its length.
pub open spec fn digest_of_parts(name: Seq<u8>, decoded: Seq<u8>) -> Result<
    (Algorithm, Seq<u8>),
    SriError,
> {
    match Algorithm::named(name) {
        None => Err(SriError::UnsupportedAlgorithm),
        Some(algorithm) => if decoded.len() == algorithm.hash_len() {
            Ok((algorithm, decoded))
        } else {
            Err(SriError::InvalidHashLength)
        },
    }
}

/// What a digest string stands for. The text is split at its first `-`; the
/// part after it must be base64, then the part before it a known algorithm,
/// then the decoded hash of that algorithm's length.
pub open spec fn digest_of_text(text: Seq<u8>) -> Result<(Algorithm, Seq<u8>), SriError> {
    let at = position(text, SEPARATOR);
    if at >= text.len() {
        Err(SriError::InvalidFormat)
    } else {
        match base64_decoding(text.subrange(at + 1, text.len() as int)) {
            None => Err(SriError::InvalidBase64),
            Some(decoded) => digest_of_parts(text.subrange(0, at), decoded),
        }
    }
}

/// Copies a vector of `N` bytes into an array.
fn to_array<const N: usize>(bytes: &Vec<u8>) -> (array: [u8; N])
    requires
        bytes@.len() == N,
    ensures
        array@ == bytes@,
{
    let mut array = [0u8;N];
    let mut i: usize = 0;
    while i < N
        invariant
            i <= N,
            bytes@.len() == N,
            forall|j: int| 0 <= j < i ==> array@[j] == bytes@[j],
        decreases N - i,
    {
        array[i] = bytes[i];
        i += 1;
    }
    assert(array@ =~= bytes@);
    array
}

impl SriError {
    /// The text that `description` returns for each error.
    pub open spec fn description_text(self) -> Seq<char> {
        match self {
            SriError::InvalidFormat => "Invalid SRI format (expected 'algorithm-base64hash')"@,
            SriError::UnsupportedAlgorithm => "Unsupported algorithm (supported: sha256, sha384, sha512)"@,
            SriError::InvalidBase64 => "Invalid base64 encoding in hash"@,
            SriError::InvalidHashLength => "Hash length doesn't match algorithm"@,
        }
    }

    /// A human-readable description of the error.
    pub fn description(&self) -> (text: &'static str)
        ensures
            text@ == self.description_text(),
    {
        match self {
            SriError::InvalidFormat => "Invalid SRI format (expected 'algorithm-base64hash')",
            SriError::UnsupportedAlgorithm => "Unsupported algorithm (supported: sha256, sha384, sha512)",
            SriError::InvalidBase64 => "Invalid base64 encoding in hash",
            SriError::InvalidHashLength => "Hash length doesn't match algorithm",
        }
    }
}

impl SriHash {
    /// The algorithm that the digest is tagged with.
    pub open spec fn algorithm_of(self) -> Algorithm {
        match self {
            SriHash::Sha256(_) => Algorithm::Sha256,
            SriHash::Sha384(_) => Algorithm::Sha384,
            SriHash::Sha512(_) => Algorithm::Sha512,
        }
    }

    /// The pinned hash.
    pub open spec fn hash(self) -> Seq<u8> {
        match self {
            SriHash::Sha256(bytes) => bytes@,
            SriHash::Sha384(bytes) => bytes@,
            SriHash::Sha512(bytes) => bytes@,
        }
    }

    /// Whether `content` hashes to the pinned hash under the digest's algorithm.
    pub open spec fn matches_content(self, content: Seq<u8>) -> bool {
        self.hash() == self.algorithm_of().hash_of(content)
    }

    /// Builds a digest from the two parts of a digest string: the algorithm
    /// name and the decoded hash.
    pub fn from_parts(name: &[u8], decoded: &Vec<u8>) -> (parsed: Result<SriHash, SriError>)
        ensures
            match parsed {
                Ok(digest) => digest_of_parts(name@, decoded@) == Ok::<_, SriError>(
                    (digest.algorithm_of(), digest.hash()),
                ),
                Err(error) => digest_of_parts(name@, decoded@) == Err::<(Algorithm, Seq<u8>), _>(
                    error,
                ),
            },
    {
        match Algorithm::from_name(name) {
            None => Err(SriError::UnsupportedAlgorithm),
            Some(Algorithm::Sha256) => {
                if decoded.len() != 32 {
                    return Err(SriError::InvalidHashLength);
                }
                Ok(SriHash::Sha256(to_array(decoded)))
            },
            Some(Algorithm::Sha384) => {
                if decoded.len() != 48 {
                    return Err(SriError::InvalidHashLength);
                }
                Ok(SriHash::Sha384(to_array(decoded)))
            },
            Some(Algorithm::Sha512) => {
                if decoded.len() != 64 {
                    return Err(SriError::InvalidHashLength);
                }
                Ok(SriHash::Sha512(to_array(decoded)))
            },
        }
    }

    /// The digest that pins the hash of `content` under `algorithm`.
    pub fn of_content(algorithm: Algorithm, content: &[u8]) -> (digest: SriHash)
        ensures
            digest.algorithm_of() == algorithm,
            digest.hash() == algorithm.hash_of(content@),
    {
        match algorithm {
            Algorithm::Sha256 => SriHash::Sha256(sha256_of(content)),
            Algorithm::Sha384 => SriHash::Sha384(sha384_of(content)),
            Algorithm::Sha512 => SriHash::Sha512(sha512_of(content)),
        }
    }

    /// Parses a digest string such as `sha384-oqVuAfXRKap7...`.
    pub fn parse(s: &str) -> (parsed: Result<SriHash, SriError>)
        ensures
            match parsed {
                Ok(digest) => digest_of_text(s.spec_bytes()) == Ok::<_, SriError>(
                    (digest.algorithm_of(), digest.hash()),
                ),
                Err(error) => digest_of_text(s.spec_bytes()) == Err::<(Algorithm, Seq<u8>), _>(
                    error,
                ),
            },
    {
        let text = s.as_bytes();
        match find_byte(text, SEPARATOR) {
            None => Err(SriError::InvalidFormat),
            Some(at) => {
                let len = text.len();
                let name = slice_subrange(text, 0, at);
                let encoded = slice_subrange(text, at + 1, len);
                match base64_decode(encoded) {
                    None => Err(SriError::InvalidBase64),
                    Some(decoded) => SriHash::from_parts(name, &decoded),
                }
            },
        }
    }

    /// Whether `computed` is the pinned hash. The comparison is an ordinary
    /// one, byte by byte.
    pub fn matches_hash(&self, computed: &[u8]) -> (matches: bool)
        ensures
            matches == (self.hash() == computed@),
    {
        match self {
            SriHash::Sha256(expected) => bytes_eq(expected.as_slice(), computed),
            SriHash::Sha384(expected) => bytes_eq(expected.as_slice(), computed),
            SriHash::Sha512(expected) => bytes_eq(expected.as_slice(), computed),
        }
    }

    /// Whether `content` hashes to the pinned hash under the digest's
    /// algorithm.
    pub fn verify(&self, content: &[u8]) -> (matches: bool)
        ensures
            matches == self.matches_content(content@),
    {
        match self {
            SriHash::Sha256(_) => self.matches_hash(sha256_of(content).as_slice()),
            SriHash::Sha384(_) => self.matches_hash(sha384_of(content).as_slice()),
            SriHash::Sha512(_) => self.matches_hash(sha512_of(content).as_slice()),
        }
    }

    /// The name of the digest's algorithm.
    pub fn algorithm(&self) -> (name: &'static str)
        ensures
            name@ == self.algorithm_of().name_text(),
    {
        match self {
            SriHash::Sha256(_) => "sha256",
            SriHash::Sha384(_) => "sha384",
            SriHash::Sha512(_) => "sha512",
        }
    }
}

/// The three algorithm names are six bytes long, hold no separator, and name
/// their own algorithm.
pub proof fn lemma_algorithm_names(algorithm: Algorithm)
    ensures
        algorithm.name_bytes() == encode_utf8(algorithm.name_text()),
        algorithm.name_bytes().len() == 6,
        forall|i: int| 0 <= i < 6 ==> algorithm.name_bytes()[i] != SEPARATOR,
        Algorithm::named(algorithm.name_bytes()) == Some(algorithm),
{
    reveal_strlit("sha256");
    reveal_strlit("sha384");
    reveal_strlit("sha512");
    is_ascii_chars_encode_utf8("sha256"@);
    is_ascii_chars_encode_utf8("sha384"@);
    is_ascii_chars_encode_utf8("sha512"@);
    let a = "sha256".spec_bytes();
    let b = "sha384".spec_bytes();
    let c = "sha512".spec_bytes();
    assert(a[3] == 50 && a[4] == 53 && a[5] == 54) by {
        assert("sha256"@[3] == '2' && "sha256"@[4] == '5' && "sha256"@[5] == '6');
    }
    assert(b[3] == 51 && b[4] == 56 && b[5] == 52) by {
        assert("sha384"@[3] == '3' && "sha384"@[4] == '8' && "sha384"@[5] == '4');
    }
    assert(c[3] == 53 && c[4] == 49 && c[5] == 50) by {
        assert("sha512"@[3] == '5' && "sha512"@[4] == '1' && "sha512"@[5] == '2');
    }
    let name = algorithm.name_bytes();
    assert forall|i: int| 0 <= i < 6 implies name[i] != SEPARATOR by {
        assert(algorithm.name_text()[i] != '-');
    }
}

/// A text made of a name without separator, the separator and a second part
/// splits at the end of the name.
pub proof fn lemma_split_at_separator(name: Seq<u8>, encoded: Seq<u8>)
    requires
        forall|i: int| 0 <= i < name.len() ==> name[i] != SEPARATOR,
    ensures
        position(name + seq![SEPARATOR] + encoded, SEPARATOR) == name.len(),
        digest_of_text(name + seq![SEPARATOR] + encoded) == match base64_decoding(encoded) {
            None => Err::<(Algorithm, Seq<u8>), _>(SriError::InvalidBase64),
            Some(decoded) => digest_of_parts(name, decoded),
        },
{
    let text = name + seq![SEPARATOR] + encoded;
    lemma_position_unique(text, SEPARATOR, name.len() as int);
    assert(text.subrange(0, name.len() as int) =~= name);
    assert(text.subrange(name.len() as int + 1, text.len() as int) =~= encoded);
}

/// A digest string `<algorithm>-<base64>` whose base64 part decodes to a hash
/// of the algorithm's length stands for that algorithm and that hash, and the
/// algorithm's name is the text before the separator.
pub proof fn lemma_well_formed_text_parses(
    algorithm: Algorithm,
    encoded: Seq<u8>,
    decoded: Seq<u8>,
)
    requires
        base64_decoding(encoded) == Some(decoded),
        decoded.len() == algorithm.hash_len(),
    ensures
        digest_of_text(encode_utf8(algorithm.name_text()) + seq![SEPARATOR] + encoded) == Ok::<
            _,
            SriError,
        >((algorithm, decoded)),
{
    lemma_algorithm_names(algorithm);
    lemma_split_at_separator(algorithm.name_bytes(), encoded);
}

/// A text without separator is rejected as `InvalidFormat`.
pub proof fn lemma_missing_separator_rejected(text: Seq<u8>)
    requires
        forall|i: int| 0 <= i < text.len() ==> text[i] != SEPARATOR,
    ensures
        digest_of_text(text) == Err::<(Algorithm, Seq<u8>), _>(SriError::InvalidFormat),
{
    lemma_position_unique(text, SEPARATOR, text.len() as int);
}

/// A digest string whose part after the first separator is not base64 is
/// rejected as `InvalidBase64`, whatever the algorithm name.
pub proof fn lemma_malformed_base64_rejected(name: Seq<u8>, encoded: Seq<u8>)
    requires
        forall|i: int| 0 <= i < name.len() ==> name[i] != SEPARATOR,
        base64_decoding(encoded) is None,
    ensures
        digest_of_text(name + seq![SEPARATOR] + encoded) == Err::<(Algorithm, Seq<u8>), _>(
            SriError::InvalidBase64,
        ),
{
    lemma_split_at_separator(name, encoded);
}

/// A digest string with valid base64 after the separator and a name other
/// than `sha256`, `sha384` and `sha512` before it is rejected as
/// `UnsupportedAlgorithm`.
pub proof fn lemma_unknown_algorithm_rejected(name: Seq<u8>, encoded: Seq<u8>)
    requires
        forall|i: int| 0 <= i < name.len() ==> name[i] != SEPARATOR,
        base64_decoding(encoded) is Some,
        name != Algorithm::Sha256.name_bytes(),
        name != Algorithm::Sha384.name_bytes(),
        name != Algorithm::Sha512.name_bytes(),
    ensures
        digest_of_text(name + seq![SEPARATOR] + encoded) == Err::<(Algorithm, Seq<u8>), _>(
            SriError::UnsupportedAlgorithm,
        ),
{
    lemma_split_at_separator(name, encoded);
}

/// A digest string of a supported algorithm whose base64 part decodes to a
/// hash of another length is rejected as `InvalidHashLength`.
pub proof fn lemma_wrong_hash_length_rejected(
    algorithm: Algorithm,
    encoded: Seq<u8>,
    decoded: Seq<u8>,
)
    requires
        base64_decoding(encoded) == Some(decoded),
        decoded.len() != algorithm.hash_len(),
    ensures
        digest_of_text(algorithm.name_bytes() + seq![SEPARATOR] + encoded) == Err::<
            (Algorithm, Seq<u8>),
            _,
        >(SriError::InvalidHashLength),
{
    lemma_algorithm_names(algorithm);
    lemma_split_at_separator(algorithm.name_bytes(), encoded);
}

/// A digest that pins the hash of some content matches that content, and
/// matches other content exactly when it has the same hash.
pub proof fn lemma_digest_matches_its_content(digest: SriHash, content: Seq<u8>, other: Seq<u8>)
    requires
        digest.hash() == digest.algorithm_of().hash_of(content),
    ensures
        digest.matches_content(content),
        digest.matches_content(other) <==> digest.algorithm_of().hash_of(other)
            == digest.algorithm_of().hash_of(content),
{
}

} // verus!
