use vstd::prelude::*;

verus! {

/// Why a content traversal failed.
#[derive(Debug, Clone, Copy, PartialEq, Eq, Structural)]
pub enum ContentError {
    /// The line at this position of the cache is not decodable.
    DecodeError(usize),
}

/// A handle on a cache of pre-encoded payload lines: it holds the file's
/// path, never its data. Every traversal re-reads the file from the start,
/// so traversals are independent and restartable and memory use stays
/// bounded whatever the file's size.
pub struct CachedMessages(String);

impl View for CachedMessages {
    type V = Seq<char>;

    /// A cache handle is, abstractly, the path it names.
    closed spec fn view(&self) -> Seq<char> {
        self.0@
    }
}

impl CachedMessages {
    /// A handle on the cache at `file`.
    pub fn from_file(file: String) -> (r: Self)
        ensures
            r@ == file@,
    {
        CachedMessages(file)
    }

    /// The path of the cache file.
    pub fn path(&self) -> (r: &String)
        ensures
            r@ == self@,
    {
        &self.0
    }
}

/// What one cache line decodes to, if it is valid base64 under the standard
/// alphabet; the result depends on the line's characters alone.
pub uninterp spec fn base64_decode_of(s: Seq<char>) -> Option<Seq<u8>>;

/// Relies on base64's `Engine::decode` with the `STANDARD` engine: a padded,
/// standard-alphabet decode whose outcome is a function of the input
/// characters.
#[verifier::external_body]
fn decode_base64(line: &str) -> (r: Option<Vec<u8>>)
    ensures
        r is Some <==> base64_decode_of(line@) is Some,
        r matches Some(v) ==> v@ == base64_decode_of(line@)->0,
{
    base64::Engine::decode(&base64::engine::general_purpose::STANDARD, line).ok()
}

/// The lines of a cache, as sequences of characters.
pub open spec fn lines_view(lines: Seq<String>) -> Seq<Seq<char>> {
    lines.map(|i: int, s: String| s@)
}

/// The payloads of a decoded traversal, as sequences of bytes.
pub open spec fn payloads_view(out: Seq<Vec<u8>>) -> Seq<Seq<u8>> {
    out.map(|i: int, v: Vec<u8>| v@)
}

/// Whether `out` is the decoded byte sequence of `lines`, line for line in
/// file order.
pub open spec fn decodes_to(lines: Seq<Seq<char>>, out: Seq<Seq<u8>>) -> bool {
    &&& out.len() == lines.len()
    &&& forall|i: int|
        0 <= i < lines.len() ==> (#[trigger] base64_decode_of(lines[i])) == Some(out[i])
}

/// Decode one cache line into its payload bytes, or nothing if the line is
/// not valid base64. One line at a time: a traversal that calls this per
/// line holds at most one payload in memory.
pub fn decode_message(line: &str) -> (r: Option<Vec<u8>>)
    ensures
        r is Some <==> base64_decode_of(line@) is Some,
        r matches Some(v) ==> v@ == base64_decode_of(line@)->0,
{
    decode_base64(line)
}

/// Decode every line of a payload cache, in file order. The first line that
/// does not decode fails the whole traversal with its position: malformed
/// cache data surfaces at once instead of skewing a benchmark.
pub fn decode_messages(lines: &Vec<String>) -> (r: Result<Vec<Vec<u8>>, ContentError>)
    ensures
        r is Ok <==> (forall|i: int|
            0 <= i < lines@.len() ==> (#[trigger] base64_decode_of(lines@[i]@)) is Some),
        r matches Ok(out) ==> decodes_to(lines_view(lines@), payloads_view(out@)),
        r matches Err(e) ==> (e matches ContentError::DecodeError(i) && 0 <= (i as int)
            < lines@.len() && base64_decode_of(lines@[i as int]@) is None && (forall|j: int|
            0 <= j < i as int ==> (#[trigger] base64_decode_of(lines@[j]@)) is Some)),
{
    let mut out: Vec<Vec<u8>> = Vec::new();
    let mut i: usize = 0;
    while i < lines.len()
        invariant
            i <= lines@.len(),
            out@.len() == i,
            forall|j: int|
                0 <= j < i ==> (#[trigger] base64_decode_of(lines@[j]@)) == Some(out@[j]@),
        decreases lines@.len() - i,
    {
        match decode_message(lines[i].as_str()) {
            Some(payload) => {
                out.push(payload);
            },
            None => {
                return Err(ContentError::DecodeError(i));
            },
        }
        i = i + 1;
    }
    Ok(out)
}

/// Law: a cache traversal is restartable — any two decoded traversals of the
/// same lines yield the same byte sequences.
pub proof fn lemma_traversal_restartable(
    lines: Seq<Seq<char>>,
    first: Seq<Seq<u8>>,
    second: Seq<Seq<u8>>,
)
    requires
        decodes_to(lines, first),
        decodes_to(lines, second),
    ensures
        first == second,
{
    assert forall|i: int| 0 <= i < first.len() implies first[i] == second[i] by {
        assert(base64_decode_of(lines[i]) == Some(first[i]));
        assert(base64_decode_of(lines[i]) == Some(second[i]));
    }
    assert(first =~= second);
}

/// Relies on rand's `fill`: overwrites the buffer with random bytes, leaving
/// its length unchanged; nothing is promised of the bytes themselves.
#[verifier::external_body]
fn random_bytes(size: usize) -> (r: Vec<u8>)
    ensures
        r@.len() == size,
{
    let mut payload = vec![0u8; size];
    rand::fill(&mut payload[..]);
    payload
}

/// A freshly generated synthetic payload of exactly `size` bytes, for
/// scenarios that run in synthetic mode.
pub fn synthetic_payload(size: usize) -> (r: Vec<u8>)
    ensures
        r@.len() == size,
{
    random_bytes(size)
}

/// Where a run's payloads come from.
#[derive(Debug, Clone, Copy, PartialEq, Eq, Structural)]
pub enum ContentMode {
    /// Payloads are the decoded lines of the cache at `message_file`.
    FileBacked,
    /// Payloads are freshly generated, `message_size` bytes each.
    Synthetic,
}

/// The content mode a scenario runs in: file-backed content wins whenever
/// the payload cache is usable — it opens and holds at least one line — and
/// synthetic generation is the fallback, never the other way round.
pub fn content_mode(cache_usable: bool) -> (r: ContentMode)
    ensures
        r == ContentMode::FileBacked <==> cache_usable,
{
    if cache_usable {
        ContentMode::FileBacked
    } else {
        ContentMode::Synthetic
    }
}

} // verus!
