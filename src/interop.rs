//! The interoperability test cases, and the HTTP/0.9 request line that their
//! file transfers use.
use vstd::prelude::*;
use bytes::Bytes;

verus! {

#[verifier::external_type_specification]
#[verifier::external_body]
pub struct ExBytes(Bytes);

/// The bytes that a `Bytes` holds.
pub uninterp spec fn bytes_view(b: Bytes) -> Seq<u8>;

/// Relies on `<Bytes as AsRef<[u8]>>::as_ref`: the slice of the bytes held.
#[verifier::external_body]
fn bytes_as_slice(b: &Bytes) -> (r: &[u8])
    ensures
        r@ == bytes_view(*b),
{
    b.as_ref()
}

/// Relies on `String::push`: appends one character.
#[verifier::external_body]
fn string_push(s: &mut String, c: char)
    ensures
        final(s)@ == old(s)@.push(c),
{
    s.push(c)
}

/// Relies on `String::clear`: removes all characters.
#[verifier::external_body]
fn string_clear(s: &mut String)
    ensures
        final(s)@ == Seq::<char>::empty(),
{
    s.clear()
}

/// Relies on `str::eq`: equal exactly when the characters are.
#[verifier::external_body]
fn str_eq(a: &str, b: &str) -> (r: bool)
    ensures
        r == (a@ == b@),
{
    a == b
}

/// The concatenation of the chunks.
pub open spec fn flatten(chunks: Seq<Bytes>) -> Seq<u8>
    decreases chunks.len(),
{
    if chunks.len() == 0 {
        Seq::empty()
    } else {
        flatten(chunks.drop_last()) + bytes_view(chunks.last())
    }
}

/// The bytes that open every request: `GET /`.
pub open spec fn request_prefix() -> Seq<u8> {
    seq![71u8, 69u8, 84u8, 32u8, 47u8]
}

/// The bytes that a request path may hold: ASCII letters and digits, `.`,
/// `/` and `-`.
pub open spec fn is_path_byte(c: u8) -> bool {
    (48 <= c <= 57) || (97 <= c <= 122) || (65 <= c <= 90) || c == 46 || c == 47 || c == 45
}

/// A line feed or a carriage return, either of which ends a request line.
pub open spec fn is_line_end(c: u8) -> bool {
    c == 10 || c == 13
}

/// The position of the first byte at or after `i` that is no path byte, or
/// the length of `b`.
pub open spec fn path_end(b: Seq<u8>, i: int) -> int
    decreases b.len() - i,
{
    if i >= b.len() || i < 0 || !is_path_byte(b[i]) {
        i
    } else {
        path_end(b, i + 1)
    }
}

/// The ASCII characters of the bytes.
pub open spec fn ascii_chars(b: Seq<u8>) -> Seq<char> {
    b.map_values(|c: u8| c as char)
}

/// Whether `b` holds the whole request prefix.
pub open spec fn has_request_prefix(b: Seq<u8>) -> bool {
    b.len() >= 5 && b.subrange(0, 5) == request_prefix()
}

/// Why a request was refused.
#[derive(Clone, Copy, Debug, PartialEq, Eq, Structural)]
pub enum RequestError {
    /// The request does not start with `GET /`, or ended before it did.
    InvalidRequest,
    /// The path holds this byte, which no path may hold.
    InvalidCharacter(u8),
}

/// What parsing the request bytes `b` gives: `Ok(true)` for a complete
/// request, `Ok(false)` where more bytes may still complete it (the stream is
/// open), an error otherwise.
pub open spec fn h09_outcome(b: Seq<u8>, is_open: bool) -> Result<bool, RequestError> {
    let n = if b.len() < 5 { b.len() as int } else { 5 };
    if b.subrange(0, n) != request_prefix().subrange(0, n) {
        Err(RequestError::InvalidRequest)
    } else if n < 5 {
        if is_open {
            Ok(false)
        } else {
            Err(RequestError::InvalidRequest)
        }
    } else {
        let k = path_end(b, 5);
        if k >= b.len() {
            Ok(!is_open)
        } else if is_line_end(b[k]) {
            Ok(true)
        } else {
            Err(RequestError::InvalidCharacter(b[k]))
        }
    }
}

proof fn lemma_path_end_bounds(b: Seq<u8>, i: int)
    requires
        0 <= i <= b.len(),
    ensures
        i <= path_end(b, i) <= b.len(),
        forall|j: int| i <= j < path_end(b, i) ==> is_path_byte(b[j]),
        path_end(b, i) < b.len() ==> !is_path_byte(b[path_end(b, i)]),
    decreases b.len() - i,
{
    if i < b.len() && is_path_byte(b[i]) {
        lemma_path_end_bounds(b, i + 1);
    }
}

/// The bytes of all chunks, in order.
fn concat_chunks(chunks: &[Bytes]) -> (r: Vec<u8>)
    ensures
        r@ == flatten(chunks@),
{
    let mut out: Vec<u8> = Vec::new();
    let mut ci: usize = 0;
    while ci < chunks.len()
        invariant
            ci <= chunks@.len(),
            out@ == flatten(chunks@.subrange(0, ci as int)),
        decreases chunks@.len() - ci,
    {
        let chunk = bytes_as_slice(&chunks[ci]);
        let ghost before = out@;
        let mut j: usize = 0;
        while j < chunk.len()
            invariant
                j <= chunk@.len(),
                out@ == before + chunk@.subrange(0, j as int),
            decreases chunk@.len() - j,
        {
            out.push(chunk[j]);
            assert(chunk@.subrange(0, j + 1) =~= chunk@.subrange(0, j as int).push(chunk@[j as int]));
            j += 1;
        }
        assert(chunks@.subrange(0, ci + 1).drop_last() =~= chunks@.subrange(0, ci as int));
        assert(chunk@.subrange(0, j as int) =~= chunk@);
        ci += 1;
    }
    assert(chunks@.subrange(0, ci as int) =~= chunks@);
    out
}

/// Parses an HTTP/0.9 request line (`GET /path`) from the chunks received so
/// far. `is_open` tells whether more chunks may follow. Where the `GET /`
/// prefix is there, `path` is replaced by the path bytes read after it.
pub fn parse_h09_request(chunks: &[Bytes], path: &mut String, is_open: bool) -> (r: Result<bool, RequestError>)
    ensures
        r == h09_outcome(flatten(chunks@), is_open),
        has_request_prefix(flatten(chunks@)) ==> final(path)@ == ascii_chars(
            flatten(chunks@).subrange(5, path_end(flatten(chunks@), 5)),
        ),
        !has_request_prefix(flatten(chunks@)) ==> final(path)@ == old(path)@,
{
    let bytes = concat_chunks(chunks);
    let ghost b = bytes@;
    let prefix: [u8; 5] = [71u8, 69u8, 84u8, 32u8, 47u8];
    let mut i: usize = 0;
    while i < 5
        invariant
            i <= 5,
            i <= b.len(),
            b == bytes@,
            b == flatten(chunks@),
            prefix@ == request_prefix(),
            b.subrange(0, i as int) == request_prefix().subrange(0, i as int),
        decreases 5 - i,
    {
        if i >= bytes.len() {
            assert(b.subrange(0, b.len() as int) == request_prefix().subrange(0, b.len() as int));
            if is_open {
                return Ok(false);
            } else {
                return Err(RequestError::InvalidRequest);
            }
        }
        if bytes[i] != prefix[i] {
            assert(b.subrange(0, i + 1)[i as int] != request_prefix().subrange(0, i + 1)[i as int]);
            let ghost n: int = if b.len() < 5 { b.len() as int } else { 5 };
            assert(b.subrange(0, n)[i as int] != request_prefix().subrange(0, n)[i as int]);
            return Err(RequestError::InvalidRequest);
        }
        assert(b.subrange(0, i + 1) =~= b.subrange(0, i as int).push(b[i as int]));
        assert(request_prefix().subrange(0, i + 1) =~= request_prefix().subrange(0, i as int).push(
            request_prefix()[i as int],
        ));
        i += 1;
    }
    assert(request_prefix().subrange(0, 5) =~= request_prefix());

    // reset the copied path in case this isn't the first time a path is being parsed
    string_clear(path);
    proof { lemma_path_end_bounds(b, 5); }
    let mut k: usize = 5;
    while k < bytes.len()
        invariant
            5 <= k <= b.len(),
            b == bytes@,
            b == flatten(chunks@),
            request_prefix().subrange(0, 5) == request_prefix(),
            has_request_prefix(b),
            path_end(b, 5) == path_end(b, k as int),
            forall|j: int| 5 <= j < k ==> is_path_byte(b[j]),
            path@ == ascii_chars(b.subrange(5, k as int)),
        decreases b.len() - k,
    {
        let c = bytes[k];
        if (48 <= c && c <= 57) || (97 <= c && c <= 122) || (65 <= c && c <= 90) || c == 46 || c == 47 || c == 45 {
            string_push(path, c as char);
            assert(ascii_chars(b.subrange(5, k + 1)) =~= ascii_chars(b.subrange(5, k as int)).push(c as char));
            k += 1;
        } else if c == 10 || c == 13 {
            return Ok(true);
        } else {
            return Err(RequestError::InvalidCharacter(c));
        }
    }
    Ok(!is_open)
}

/// A test case of the QUIC interoperability runner.
#[derive(Clone, Copy, Debug, PartialEq, Eq, Structural)]
pub enum Testcase {
    /// The server answers an unknown version with a Version Negotiation packet.
    VersionNegotiation,
    /// A handshake completes, and a few small files are downloaded.
    Handshake,
    /// Flow control and stream multiplexing, over downloads of about 1 MB.
    Transfer,
    /// Only ChaCha20 is offered as a cipher suite.
    ChaCha20,
    /// A key update happens early in the connection (client only).
    KeyUpdate,
    /// The server sends a Retry, and the client uses its token.
    Retry,
    /// A second connection resumes the session of the first (without 0-RTT).
    Resumption,
    /// A second connection sends its requests in 0-RTT.
    ZeroRtt,
    /// Files are downloaded in parallel over HTTP/3.
    Http3,
    /// Several connections, each downloading one file, under high loss.
    Multiconnect,
    /// ECN markings.
    Ecn,
    /// The client migrates the connection actively during a transfer.
    ConnectionMigration,
}

/// All test cases, in the runner's order.
pub open spec fn all_testcases() -> Seq<Testcase> {
    seq![
        Testcase::VersionNegotiation,
        Testcase::Handshake,
        Testcase::Transfer,
        Testcase::ChaCha20,
        Testcase::KeyUpdate,
        Testcase::Retry,
        Testcase::Resumption,
        Testcase::ZeroRtt,
        Testcase::Http3,
        Testcase::Multiconnect,
        Testcase::Ecn,
        Testcase::ConnectionMigration,
    ]
}

/// The names of the test cases of `cases` that `picked` selects.
pub open spec fn picked_names(cases: Seq<Testcase>, picked: Seq<bool>) -> Seq<Seq<char>>
    decreases cases.len(),
{
    if cases.len() == 0 {
        Seq::empty()
    } else {
        let rest = picked_names(cases.drop_last(), picked.drop_last());
        if picked.last() {
            rest.push(cases.last().name())
        } else {
            rest
        }
    }
}

/// A name that no test case has.
#[derive(Clone, Debug)]
pub struct UnsupportedTestcase {
    pub name: String,
}

impl Testcase {
    /// The name the runner knows the test case by.
    pub open spec fn name(self) -> Seq<char> {
        match self {
            Testcase::VersionNegotiation => "versionnegotiation"@,
            Testcase::Handshake => "handshake"@,
            Testcase::Transfer => "transfer"@,
            Testcase::ChaCha20 => "chacha20"@,
            Testcase::KeyUpdate => "keyupdate"@,
            Testcase::Retry => "retry"@,
            Testcase::Resumption => "resumption"@,
            Testcase::ZeroRtt => "zerortt"@,
            Testcase::Http3 => "http3"@,
            Testcase::Multiconnect => "multiconnect"@,
            Testcase::Ecn => "ecn"@,
            Testcase::ConnectionMigration => "connectionmigration"@,
        }
    }

    /// All test cases, in the runner's order.
    pub fn testcases() -> (r: Vec<Testcase>)
        ensures
            r@ == all_testcases(),
    {
        let r = vec![
            Testcase::VersionNegotiation,
            Testcase::Handshake,
            Testcase::Transfer,
            Testcase::ChaCha20,
            Testcase::KeyUpdate,
            Testcase::Retry,
            Testcase::Resumption,
            Testcase::ZeroRtt,
            Testcase::Http3,
            Testcase::Multiconnect,
            Testcase::Ecn,
            Testcase::ConnectionMigration,
        ];
        assert(r@ =~= all_testcases());
        r
    }

    /// The name the runner knows the test case by.
    pub fn as_str(self) -> (r: &'static str)
        ensures
            r@ == self.name(),
    {
        match self {
            Testcase::VersionNegotiation => "versionnegotiation",
            Testcase::Handshake => "handshake",
            Testcase::Transfer => "transfer",
            Testcase::ChaCha20 => "chacha20",
            Testcase::KeyUpdate => "keyupdate",
            Testcase::Retry => "retry",
            Testcase::Resumption => "resumption",
            Testcase::ZeroRtt => "zerortt",
            Testcase::Http3 => "http3",
            Testcase::Multiconnect => "multiconnect",
            Testcase::Ecn => "ecn",
            Testcase::ConnectionMigration => "connectionmigration",
        }
    }

    /// The names of the test cases that `f` accepts, in the runner's order.
    pub fn supported<F: Fn(Testcase) -> bool>(f: F) -> (r: Vec<&'static str>)
        requires
            forall|t: Testcase| f.requires((t,)),
        ensures
            exists|picked: Seq<bool>|
                #![trigger picked_names(all_testcases(), picked)]
                picked.len() == all_testcases().len() && (forall|i: int|
                    0 <= i < picked.len() ==> f.ensures((all_testcases()[i],), #[trigger] picked[i]))
                    && r@.map_values(|s: &str| s@) == picked_names(all_testcases(), picked),
    {
        let cases = Testcase::testcases();
        let mut results: Vec<&'static str> = Vec::new();
        let ghost mut picked: Seq<bool> = Seq::empty();
        let mut i: usize = 0;
        while i < cases.len()
            invariant
                i <= cases@.len(),
                cases@ == all_testcases(),
                forall|t: Testcase| f.requires((t,)),
                picked.len() == i,
                forall|j: int| 0 <= j < i ==> f.ensures((all_testcases()[j],), #[trigger] picked[j]),
                results@.map_values(|s: &str| s@) == picked_names(all_testcases().subrange(0, i as int), picked),
            decreases cases@.len() - i,
        {
            let testcase = cases[i];
            let keep = f(testcase);
            let ghost before = picked;
            proof { picked = picked.push(keep); }
            assert(all_testcases().subrange(0, i + 1).drop_last() =~= all_testcases().subrange(0, i as int));
            assert(picked.drop_last() =~= before);
            if keep {
                let name = testcase.as_str();
                results.push(name);
                assert(results@.map_values(|s: &str| s@) =~= picked_names(all_testcases().subrange(0, i as int), before).push(name@));
            }
            i += 1;
        }
        assert(all_testcases().subrange(0, i as int) =~= all_testcases());
        results
    }

    /// The test case with the given name, or an error that holds the name.
    pub fn parse(s: &str) -> (r: Result<Testcase, UnsupportedTestcase>)
        ensures
            r.is_ok() <==> exists|t: Testcase| t.name() == s@,
            r.is_ok() ==> r.unwrap().name() == s@,
            r.is_err() ==> r.unwrap_err().name@ == s@,
    {
        let cases = Testcase::testcases();
        let mut i: usize = 0;
        while i < cases.len()
            invariant
                i <= cases@.len(),
                cases@ == all_testcases(),
                forall|j: int| 0 <= j < i ==> all_testcases()[j].name() != s@,
            decreases cases@.len() - i,
        {
            if str_eq(cases[i].as_str(), s) {
                return Ok(cases[i]);
            }
            i += 1;
        }
        assert forall|t: Testcase| t.name() != s@ by {
            assert(all_testcases().contains(t));
        }
        Err(UnsupportedTestcase { name: s.to_owned() })
    }
}

impl core::str::FromStr for Testcase {
    type Err = UnsupportedTestcase;

    fn from_str(s: &str) -> Result<Testcase, UnsupportedTestcase> {
        Testcase::parse(s)
    }
}

} // verus!
