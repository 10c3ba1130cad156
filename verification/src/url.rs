use vstd::prelude::*;

use crate::error::URLError;

verus! {

use vstd::slice::{slice_index_get, slice_subrange, slice_to_vec};
use vstd::string::StringSliceAdditionalSpecFns;

/// A parsed GROQ query: the filter between `*[` and `]`, and the
/// projection that follows it.
pub struct Query {
    pub condition: String,
    pub body: String,
}

/// A request URL: an immutable base plus an optional, percent-encoded
/// query string. `serialized` always holds the full text.
pub struct Url {
    pub base: String,
    pub serialized: String,
}

/// Relies on std's `String::push`: appends exactly one character.
#[verifier::external_body]
fn push_char(s: &mut String, c: char)
    ensures
        final(s)@ == old(s)@.push(c),
{
    s.push(c);
}

/// Bytes that must be percent-encoded in a query string: controls, space,
/// `"`, `#`, `'`, `<`, `>`, delete, and everything beyond ASCII.
pub open spec fn spec_query_escaped(b: u8) -> bool {
    b <= 0x20 || b == 0x22 || b == 0x23 || b == 0x27 || b == 0x3c || b == 0x3e || b >= 0x7f
}

/// The digit characters `0`..`9`, `A`..`F` for a value below sixteen.
pub open spec fn spec_hex_digit(v: u8) -> char {
    if v < 10 {
        (0x30 + v) as char
    } else {
        (0x37 + v) as char
    }
}

/// What one byte contributes to a percent-encoded query: itself, or a
/// `%`-escape of its two hexadecimal digits.
pub open spec fn spec_escape_byte(b: u8) -> Seq<char> {
    if spec_query_escaped(b) {
        seq!['%', spec_hex_digit(b / 16), spec_hex_digit(b % 16)]
    } else {
        seq![b as char]
    }
}

/// The percent-encoding of a whole query, byte for byte.
pub open spec fn spec_encode_query(bs: Seq<u8>) -> Seq<char>
    decreases bs.len(),
{
    if bs.len() == 0 {
        Seq::empty()
    } else {
        spec_encode_query(bs.drop_last()) + spec_escape_byte(bs.last())
    }
}

fn hex_digit(v: u8) -> (c: char)
    requires
        v < 16,
    ensures
        c == spec_hex_digit(v),
{
    if v < 10 {
        (0x30 + v) as char
    } else {
        (0x37 + v) as char
    }
}

/// Percent-encodes a query, byte for byte.
fn encode_query_bytes(bs: &[u8]) -> (r: String)
    ensures
        r@ == spec_encode_query(bs@),
{
    let mut out = String::new();
    let mut i: usize = 0;
    while i < bs.len()
        invariant
            i <= bs@.len(),
            out@ == spec_encode_query(bs@.take(i as int)),
        decreases bs@.len() - i,
    {
        let b = *slice_index_get(bs, i);
        if b <= 0x20 || b == 0x22 || b == 0x23 || b == 0x27 || b == 0x3c || b == 0x3e || b
            >= 0x7f {
            push_char(&mut out, '%');
            push_char(&mut out, hex_digit(b / 16));
            push_char(&mut out, hex_digit(b % 16));
        } else {
            push_char(&mut out, b as char);
        }
        proof {
            assert(bs@.take(i + 1).drop_last() =~= bs@.take(i as int));
            assert(bs@.take(i + 1).last() == bs@[i as int]);
            assert(out@ =~= spec_encode_query(bs@.take(i + 1)));
        }
        i += 1;
    }
    proof {
        assert(bs@.take(bs@.len() as int) =~= bs@);
    }
    out
}

/// The position of the first occurrence of the two-byte pattern, if any.
pub open spec fn spec_find2(bs: Seq<u8>, b0: u8, b1: u8) -> Option<int>
    decreases bs.len(),
{
    if bs.len() < 2 {
        None
    } else if bs[0] == b0 && bs[1] == b1 {
        Some(0)
    } else {
        match spec_find2(bs.skip(1), b0, b1) {
            Some(i) => Some(i + 1),
            None => None,
        }
    }
}

/// The position of the first occurrence of one byte, if any.
pub open spec fn spec_find1(bs: Seq<u8>, b0: u8) -> Option<int>
    decreases bs.len(),
{
    if bs.len() == 0 {
        None
    } else if bs[0] == b0 {
        Some(0)
    } else {
        match spec_find1(bs.skip(1), b0) {
            Some(i) => Some(i + 1),
            None => None,
        }
    }
}

/// The found position points at the pattern and lies inside the input.
proof fn lemma_find2_in_range(bs: Seq<u8>, b0: u8, b1: u8)
    ensures
        match spec_find2(bs, b0, b1) {
            Some(i) => 0 <= i && i + 2 <= bs.len() && bs[i] == b0 && bs[i + 1] == b1,
            None => true,
        },
    decreases bs.len(),
{
    if bs.len() >= 2 && !(bs[0] == b0 && bs[1] == b1) {
        lemma_find2_in_range(bs.skip(1), b0, b1);
    }
}

/// The found position points at the byte and lies inside the input.
proof fn lemma_find1_in_range(bs: Seq<u8>, b0: u8)
    ensures
        match spec_find1(bs, b0) {
            Some(i) => 0 <= i && i < bs.len() && bs[i] == b0,
            None => true,
        },
    decreases bs.len(),
{
    if bs.len() > 0 && bs[0] != b0 {
        lemma_find1_in_range(bs.skip(1), b0);
    }
}

fn find2(bs: &[u8], b0: u8, b1: u8) -> (r: Option<usize>)
    ensures
        match r {
            Some(i) => spec_find2(bs@, b0, b1) == Some(i as int),
            None => spec_find2(bs@, b0, b1) is None,
        },
{
    let n = bs.len();
    if n < 2 {
        return None;
    }
    let mut i: usize = 0;
    proof {
        assert(bs@.skip(0) =~= bs@);
    }
    while i < n - 1
        invariant
            n == bs@.len(),
            2 <= n,
            i <= n,
            match spec_find2(bs@.skip(i as int), b0, b1) {
                Some(k) => spec_find2(bs@, b0, b1) == Some(k + i),
                None => spec_find2(bs@, b0, b1) is None,
            },
        decreases n - i,
    {
        let x = *slice_index_get(bs, i);
        let y = *slice_index_get(bs, i + 1);
        proof {
            assert(bs@.skip(i as int)[0] == bs@[i as int]);
            assert(bs@.skip(i as int)[1] == bs@[i + 1]);
        }
        if x == b0 && y == b1 {
            return Some(i);
        }
        proof {
            assert(bs@.skip(i as int).skip(1) =~= bs@.skip(i + 1));
        }
        i += 1;
    }
    proof {
        assert(bs@.skip(i as int).len() < 2);
    }
    None
}

fn find1(bs: &[u8], b0: u8) -> (r: Option<usize>)
    ensures
        match r {
            Some(i) => spec_find1(bs@, b0) == Some(i as int),
            None => spec_find1(bs@, b0) is None,
        },
{
    let n = bs.len();
    let mut i: usize = 0;
    proof {
        assert(bs@.skip(0) =~= bs@);
    }
    while i < n
        invariant
            n == bs@.len(),
            i <= n,
            match spec_find1(bs@.skip(i as int), b0) {
                Some(k) => spec_find1(bs@, b0) == Some(k + i),
                None => spec_find1(bs@, b0) is None,
            },
        decreases n - i,
    {
        let x = *slice_index_get(bs, i);
        proof {
            assert(bs@.skip(i as int)[0] == bs@[i as int]);
        }
        if x == b0 {
            return Some(i);
        }
        proof {
            assert(bs@.skip(i as int).skip(1) =~= bs@.skip(i + 1));
        }
        i += 1;
    }
    None
}

/// Bytes the query normalizer strips from the projection: ASCII
/// whitespace.
pub open spec fn spec_ascii_ws(b: u8) -> bool {
    b == 0x20 || b == 0x09 || b == 0x0a || b == 0x0b || b == 0x0c || b == 0x0d
}

/// The projection with all ASCII whitespace removed.
pub open spec fn spec_strip_ws(bs: Seq<u8>) -> Seq<u8>
    decreases bs.len(),
{
    if bs.len() == 0 {
        Seq::empty()
    } else if spec_ascii_ws(bs.last()) {
        spec_strip_ws(bs.drop_last())
    } else {
        spec_strip_ws(bs.drop_last()).push(bs.last())
    }
}

fn strip_ws(bs: &[u8]) -> (r: Vec<u8>)
    ensures
        r@ == spec_strip_ws(bs@),
{
    let mut out: Vec<u8> = Vec::new();
    let mut i: usize = 0;
    while i < bs.len()
        invariant
            i <= bs@.len(),
            out@ == spec_strip_ws(bs@.take(i as int)),
        decreases bs@.len() - i,
    {
        let b = *slice_index_get(bs, i);
        if !(b == 0x20 || b == 0x09 || b == 0x0a || b == 0x0b || b == 0x0c || b == 0x0d) {
            out.push(b);
        }
        proof {
            assert(bs@.take(i + 1).drop_last() =~= bs@.take(i as int));
            assert(bs@.take(i + 1).last() == bs@[i as int]);
        }
        i += 1;
    }
    proof {
        assert(bs@.take(bs@.len() as int) =~= bs@);
    }
    out
}

/// The bytes of `*[`.
pub open spec fn spec_cond_open() -> Seq<u8> {
    seq![0x2au8, 0x5bu8]
}

/// The byte of `]`.
pub open spec fn spec_cond_close() -> Seq<u8> {
    seq![0x5du8]
}

/// The bytes of `query=`.
pub open spec fn spec_query_prefix() -> Seq<u8> {
    seq![0x71u8, 0x75u8, 0x65u8, 0x72u8, 0x79u8, 0x3du8]
}

/// The canonical form of a GROQ query, or nothing when the query is to be
/// dropped: queries shorter than three bytes, queries where the condition
/// span `*[` .. `]` cannot be cut out, and queries with an empty condition
/// all clear the URL's query string. Otherwise the result is `*[`, the
/// condition verbatim, `]`, and the projection with all ASCII whitespace
/// removed.
pub open spec fn spec_groq_query(bs: Seq<u8>) -> Option<Seq<u8>> {
    if bs.len() < 3 {
        None
    } else {
        let cond_start = (match spec_find2(bs, 0x2a, 0x5b) {
            Some(i) => i,
            None => 0,
        }) + 2;
        let cond_end = match spec_find1(bs, 0x5d) {
            Some(i) => i,
            None => 0,
        };
        if cond_start > cond_end {
            None
        } else if cond_end == cond_start {
            None
        } else {
            Some(
                spec_cond_open() + bs.subrange(cond_start, cond_end) + spec_cond_close()
                    + spec_strip_ws(bs.skip(cond_end + 1)),
            )
        }
    }
}

/// Cuts the condition and projection out of a raw GROQ query and rebuilds
/// its canonical form, or reports that the query is to be dropped.
fn normalize_query(bs: &[u8]) -> (r: Option<Vec<u8>>)
    ensures
        match r {
            Some(v) => spec_groq_query(bs@) == Some(v@),
            None => spec_groq_query(bs@) is None,
        },
{
    if bs.len() < 3 {
        return None;
    }
    let cond_start = match find2(bs, 0x2a, 0x5b) {
        Some(i) => {
            proof {
                lemma_find2_in_range(bs@, 0x2a, 0x5b);
            }
            i + 2
        },
        None => 2,
    };
    let cond_end = match find1(bs, 0x5d) {
        Some(i) => {
            proof {
                lemma_find1_in_range(bs@, 0x5d);
            }
            i
        },
        None => 0,
    };
    if cond_start > cond_end {
        return None;
    }
    if cond_end == cond_start {
        return None;
    }
    let mut out: Vec<u8> = Vec::new();
    out.push(0x2a);
    out.push(0x5b);
    proof {
        assert(out@ =~= spec_cond_open());
    }
    let condition = slice_subrange(bs, cond_start, cond_end);
    let mut cond_vec = slice_to_vec(condition);
    out.append(&mut cond_vec);
    out.push(0x5d);
    let projection = slice_subrange(bs, cond_end + 1, bs.len());
    let mut body = strip_ws(projection);
    out.append(&mut body);
    proof {
        assert(out@ =~= spec_cond_open() + bs@.subrange(cond_start as int, cond_end as int)
            + spec_cond_close() + spec_strip_ws(bs@.skip(cond_end + 1)));
    }
    Some(out)
}

impl Url {
    /// Replaces or clears the query part. A query is percent-encoded byte
    /// for byte; the base never changes.
    pub fn set_query(&mut self, query: Option<&Vec<u8>>)
        ensures
            final(self).base == old(self).base,
            match query {
                Some(q) => final(self).serialized@ == old(self).base@ + "?"@ + spec_encode_query(
                    q@,
                ),
                None => final(self).serialized@ == old(self).base@,
            },
    {
        match query {
            None => {
                self.serialized = self.base.clone();
            },
            Some(q) => {
                let mut s = self.base.clone();
                s.append("?");
                let encoded = encode_query_bytes(q.as_slice());
                s.append(encoded.as_str());
                self.serialized = s;
            },
        }
    }

    /// The full text of the URL.
    pub fn as_str(&self) -> (r: &str)
        ensures
            r@ == self.serialized@,
    {
        self.serialized.as_str()
    }
}

/// Builder for the content API's query endpoint URL.
pub struct SanityURL {
    pub project_id: String,
    pub host: String,
    pub api_version: String,
    pub dataset: String,
    pub query: String,
}

/// Characters accepted in the authority of the built URL: ASCII letters,
/// digits, `-`, `.` and `_`.
pub open spec fn spec_host_char(c: char) -> bool {
    (0x61 <= c as u32 <= 0x7a) || (0x41 <= c as u32 <= 0x5a) || (0x30 <= c as u32 <= 0x39) || c
        as u32 == 0x2d || c as u32 == 0x2e || c as u32 == 0x5f
}

/// Characters accepted in the path segments of the built URL: the
/// authority characters plus `~`.
pub open spec fn spec_path_char(c: char) -> bool {
    spec_host_char(c) || c as u32 == 0x7e
}

/// Every character of the run is an authority character.
pub open spec fn spec_host_chars_ok(s: Seq<char>) -> bool
    decreases s.len(),
{
    if s.len() == 0 {
        true
    } else {
        spec_host_char(s[0]) && spec_host_chars_ok(s.skip(1))
    }
}

/// Every character of the run is a path character.
pub open spec fn spec_path_chars_ok(s: Seq<char>) -> bool
    decreases s.len(),
{
    if s.len() == 0 {
        true
    } else {
        spec_path_char(s[0]) && spec_path_chars_ok(s.skip(1))
    }
}

/// A non-empty run of authority characters.
pub open spec fn spec_wf_host_part(s: Seq<char>) -> bool {
    s.len() > 0 && spec_host_chars_ok(s)
}

/// A possibly empty run of path characters.
pub open spec fn spec_wf_path_part(s: Seq<char>) -> bool {
    spec_path_chars_ok(s)
}

/// The parts form a well-formed endpoint URL: project id and host name
/// are non-empty authority text, version and dataset are path text.
pub open spec fn spec_wf_url_parts(u: SanityURL) -> bool {
    spec_wf_host_part(u.project_id@) && spec_wf_host_part(u.host@) && spec_wf_path_part(
        u.api_version@,
    ) && spec_wf_path_part(u.dataset@)
}

/// The base URL text built from four parts.
pub open spec fn spec_base_url_parts(
    project_id: Seq<char>,
    host: Seq<char>,
    api_version: Seq<char>,
    dataset: Seq<char>,
) -> Seq<char> {
    "https://"@ + project_id + "."@ + host + "/"@ + api_version + "/data/query/"@ + dataset
}

/// The base URL text a builder value yields.
pub open spec fn spec_base_url(u: SanityURL) -> Seq<char> {
    spec_base_url_parts(u.project_id@, u.host@, u.api_version@, u.dataset@)
}

/// The builder's own constants are well-formed URL parts: the two API
/// host names and the default API version.
pub proof fn lemma_standard_parts_wf()
    ensures
        spec_wf_host_part("api.sanity.io"@),
        spec_wf_host_part("apicdn.sanity.io"@),
        spec_wf_path_part("v2022-03-07"@),
{
    reveal_strlit("api.sanity.io");
    reveal_strlit("apicdn.sanity.io");
    reveal_strlit("v2022-03-07");
    reveal_with_fuel(spec_host_chars_ok, 18);
    reveal_with_fuel(spec_path_chars_ok, 13);
    assert(spec_wf_host_part("api.sanity.io"@));
    assert(spec_wf_host_part("apicdn.sanity.io"@));
    assert(spec_wf_path_part("v2022-03-07"@));
}

fn wf_host_part(s: &String) -> (r: bool)
    ensures
        r == spec_wf_host_part(s@),
{
    let n = s.as_str().unicode_len();
    if n == 0 {
        return false;
    }
    let mut i: usize = 0;
    proof {
        assert(s@.skip(0) =~= s@);
    }
    while i < n
        invariant
            n == s@.len(),
            i <= n,
            spec_host_chars_ok(s@) <==> spec_host_chars_ok(s@.skip(i as int)),
        decreases n - i,
    {
        let u = s.as_str().get_char(i) as u32;
        proof {
            assert(s@.skip(i as int)[0] == s@[i as int]);
            assert(s@.skip(i as int).skip(1) =~= s@.skip(i + 1));
        }
        if !((0x61 <= u && u <= 0x7a) || (0x41 <= u && u <= 0x5a) || (0x30 <= u && u <= 0x39) || u
            == 0x2d || u == 0x2e || u == 0x5f) {
            return false;
        }
        i += 1;
    }
    true
}

fn wf_path_part(s: &String) -> (r: bool)
    ensures
        r == spec_wf_path_part(s@),
{
    let n = s.as_str().unicode_len();
    let mut i: usize = 0;
    proof {
        assert(s@.skip(0) =~= s@);
    }
    while i < n
        invariant
            n == s@.len(),
            i <= n,
            spec_path_chars_ok(s@) <==> spec_path_chars_ok(s@.skip(i as int)),
        decreases n - i,
    {
        let u = s.as_str().get_char(i) as u32;
        proof {
            assert(s@.skip(i as int)[0] == s@[i as int]);
            assert(s@.skip(i as int).skip(1) =~= s@.skip(i + 1));
        }
        if !((0x61 <= u && u <= 0x7a) || (0x41 <= u && u <= 0x5a) || (0x30 <= u && u <= 0x39) || u
            == 0x2d || u == 0x2e || u == 0x5f || u == 0x7e) {
            return false;
        }
        i += 1;
    }
    true
}

impl SanityURL {
    /// A builder with the API defaults: empty project id, production
    /// dataset, and the stable API host and version.
    pub fn new() -> (r: SanityURL)
        ensures
            r.project_id@ == Seq::<char>::empty(),
            r.host@ == "api.sanity.io"@,
            r.api_version@ == "v2022-03-07"@,
            r.dataset@ == "production"@,
            r.query@ == Seq::<char>::empty(),
    {
        SanityURL {
            project_id: String::new(),
            host: "api.sanity.io".to_owned(),
            api_version: "v2022-03-07".to_owned(),
            dataset: "production".to_owned(),
            query: String::new(),
        }
    }

    /// Sets the API host name.
    pub fn host(&mut self, host: String) -> (r: &mut SanityURL)
        ensures
            *r == (SanityURL { host: host, ..*old(self) }),
            *final(self) == *final(r),
    {
        self.host = host;
        self
    }

    /// Sets the API version segment.
    pub fn api_version(&mut self, api_version: &String) -> (r: &mut SanityURL)
        ensures
            (*r).api_version@ == api_version@,
            *r == (SanityURL { api_version: (*r).api_version, ..*old(self) }),
            *final(self) == *final(r),
    {
        self.api_version = api_version.clone();
        self
    }

    /// Sets the project id that prefixes the host name.
    pub fn project_id(&mut self, project_id: &String) -> (r: &mut SanityURL)
        ensures
            (*r).project_id@ == project_id@,
            *r == (SanityURL { project_id: (*r).project_id, ..*old(self) }),
            *final(self) == *final(r),
    {
        self.project_id = project_id.clone();
        self
    }

    /// Chooses between the CDN host and the live API host; overrides any
    /// host set before.
    pub fn use_cdn(&mut self, use_cdn: bool) -> (r: &mut SanityURL)
        ensures
            (*r).host@ == if use_cdn {
                "apicdn.sanity.io"@
            } else {
                "api.sanity.io"@
            },
            *r == (SanityURL { host: (*r).host, ..*old(self) }),
            *final(self) == *final(r),
    {
        self.host = if use_cdn {
            "apicdn.sanity.io".to_owned()
        } else {
            "api.sanity.io".to_owned()
        };
        self
    }

    /// Sets the dataset segment.
    pub fn dataset(&mut self, dataset: &String) -> (r: &mut SanityURL)
        ensures
            (*r).dataset@ == dataset@,
            *r == (SanityURL { dataset: (*r).dataset, ..*old(self) }),
            *final(self) == *final(r),
    {
        self.dataset = dataset.clone();
        self
    }

    /// Builds the endpoint URL from the parts. Succeeds exactly when the
    /// parts are well formed; the URL text is then
    /// `https://` project `.` host `/` version `/data/query/` dataset.
    pub fn build(&mut self) -> (r: Result<Url, URLError>)
        ensures
            *final(self) == *old(self),
            r is Ok <==> spec_wf_url_parts(*old(self)),
            r is Ok ==> r->Ok_0.base@ == spec_base_url(*old(self)) && r->Ok_0.serialized@
                == spec_base_url(*old(self)),
            r is Err ==> r->Err_0 is InvalidURL,
    {
        if !(wf_host_part(&self.project_id) && wf_host_part(&self.host) && wf_path_part(
            &self.api_version,
        ) && wf_path_part(&self.dataset)) {
            return Err(URLError::InvalidURL("URL parts hold characters outside the allowed sets".to_owned()));
        }
        let mut base = String::new();
        base.append("https://");
        base.append(self.project_id.as_str());
        base.append(".");
        base.append(self.host.as_str());
        base.append("/");
        base.append(self.api_version.as_str());
        base.append("/data/query/");
        base.append(self.dataset.as_str());
        proof {
            assert(base@ =~= spec_base_url(*old(self)));
        }
        let serialized = base.clone();
        Ok(Url { base, serialized })
    }

    /// Normalizes a raw GROQ query and installs it on the URL,
    /// percent-encoded behind `query=`; a query that cannot be normalized
    /// clears the URL's query string instead.
    pub fn query(url: &mut Url, query: &str)
        ensures
            final(url).base == old(url).base,
            match spec_groq_query(query.spec_bytes()) {
                Some(nq) => final(url).serialized@ == old(url).base@ + "?"@ + spec_encode_query(
                    spec_query_prefix() + nq,
                ),
                None => final(url).serialized@ == old(url).base@,
            },
    {
        let bs = query.as_bytes();
        match normalize_query(bs) {
            None => {
                url.set_query(None);
            },
            Some(mut normalized) => {
                let mut full: Vec<u8> = Vec::new();
                full.push(0x71);
                full.push(0x75);
                full.push(0x65);
                full.push(0x72);
                full.push(0x79);
                full.push(0x3d);
                proof {
                    assert(full@ =~= spec_query_prefix());
                }
                full.append(&mut normalized);
                url.set_query(Some(&full));
            },
        }
    }
}

} // verus!
