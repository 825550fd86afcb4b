//! EPSG definition stores: looking a definition up by its EPSG code.
//!
//! Two layouts are read. A WKT2 store is gzip-compressed text with one
//! definition per line, `code<TAB>definition`. A chunked store holds many
//! small gzip streams behind a sorted index, so that one lookup decompresses
//! one chunk. Its layout (all integers little-endian):
//!
//! ```text
//! header        u32 chunk_count, u32 entry_count
//! chunk table   chunk_count x (u32 offset into the data section, u32 length)
//! entry index   entry_count x (i32 code, u32 chunk, u32 offset, u32 length),
//!               sorted by code; offset and length are byte positions in the
//!               decompressed chunk
//! data section  the gzip streams, one per chunk
//! ```
use vstd::prelude::*;
use crate::error::ParseError;
use crate::decimal::{capped, digit_of, lemma_capped_step, nat_of};
use crate::text::{chars_of, is_digit, string_of};

verus! {

/// What flate2's `GzDecoder` yields for a gzip stream: the decompressed
/// bytes, or `None` where it reports an error.
pub uninterp spec fn gunzip_result(data: Seq<u8>) -> Option<Seq<u8>>;

/// Decompress one gzip stream with flate2's `GzDecoder`, reading it to its end.
#[verifier::external_body]
fn gunzip(data: &[u8]) -> (r: Option<Vec<u8>>)
    ensures
        match gunzip_result(data@) {
            Some(b) => r matches Some(v) && v@ == b,
            None => r is None,
        },
{
    let mut decoder = flate2::read::GzDecoder::new(data);
    let mut out: Vec<u8> = Vec::new();
    match std::io::Read::read_to_end(&mut decoder, &mut out) {
        Ok(_) => Some(out),
        Err(_) => None,
    }
}

/// `String::from_utf8`: the text the bytes encode when they are valid UTF-8.
#[verifier::external_body]
fn text_of_utf8(v: Vec<u8>) -> (r: Option<String>)
    ensures
        match r {
            Some(s) => vstd::utf8::valid_utf8(v@) && s@ == vstd::utf8::decode_utf8(v@),
            None => !vstd::utf8::valid_utf8(v@),
        },
{
    String::from_utf8(v).ok()
}

/// The text of UTF-8 bytes, when they are valid UTF-8.
pub open spec fn utf8_text(b: Seq<u8>) -> Option<Seq<char>> {
    if vstd::utf8::valid_utf8(b) {
        Some(vstd::utf8::decode_utf8(b))
    } else {
        None
    }
}

/// The little-endian `u32` at `o`.
pub open spec fn le_u32(d: Seq<u8>, o: int) -> int {
    d[o] + 256 * d[o + 1] + 65536 * d[o + 2] + 16777216 * d[o + 3]
}

/// The little-endian `i32` at `o`.
pub open spec fn le_i32(d: Seq<u8>, o: int) -> int {
    let v = le_u32(d, o);
    if v >= 0x8000_0000 {
        v - 0x1_0000_0000
    } else {
        v
    }
}

/// Whether `d` holds a header and the chunk table and entry index it announces.
pub open spec fn header_fits_v(d: Seq<u8>) -> bool {
    d.len() >= 8 && 8 + 8 * le_u32(d, 0) + 16 * le_u32(d, 4) <= d.len()
}

fn read_u32(d: &Vec<u8>, o: usize) -> (r: u32)
    requires
        o + 4 <= d@.len(),
    ensures
        r == le_u32(d@, o as int),
{
    assert(d@.len() == d.len());
    let b0 = d[o] as u64;
    let b1 = d[o + 1] as u64;
    let b2 = d[o + 2] as u64;
    let b3 = d[o + 3] as u64;
    assert(b0 <= 255 && b1 <= 255 && b2 <= 255 && b3 <= 255);
    let v: u64 = b0 + 256 * b1 + 65536 * b2 + 16777216 * b3;
    v as u32
}

fn read_i32(d: &Vec<u8>, o: usize) -> (r: i32)
    requires
        o + 4 <= d@.len(),
    ensures
        r == le_i32(d@, o as int),
{
    let v = read_u32(d, o);
    if v >= 0x8000_0000 {
        ((v as i64) - 0x1_0000_0000) as i32
    } else {
        v as i32
    }
}

/// Whether `data` holds a whole header, chunk table and entry index, which
/// [`ChunkedStore::new`] needs.
pub fn header_fits(data: &Vec<u8>) -> (r: bool)
    ensures
        r == header_fits_v(data@),
{
    if data.len() < 8 {
        return false;
    }
    let cc = read_u32(data, 0) as u64;
    let ec = read_u32(data, 4) as u64;
    8 + 8 * cc + 16 * ec <= data.len() as u64
}

/// Where the entry index of a store starts.
pub open spec fn index_start_v(d: Seq<u8>) -> int {
    8 + 8 * le_u32(d, 0)
}

/// Where the data section of a store starts.
pub open spec fn data_start_v(d: Seq<u8>) -> int {
    index_start_v(d) + 16 * le_u32(d, 4)
}

/// The code of entry `i` of a store.
pub open spec fn store_code(d: Seq<u8>, i: int) -> int {
    le_i32(d, index_start_v(d) + 16 * i)
}

/// Whether the codes of a store's index strictly increase.
pub open spec fn store_sorted(d: Seq<u8>) -> bool {
    forall|i: int, j: int| 0 <= i < j < le_u32(d, 4) ==> store_code(d, i) < store_code(d, j)
}

/// The text of entry `i` of a store: its bytes in its decompressed chunk,
/// decoded as UTF-8; `None` where the chunk does not decompress or the
/// entry does not lie within it or is not UTF-8.
pub open spec fn store_text(d: Seq<u8>, i: int) -> Option<Seq<char>> {
    let e = index_start_v(d) + 16 * i;
    let chunk = le_u32(d, e + 4);
    let off = le_u32(d, e + 8);
    let len = le_u32(d, e + 12);
    let t = 8 + 8 * chunk;
    if chunk >= le_u32(d, 0) {
        None
    } else {
        let start = data_start_v(d) + le_u32(d, t);
        let clen = le_u32(d, t + 4);
        if start + clen > d.len() {
            None
        } else {
            match gunzip_result(d.subrange(start, start + clen)) {
                None => None,
                Some(b) => if off + len > b.len() {
                    None
                } else {
                    utf8_text(b.subrange(off, off + len))
                },
            }
        }
    }
}

/// A chunked definition store over its bytes.
pub struct ChunkedStore {
    data: Vec<u8>,
    chunk_count: u32,
    entry_count: u32,
}

/// One entry of the index.
pub struct IndexEntry {
    pub code: i32,
    pub chunk_id: u32,
    pub offset_in_chunk: u32,
    pub len: u32,
}

impl ChunkedStore {
    #[verifier::type_invariant]
    spec fn inv(self) -> bool {
        &&& header_fits_v(self.data@)
        &&& self.chunk_count == le_u32(self.data@, 0)
        &&& self.entry_count == le_u32(self.data@, 4)
    }

    /// The bytes of the store.
    pub closed spec fn bytes(self) -> Seq<u8> {
        self.data@
    }

    /// The number of index entries.
    pub closed spec fn entries(self) -> int {
        self.entry_count as int
    }

    /// Where the entry index starts.
    pub open spec fn index_start(self) -> int {
        index_start_v(self.bytes())
    }

    /// Where the data section starts.
    pub open spec fn data_start(self) -> int {
        data_start_v(self.bytes())
    }

    /// The code of entry `i`.
    pub open spec fn code_at(self, i: int) -> int {
        store_code(self.bytes(), i)
    }

    /// Whether the codes of the index strictly increase.
    pub open spec fn sorted(self) -> bool {
        store_sorted(self.bytes())
    }

    /// The text of entry `i`.
    pub open spec fn entry_text(self, i: int) -> Option<Seq<char>> {
        store_text(self.bytes(), i)
    }

    /// A store over `data`, which must hold the tables its header announces.
    pub fn new(data: Vec<u8>) -> (r: ChunkedStore)
        requires
            header_fits_v(data@),
        ensures
            r.bytes() == data@,
            r.entries() == le_u32(data@, 4),
    {
        let chunk_count = read_u32(&data, 0);
        let entry_count = read_u32(&data, 4);
        ChunkedStore { data, chunk_count, entry_count }
    }

    /// Entry `i` of the index.
    fn read_entry(&self, i: usize) -> (r: IndexEntry)
        requires
            i < self.entries(),
        ensures
            r.code == self.code_at(i as int),
            r.chunk_id == le_u32(self.bytes(), self.index_start() + 16 * i + 4),
            r.offset_in_chunk == le_u32(self.bytes(), self.index_start() + 16 * i + 8),
            r.len == le_u32(self.bytes(), self.index_start() + 16 * i + 12),
    {
        proof {
            use_type_invariant(self);
        }
        let ghost len = self.data@.len();
        assert(self.data.len() == len);
        let base64: u64 = 8 + (self.chunk_count as u64) * 8 + (i as u64) * 16;
        assert(base64 + 16 <= len);
        let base = base64 as usize;
        IndexEntry {
            code: read_i32(&self.data, base),
            chunk_id: read_u32(&self.data, base + 4),
            offset_in_chunk: read_u32(&self.data, base + 8),
            len: read_u32(&self.data, base + 12),
        }
    }

    /// Where chunk `chunk_id` lies in the bytes, and its length.
    fn read_chunk_table(&self, chunk_id: u32) -> (r: (u64, u64))
        requires
            chunk_id < le_u32(self.bytes(), 0),
        ensures
            r.0 == self.data_start() + le_u32(self.bytes(), 8 + 8 * chunk_id),
            r.1 == le_u32(self.bytes(), 8 + 8 * chunk_id + 4),
    {
        proof {
            use_type_invariant(self);
        }
        let ghost len = self.data@.len();
        assert(self.data.len() == len);
        let base64: u64 = 8 + (chunk_id as u64) * 8;
        assert(base64 + 8 <= len);
        let base = base64 as usize;
        let offset = read_u32(&self.data, base) as u64;
        let len = read_u32(&self.data, base + 4) as u64;
        let data_start = 8 + (self.chunk_count as u64) * 8 + (self.entry_count as u64) * 16;
        (data_start + offset, len)
    }

    /// The text of entry `i`.
    fn entry_text_exec(&self, i: usize) -> (r: Option<String>)
        requires
            i < self.entries(),
        ensures
            match self.entry_text(i as int) {
                Some(t) => r matches Some(s) && s@ == t,
                None => r is None,
            },
    {
        proof {
            use_type_invariant(self);
        }
        let e = self.read_entry(i);
        if e.chunk_id >= self.chunk_count {
            return None;
        }
        let (start, clen) = self.read_chunk_table(e.chunk_id);
        if start + clen > self.data.len() as u64 {
            return None;
        }
        let chunk = slice_bytes(&self.data, start as usize, (start + clen) as usize);
        let bytes = match gunzip(chunk.as_slice()) {
            Some(b) => b,
            None => {
                return None;
            },
        };
        let off = e.offset_in_chunk as u64;
        let len = e.len as u64;
        if off + len > bytes.len() as u64 {
            return None;
        }
        let piece = slice_bytes(&bytes, off as usize, (off + len) as usize);
        text_of_utf8(piece)
    }

    /// The definition stored under `code`. When the index is sorted, the
    /// result is the text of the entry with that code, and `None` only when
    /// there is none or its text cannot be read.
    pub fn lookup(&self, code: i32) -> (r: Option<String>)
        ensures
            r matches Some(t) ==> exists|i: int|
                0 <= i < self.entries() && self.code_at(i) == code && self.entry_text(i) == Some(
                    t@,
                ),
            self.sorted() ==> forall|i: int|
                0 <= i < self.entries() && self.code_at(i) == code ==> match self.entry_text(i) {
                    Some(t) => r matches Some(x) && x@ == t,
                    None => r is None,
                },
    {
        proof {
            use_type_invariant(self);
        }
        let n = self.entry_count as usize;
        let mut lo: usize = 0;
        let mut hi: usize = n;
        while lo < hi
            invariant
                lo <= hi <= n,
                n == self.entries(),
                self.entries() == le_u32(self.bytes(), 4),
                self.sorted() ==> forall|j: int| 0 <= j < lo ==> self.code_at(j) < code,
                self.sorted() ==> forall|j: int| hi <= j < n ==> self.code_at(j) > code,
            decreases hi - lo,
        {
            let mid = lo + (hi - lo) / 2;
            let entry = self.read_entry(mid);
            if entry.code < code {
                lo = mid + 1;
            } else if entry.code > code {
                hi = mid;
            } else {
                let r = self.entry_text_exec(mid);
                proof {
                    if self.sorted() {
                        assert forall|i: int|
                            0 <= i < self.entries() && self.code_at(i) == code implies i == mid by {
                            if i < mid {
                                assert(self.code_at(i) < self.code_at(mid as int));
                            } else if i > mid {
                                assert(self.code_at(mid as int) < self.code_at(i));
                            }
                        }
                    }
                }
                return r;
            }
        }
        None
    }
}

/// The bytes `v[a..b]`.
fn slice_bytes(v: &Vec<u8>, a: usize, b: usize) -> (r: Vec<u8>)
    requires
        a <= b <= v@.len(),
    ensures
        r@ == v@.subrange(a as int, b as int),
{
    let mut out: Vec<u8> = Vec::new();
    let mut i = a;
    while i < b
        invariant
            a <= i <= b <= v@.len(),
            out@ == v@.subrange(a as int, i as int),
        decreases b - i,
    {
        out.push(v[i]);
        proof {
            assert(v@.subrange(a as int, i + 1) =~= v@.subrange(a as int, i as int).push(v@[i as int]));
        }
        i = i + 1;
    }
    out
}

/// The PROJJSON definition of an EPSG code from a chunked store.
pub fn epsg_to_projjson(store: &ChunkedStore, code: i32) -> (r: Result<String, ParseError>)
    ensures
        match r {
            Ok(t) => exists|i: int|
                0 <= i < store.entries() && store.code_at(i) == code && store.entry_text(i) == Some(
                    t@,
                ),
            Err(e) => e == ParseError::UnknownEpsgCode { code },
        },
        store.sorted() ==> forall|i: int|
            0 <= i < store.entries() && store.code_at(i) == code ==> match store.entry_text(i) {
                Some(t) => r matches Ok(x) && x@ == t,
                None => r is Err,
            },
{
    match store.lookup(code) {
        Some(t) => Ok(t),
        None => Err(ParseError::UnknownEpsgCode { code }),
    }
}

/// Whether a text starts with a sign.
pub open spec fn has_sign(t: Seq<char>) -> bool {
    t.len() > 0 && (t[0] == '+' || t[0] == '-')
}

/// A text without its leading sign.
pub open spec fn unsigned_part(t: Seq<char>) -> Seq<char> {
    if has_sign(t) {
        t.subrange(1, t.len() as int)
    } else {
        t
    }
}

pub open spec fn all_digits(d: Seq<char>) -> bool {
    forall|i: int| 0 <= i < d.len() ==> is_digit(#[trigger] d[i])
}

/// The value of a decimal integer text, as `i32::from_str` reads it: an
/// optional sign, then one or more ASCII digits, within the range of `i32`.
pub open spec fn i32_text_v(t: Seq<char>) -> Option<i32> {
    let ds = unsigned_part(t);
    let k = if has_sign(t) && t[0] == '-' {
        -(nat_of(ds) as int)
    } else {
        nat_of(ds) as int
    };
    if ds.len() > 0 && all_digits(ds) && i32::MIN <= k <= i32::MAX {
        Some(k as i32)
    } else {
        None
    }
}

/// `i32::from_str` on `s[a..b]`.
#[verifier::loop_isolation(false)]
pub(crate) fn parse_i32(s: &Vec<char>, a: usize, b: usize) -> (r: Option<i32>)
    requires
        a <= b <= s@.len(),
    ensures
        r == i32_text_v(s@.subrange(a as int, b as int)),
{
    let ghost t = s@.subrange(a as int, b as int);
    let signed = a < b && (s[a] == '+' || s[a] == '-');
    let negative = signed && s[a] == '-';
    let start = if signed {
        a + 1
    } else {
        a
    };
    let ghost ds = s@.subrange(start as int, b as int);
    proof {
        assert(t.len() == b - a);
        if a < b {
            assert(t[0] == s@[a as int]);
        }
        if signed {
            assert(ds =~= t.subrange(1, t.len() as int));
        } else {
            assert(ds =~= t);
        }
        assert(signed == has_sign(t));
        assert(negative == (signed && t[0] == '-'));
    }
    if start == b {
        return None;
    }
    let mut acc: u64 = 0;
    let mut i = start;
    assert(ds.take(0) =~= Seq::<char>::empty());
    while i < b
        invariant
            start <= i <= b <= s@.len(),
            ds == s@.subrange(start as int, b as int),
            forall|j: int| 0 <= j < i - start ==> is_digit(#[trigger] ds[j]),
            acc == capped(nat_of(ds.take(i - start))),
        decreases b - i,
    {
        let c = s[i];
        if !('0' <= c && c <= '9') {
            assert(!is_digit(ds[i - start]));
            assert(unsigned_part(t) == ds);
            assert(!all_digits(ds));
            return None;
        }
        proof {
            assert(ds.take(i - start + 1).drop_last() =~= ds.take(i - start));
            assert(ds.take(i - start + 1).last() == c);
            lemma_capped_step(nat_of(ds.take(i - start)), digit_of(c) as nat);
        }
        let d = (c as u32 - '0' as u32) as u64;
        assert(d == digit_of(c));
        let v = acc * 10 + d;
        acc = if v > 0x1_0000_0000 {
            0x1_0000_0000
        } else {
            v
        };
        i = i + 1;
    }
    proof {
        assert(ds.take(b - start) =~= ds);
    }
    if negative {
        if acc > 0x8000_0000 {
            None
        } else {
            Some((-(acc as i64)) as i32)
        }
    } else {
        if acc > 0x7FFF_FFFF {
            None
        } else {
            Some(acc as i32)
        }
    }
}

/// The end of the line starting at `a`: the next `\n`, or the end of the text.
pub open spec fn line_end(s: Seq<char>, a: int) -> int
    decreases s.len() - a,
{
    if 0 <= a < s.len() && s[a] != '\n' {
        line_end(s, a + 1)
    } else {
        a
    }
}

/// The first tab in `t` from `i` on.
pub open spec fn tab_at(t: Seq<char>, i: int) -> Option<int>
    decreases t.len() - i,
{
    if i < 0 || i >= t.len() {
        None
    } else if t[i] == '\t' {
        Some(i)
    } else {
        tab_at(t, i + 1)
    }
}

/// The definition a line holds: `code<TAB>text` with a code that reads as an `i32`.
pub open spec fn line_def(line: Seq<char>) -> Option<(i32, Seq<char>)> {
    match tab_at(line, 0) {
        None => None,
        Some(k) => match i32_text_v(line.subrange(0, k)) {
            None => None,
            Some(c) => Some((c, line.subrange(k + 1, line.len() as int))),
        },
    }
}

/// The definitions of the lines from `a` on (lines end at `\n`, and a `\r`
/// before it is dropped), after those in `acc`.
pub open spec fn defs_from(s: Seq<char>, a: int, acc: Seq<(i32, Seq<char>)>) -> Seq<(i32, Seq<char>)>
    decreases s.len() - a,
{
    if a < 0 || a >= s.len() {
        acc
    } else {
        let e = line_end(s, a);
        let stop = if e < s.len() && e > a && s[e - 1] == '\r' {
            e - 1
        } else {
            e
        };
        let acc2 = match line_def(s.subrange(a, stop)) {
            Some(d) => acc.push(d),
            None => acc,
        };
        proof {
            lemma_line_end(s, a);
        }
        if e < s.len() {
            defs_from(s, e + 1, acc2)
        } else {
            acc2
        }
    }
}

/// The definition last given for `code`: a later line overrides an earlier one.
pub open spec fn last_def(entries: Seq<(i32, Seq<char>)>, code: i32) -> Option<Seq<char>>
    decreases entries.len(),
{
    if entries.len() == 0 {
        None
    } else if entries.last().0 == code {
        Some(entries.last().1)
    } else {
        last_def(entries.drop_last(), code)
    }
}

pub proof fn lemma_line_end(s: Seq<char>, a: int)
    requires
        0 <= a <= s.len(),
    ensures
        a <= line_end(s, a) <= s.len(),
        line_end(s, a) < s.len() ==> s[line_end(s, a)] == '\n',
    decreases s.len() - a,
{
    if a < s.len() && s[a] != '\n' {
        lemma_line_end(s, a + 1);
    }
}

/// The WKT2 definitions of a line-based store.
pub struct Wkt2Definitions {
    entries: Vec<(i32, String)>,
}

impl Wkt2Definitions {
    /// The definitions, in line order.
    pub closed spec fn defs(self) -> Seq<(i32, Seq<char>)> {
        self.entries@.map_values(|e: (i32, String)| (e.0, e.1@))
    }

    /// The definitions of a text, one `code<TAB>definition` per line; lines
    /// of another shape are skipped.
    #[verifier::loop_isolation(false)]
    pub fn from_text(text: &str) -> (r: Wkt2Definitions)
        ensures
            r.defs() == defs_from(text@, 0, Seq::empty()),
    {
        let s = chars_of(text);
        let n = s.len();
        let mut entries: Vec<(i32, String)> = Vec::new();
        let mut a: usize = 0;
        assert(entries@.map_values(|e: (i32, String)| (e.0, e.1@)) =~= Seq::<(i32, Seq<char>)>::empty());
        while a < n
            invariant
                s@ == text@,
                n == s@.len(),
                defs_from(s@, 0, Seq::empty()) == defs_from(
                    s@,
                    a as int,
                    entries@.map_values(|e: (i32, String)| (e.0, e.1@)),
                ),
            decreases n - a,
        {
            proof {
                lemma_line_end(s@, a as int);
            }
            let mut e = a;
            while e < n && s[e] != '\n'
                invariant
                    a <= e <= n,
                    n == s@.len(),
                    line_end(s@, e as int) == line_end(s@, a as int),
                decreases n - e,
            {
                e = e + 1;
            }
            let stop = if e < n && e > a && s[e - 1] == '\r' {
                e - 1
            } else {
                e
            };
            let ghost line = s@.subrange(a as int, stop as int);
            let mut k = a;
            while k < stop && s[k] != '\t'
                invariant
                    a <= k <= stop <= n,
                    n == s@.len(),
                    line == s@.subrange(a as int, stop as int),
                    tab_at(line, 0) == tab_at(line, k - a),
                decreases stop - k,
            {
                k = k + 1;
            }
            let ghost before = entries@.map_values(|e: (i32, String)| (e.0, e.1@));
            if k < stop {
                proof {
                    assert(line.subrange(0, k - a) =~= s@.subrange(a as int, k as int));
                    assert(line.subrange(k - a + 1, line.len() as int) =~= s@.subrange(
                        k + 1,
                        stop as int,
                    ));
                }
                match parse_i32(&s, a, k) {
                    Some(code) => {
                        let def = string_of(s.as_slice(), k + 1, stop);
                        entries.push((code, def));
                        proof {
                            assert(entries@.map_values(|e: (i32, String)| (e.0, e.1@)) =~= before.push(
                                (code, def@),
                            ));
                        }
                    },
                    None => {},
                }
            }
            if e >= n {
                a = n;
            } else {
                a = e + 1;
            }
        }
        Wkt2Definitions { entries }
    }

    /// The definitions of a gzip-compressed text store; `None` when it does
    /// not decompress or is not UTF-8.
    pub fn from_gz(bytes: &Vec<u8>) -> (r: Option<Wkt2Definitions>)
        ensures
            match gunzip_result(bytes@) {
                Some(raw) => match utf8_text(raw) {
                    Some(t) => r matches Some(d) && d.defs() == defs_from(t, 0, Seq::empty()),
                    None => r is None,
                },
                None => r is None,
            },
    {
        let raw = match gunzip(bytes.as_slice()) {
            Some(b) => b,
            None => {
                return None;
            },
        };
        match text_of_utf8(raw) {
            Some(t) => Some(Wkt2Definitions::from_text(t.as_str())),
            None => None,
        }
    }

    /// The definition given for `code` (the last one, when several are).
    pub fn lookup(&self, code: i32) -> (r: Option<String>)
        ensures
            match last_def(self.defs(), code) {
                Some(t) => r matches Some(x) && x@ == t,
                None => r is None,
            },
    {
        let ghost d = self.defs();
        let mut i = self.entries.len();
        assert(d.take(i as int) =~= d);
        while i > 0
            invariant
                i <= self.entries@.len(),
                d == self.defs(),
                last_def(d, code) == last_def(d.take(i as int), code),
            decreases i,
        {
            proof {
                assert(d.take(i as int).drop_last() =~= d.take(i - 1));
                assert(d.take(i as int).last() == (self.entries@[i - 1].0, self.entries@[i - 1].1@));
            }
            if self.entries[i - 1].0 == code {
                return Some(self.entries[i - 1].1.clone());
            }
            i = i - 1;
        }
        None
    }
}

/// The WKT2 definition of an EPSG code.
pub fn epsg_to_wkt2(defs: &Wkt2Definitions, code: i32) -> (r: Result<String, ParseError>)
    ensures
        match last_def(defs.defs(), code) {
            Some(t) => r matches Ok(x) && x@ == t,
            None => r == Err::<String, ParseError>(ParseError::UnknownEpsgCode { code }),
        },
{
    match defs.lookup(code) {
        Some(t) => Ok(t),
        None => Err(ParseError::UnknownEpsgCode { code }),
    }
}

} // verus!
