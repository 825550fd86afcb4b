//! The bytes of a chunked definition store, as [`crate::definitions::ChunkedStore`]
//! reads them: a header, a chunk table, an entry index sorted by code, and
//! one gzip stream per chunk of [`CHUNK_SIZE`] entries, each decompressing
//! to the concatenated texts of its entries.
use vstd::prelude::*;
use crate::definitions::{
    data_start_v, gunzip_result, header_fits_v, index_start_v, le_i32, le_u32, store_code,
    store_sorted, store_text, utf8_text,
};

verus! {

/// Entries per independently compressed chunk.
pub const CHUNK_SIZE: usize = 64;

/// What flate2's `GzEncoder` at `Compression::best()` writes for some bytes.
pub uninterp spec fn gzip_result(data: Seq<u8>) -> Seq<u8>;

/// Compress bytes into one gzip stream with flate2's `GzEncoder` at
/// `Compression::best()`. The contract names the stream and claims that
/// flate2's `GzDecoder` gives the bytes back from it (gzip is lossless).
/// Writing into a `Vec` does not fail.
#[verifier::external_body]
fn gzip(data: &[u8]) -> (r: Vec<u8>)
    ensures
        r@ == gzip_result(data@),
        gunzip_result(r@) == Some(data@),
{
    let mut encoder = flate2::write::GzEncoder::new(Vec::new(), flate2::Compression::best());
    match std::io::Write::write_all(&mut encoder, data) {
        Ok(()) => {},
        Err(_) => {},
    }
    match encoder.finish() {
        Ok(v) => v,
        Err(_) => Vec::new(),
    }
}

/// The entries as codes and UTF-8 bytes.
pub open spec fn entries_v(es: Seq<(i32, String)>) -> Seq<(i32, Seq<u8>)> {
    es.map_values(|e: (i32, String)| (e.0, vstd::utf8::encode_utf8(e.1@)))
}

/// The number of chunks for `n` entries.
pub open spec fn chunks_for(n: int) -> int {
    (n + CHUNK_SIZE - 1) / (CHUNK_SIZE as int)
}

/// The bytes of entries `a..b`, one after the other.
pub open spec fn concat_bytes(es: Seq<(i32, Seq<u8>)>, a: int, b: int) -> Seq<u8>
    decreases b - a,
{
    if b <= a {
        Seq::empty()
    } else {
        concat_bytes(es, a, b - 1) + es[b - 1].1
    }
}

/// The first entry of chunk `k`.
pub open spec fn chunk_start(k: int) -> int {
    k * CHUNK_SIZE
}

/// The entry after the last of chunk `k` of `n`.
pub open spec fn chunk_end(n: int, k: int) -> int {
    if (k + 1) * CHUNK_SIZE < n {
        (k + 1) * CHUNK_SIZE
    } else {
        n
    }
}

/// What chunk `k` decompresses to.
pub open spec fn blob_v(es: Seq<(i32, Seq<u8>)>, k: int) -> Seq<u8> {
    concat_bytes(es, chunk_start(k), chunk_end(es.len() as int, k))
}

/// Where entry `i` starts in its chunk.
pub open spec fn entry_offset(es: Seq<(i32, Seq<u8>)>, i: int) -> int {
    concat_bytes(es, chunk_start(i / (CHUNK_SIZE as int)), i).len() as int
}

/// The gzip stream of chunk `k`.
pub open spec fn gz_v(es: Seq<(i32, Seq<u8>)>, k: int) -> Seq<u8> {
    gzip_result(blob_v(es, k))
}

/// Where chunk `k` starts in the data section.
pub open spec fn data_offset(es: Seq<(i32, Seq<u8>)>, k: int) -> int
    decreases k,
{
    if k <= 0 {
        0
    } else {
        data_offset(es, k - 1) + gz_v(es, k - 1).len()
    }
}

/// Whether every count, offset and length of the store fits in a `u32`.
pub open spec fn fits_u32(es: Seq<(i32, Seq<u8>)>) -> bool {
    let n = es.len() as int;
    &&& n <= u32::MAX
    &&& data_offset(es, chunks_for(n)) <= u32::MAX
    &&& forall|k: int| 0 <= k < chunks_for(n) ==> #[trigger] blob_v(es, k).len() <= u32::MAX
}

/// Where index entry `i` starts in a store of `cc` chunks.
pub open spec fn index_pos(cc: int, i: int) -> int {
    8 + 8 * cc + 16 * i
}

/// The bytes of a store holding the entries: every field of the header,
/// the chunk table and the index, each chunk's stream in the data section,
/// and nothing more.
pub open spec fn store_layout(d: Seq<u8>, es: Seq<(i32, Seq<u8>)>) -> bool {
    let n = es.len() as int;
    let cc = chunks_for(n);
    let ds = 8 + 8 * cc + 16 * n;
    &&& d.len() == ds + data_offset(es, cc)
    &&& le_u32(d, 0) == cc
    &&& le_u32(d, 4) == n
    &&& forall|k: int|
        0 <= k < cc ==> {
            &&& le_u32(d, 8 + 8 * k) == #[trigger] data_offset(es, k)
            &&& le_u32(d, 8 + 8 * k + 4) == gz_v(es, k).len()
            &&& d.subrange(ds + data_offset(es, k), ds + data_offset(es, k) + gz_v(es, k).len())
                == gz_v(es, k)
            &&& gunzip_result(gz_v(es, k)) == Some(blob_v(es, k))
        }
    &&& forall|i: int|
        0 <= i < n ==> {
            &&& le_i32(d, #[trigger] index_pos(cc, i)) == es[i].0
            &&& le_u32(d, index_pos(cc, i) + 4) == i / (CHUNK_SIZE as int)
            &&& le_u32(d, index_pos(cc, i) + 8) == entry_offset(es, i)
            &&& le_u32(d, index_pos(cc, i) + 12) == es[i].1.len()
        }
}

/// Append bytes.
fn append_bytes(out: &mut Vec<u8>, src: &[u8])
    ensures
        final(out)@ == old(out)@ + src@,
{
    let mut i: usize = 0;
    while i < src.len()
        invariant
            i <= src@.len(),
            out@ == old(out)@ + src@.take(i as int),
        decreases src@.len() - i,
    {
        out.push(src[i]);
        assert(src@.take(i + 1) =~= src@.take(i as int).push(src@[i as int]));
        i = i + 1;
    }
    assert(src@.take(src@.len() as int) =~= src@);
}

/// Append `x` as four little-endian bytes.
fn push_u32(out: &mut Vec<u8>, x: u32)
    ensures
        final(out)@.len() == old(out)@.len() + 4,
        final(out)@.subrange(0, old(out)@.len() as int) == old(out)@,
        le_u32(final(out)@, old(out)@.len() as int) == x,
{
    let b0 = (x & 0xff) as u8;
    let b1 = ((x >> 8) & 0xff) as u8;
    let b2 = ((x >> 16) & 0xff) as u8;
    let b3 = ((x >> 24) & 0xff) as u8;
    assert((x & 0xff) + 256 * ((x >> 8) & 0xff) + 65536 * ((x >> 16) & 0xff) + 16777216 * ((x
        >> 24) & 0xff) == x) by (bit_vector);
    assert(x & 0xff <= 0xff && (x >> 8) & 0xff <= 0xff && (x >> 16) & 0xff <= 0xff && (x >> 24)
        & 0xff <= 0xff) by (bit_vector);
    let ghost l = out@.len() as int;
    out.push(b0);
    out.push(b1);
    out.push(b2);
    out.push(b3);
    assert(out@.subrange(0, l) =~= old(out)@);
    assert(out@[l] == b0 && out@[l + 1] == b1 && out@[l + 2] == b2 && out@[l + 3] == b3);
}

/// Append `x` as four little-endian bytes (two's complement).
fn push_i32(out: &mut Vec<u8>, x: i32)
    ensures
        final(out)@.len() == old(out)@.len() + 4,
        final(out)@.subrange(0, old(out)@.len() as int) == old(out)@,
        le_i32(final(out)@, old(out)@.len() as int) == x,
{
    let u: u32 = if x < 0 {
        (x as i64 + 0x1_0000_0000i64) as u32
    } else {
        x as u32
    };
    push_u32(out, u);
}

/// Reading four bytes within a prefix that stays gives the same value.
proof fn lemma_le_prefix(old: Seq<u8>, new: Seq<u8>, o: int)
    requires
        0 <= o,
        o + 4 <= old.len() <= new.len(),
        new.subrange(0, old.len() as int) == old,
    ensures
        le_u32(new, o) == le_u32(old, o),
        le_i32(new, o) == le_i32(old, o),
{
    assert(new[o] == new.subrange(0, old.len() as int)[o]);
    assert(new[o + 1] == new.subrange(0, old.len() as int)[o + 1]);
    assert(new[o + 2] == new.subrange(0, old.len() as int)[o + 2]);
    assert(new[o + 3] == new.subrange(0, old.len() as int)[o + 3]);
}

proof fn lemma_concat_len(es: Seq<(i32, Seq<u8>)>, a: int, b: int, c: int)
    requires
        a <= b <= c,
    ensures
        concat_bytes(es, a, b).len() <= concat_bytes(es, a, c).len(),
    decreases c - b,
{
    if b < c {
        lemma_concat_len(es, a, b, c - 1);
    }
}

/// Entry `i` lies in the concatenation of entries `a..c` at the length of
/// the concatenation of `a..i`.
proof fn lemma_concat_piece(es: Seq<(i32, Seq<u8>)>, a: int, i: int, c: int)
    requires
        a <= i < c,
    ensures
        concat_bytes(es, a, i).len() + es[i].1.len() <= concat_bytes(es, a, c).len(),
        concat_bytes(es, a, c).subrange(
            concat_bytes(es, a, i).len() as int,
            (concat_bytes(es, a, i).len() + es[i].1.len()) as int,
        ) == es[i].1,
    decreases c - i,
{
    if c == i + 1 {
        assert(concat_bytes(es, a, c).subrange(
            concat_bytes(es, a, i).len() as int,
            (concat_bytes(es, a, i).len() + es[i].1.len()) as int,
        ) =~= es[i].1);
    } else {
        lemma_concat_piece(es, a, i, c - 1);
        let p = concat_bytes(es, a, c - 1);
        assert(concat_bytes(es, a, c) == p + es[c - 1].1);
        assert(concat_bytes(es, a, c).subrange(
            concat_bytes(es, a, i).len() as int,
            (concat_bytes(es, a, i).len() + es[i].1.len()) as int,
        ) =~= p.subrange(
            concat_bytes(es, a, i).len() as int,
            (concat_bytes(es, a, i).len() + es[i].1.len()) as int,
        ));
    }
}

proof fn lemma_data_offset_mono(es: Seq<(i32, Seq<u8>)>, j: int, k: int)
    requires
        0 <= j <= k,
    ensures
        data_offset(es, j) <= data_offset(es, k),
    decreases k - j,
{
    if j < k {
        lemma_data_offset_mono(es, j, k - 1);
    }
}

proof fn lemma_chunks_at_most(n: int)
    requires
        0 <= n,
    ensures
        0 <= chunks_for(n) <= n,
{
    assert(0 <= (n + 63) / 64 <= n) by (nonlinear_arith)
        requires
            0 <= n,
    ;
}

proof fn lemma_chunk_bounds(n: int, k: int, j: int)
    requires
        0 <= k < chunks_for(n),
        chunk_start(k) <= j < chunk_end(n, k),
    ensures
        j / (CHUNK_SIZE as int) == k,
        chunk_start(k) < n,
        chunk_end(n, k) <= n,
{
    assert(j / 64 == k) by (nonlinear_arith)
        requires
            k * 64 <= j < (k + 1) * 64,
    ;
    assert(k * 64 < n) by (nonlinear_arith)
        requires
            0 <= k < (n + 63) / 64,
    ;
}

proof fn lemma_chunk_of_entry(n: int, i: int)
    requires
        0 <= i < n,
    ensures
        0 <= i / (CHUNK_SIZE as int) < chunks_for(n),
        chunk_start(i / (CHUNK_SIZE as int)) <= i < chunk_end(n, i / (CHUNK_SIZE as int)),
{
    let k = i / 64;
    assert(0 <= k && k * 64 <= i < k * 64 + 64) by (nonlinear_arith)
        requires
            0 <= i,
            k == i / 64,
    ;
    assert(k < (n + 63) / 64) by (nonlinear_arith)
        requires
            k * 64 <= i < n,
    ;
}

/// Each chunk compressed, and where each entry starts in its chunk; `None`
/// when a chunk's bytes are longer than a `u32` can say.
#[verifier::rlimit(40)]
fn compress_chunks(entries: &Vec<(i32, String)>, cc: usize) -> (r: Option<(Vec<Vec<u8>>, Vec<u64>)>)
    requires
        entries@.len() <= u32::MAX,
        cc == chunks_for(entries@.len() as int),
    ensures
        match r {
            Some((gzs, offsets)) => {
                let es = entries_v(entries@);
                &&& gzs@.len() == cc
                &&& offsets@.len() == entries@.len()
                &&& forall|m: int| 0 <= m < cc ==> (#[trigger] gzs@[m])@ == gz_v(es, m)
                &&& forall|m: int| 0 <= m < cc ==> gunzip_result(gz_v(es, m)) == Some(blob_v(es, m))
                &&& forall|m: int| 0 <= m < cc ==> (#[trigger] blob_v(es, m)).len() <= u32::MAX
                &&& forall|i: int| 0 <= i < offsets@.len() ==> (#[trigger] offsets@[i]) == entry_offset(es, i)
            },
            None => !fits_u32(entries_v(entries@)),
        },
{
    let ghost es = entries_v(entries@);
    let n = entries.len();
    let mut gzs: Vec<Vec<u8>> = Vec::new();
    let mut offsets: Vec<u64> = Vec::new();
    let mut k: usize = 0;
    while k < cc
        invariant
            es == entries_v(entries@),
            n == entries@.len(),
            n <= u32::MAX,
            cc == chunks_for(n as int),
            k <= cc,
            gzs@.len() == k,
            offsets@.len() == if chunk_start(k as int) < n { chunk_start(k as int) } else { n as int },
            forall|m: int| 0 <= m < k ==> (#[trigger] gzs@[m])@ == gz_v(es, m),
            forall|m: int| 0 <= m < k ==> gunzip_result(gz_v(es, m)) == Some(blob_v(es, m)),
            forall|m: int| 0 <= m < k ==> (#[trigger] blob_v(es, m)).len() <= u32::MAX,
            forall|i: int| 0 <= i < offsets@.len() ==> (#[trigger] offsets@[i]) == entry_offset(es, i),
        decreases cc - k,
    {
        let start64: u64 = (k as u64) * 64;
        let end64: u64 = if (k as u64 + 1) * 64 < n as u64 {
            (k as u64 + 1) * 64
        } else {
            n as u64
        };
        let start = start64 as usize;
        let end = end64 as usize;
        proof {
            lemma_chunk_bounds(n as int, k as int, chunk_start(k as int));
        }
        assert(start == chunk_start(k as int) && end == chunk_end(n as int, k as int));
        let mut blob: Vec<u8> = Vec::new();
        let mut j = start;
        assert(offsets@.len() == start);
        while j < end
            invariant
                es == entries_v(entries@),
                n == entries@.len(),
                k < cc,
                cc == chunks_for(n as int),
                start <= j <= end <= n,
                start == chunk_start(k as int),
                end == chunk_end(n as int, k as int),
                blob@ == concat_bytes(es, start as int, j as int),
                offsets@.len() == j,
                forall|i: int| 0 <= i < offsets@.len() ==> (#[trigger] offsets@[i]) == entry_offset(es, i),
            decreases end - j,
        {
            proof {
                lemma_chunk_bounds(n as int, k as int, j as int);
            }
            offsets.push(blob.len() as u64);
            let bytes = entries[j].1.as_str().as_bytes();
            assert(bytes@ == es[j as int].1);
            append_bytes(&mut blob, bytes);
            j = j + 1;
        }
        assert(blob_v(es, k as int) == blob@);
        if blob.len() > 0xffff_ffffusize {
            assert(!fits_u32(es)) by {
                assert(blob_v(es, k as int).len() > u32::MAX);
            }
            return None;
        }
        let gz = gzip(blob.as_slice());
        gzs.push(gz);
        proof {
            if chunk_start(k + 1) < n {
                assert(end == chunk_start(k + 1));
            }
        }
        k = k + 1;
    }
    proof {
        if cc > 0 {
            lemma_chunk_bounds(n as int, cc - 1, chunk_start(cc - 1));
        }
        assert(offsets@.len() == n) by (nonlinear_arith)
            requires
                offsets@.len() == if cc * 64 < n { cc * 64 } else { n as int },
                cc == (n + 63) / 64,
        ;
    }
    Some((gzs, offsets))
}

/// Where each chunk starts in the data section; `None` when the data
/// section is longer than a `u32` can say.
fn data_offsets(gzs: &Vec<Vec<u8>>, Ghost(es): Ghost<Seq<(i32, Seq<u8>)>>) -> (r: Option<Vec<u32>>)
    requires
        forall|q: int| 0 <= q < gzs@.len() ==> (#[trigger] gzs@[q])@ == gz_v(es, q),
    ensures
        match r {
            Some(doffs) => {
                &&& doffs@.len() == gzs@.len()
                &&& data_offset(es, gzs@.len() as int) <= u32::MAX
                &&& forall|q: int| 0 <= q < gzs@.len() ==> (#[trigger] doffs@[q]) == data_offset(es, q)
            },
            None => data_offset(es, gzs@.len() as int) > u32::MAX,
        },
{
    let cc = gzs.len();
    let mut doffs: Vec<u32> = Vec::new();
    let mut total: u64 = 0;
    let mut m: usize = 0;
    while m < cc
        invariant
            cc == gzs@.len(),
            forall|q: int| 0 <= q < cc ==> (#[trigger] gzs@[q])@ == gz_v(es, q),
            m <= cc,
            doffs@.len() == m,
            total == data_offset(es, m as int),
            total <= u32::MAX,
            forall|q: int| 0 <= q < m ==> (#[trigger] doffs@[q]) == data_offset(es, q),
        decreases cc - m,
    {
        let len = gzs[m].len() as u64;
        if len > 0xffff_ffffu64 - total {
            proof {
                lemma_data_offset_mono(es, m + 1, cc as int);
            }
            return None;
        }
        doffs.push(total as u32);
        total = total + len;
        m = m + 1;
    }
    Some(doffs)
}

/// The header and the chunk table.
#[verifier::rlimit(40)]
fn write_table(out: &mut Vec<u8>, n: usize, doffs: &Vec<u32>, gzs: &Vec<Vec<u8>>, Ghost(es): Ghost<Seq<(i32, Seq<u8>)>>)
    requires
        old(out)@.len() == 0,
        n <= u32::MAX,
        n == es.len(),
        gzs@.len() == doffs@.len(),
        doffs@.len() == chunks_for(n as int),
        data_offset(es, gzs@.len() as int) <= u32::MAX,
        forall|q: int| 0 <= q < gzs@.len() ==> (#[trigger] gzs@[q])@ == gz_v(es, q),
        forall|q: int| 0 <= q < gzs@.len() ==> (#[trigger] doffs@[q]) == data_offset(es, q),
    ensures
        final(out)@.len() == 8 + 8 * doffs@.len(),
        le_u32(final(out)@, 0) == doffs@.len(),
        le_u32(final(out)@, 4) == n,
        forall|q: int|
            0 <= q < doffs@.len() ==> le_u32(final(out)@, 8 + 8 * q) == #[trigger] data_offset(es, q)
                && le_u32(final(out)@, 8 + 8 * q + 4) == gz_v(es, q).len(),
{
    let cc = doffs.len();
    proof {
        lemma_chunks_at_most(n as int);
    }
    push_u32(out, cc as u32);
    let ghost h0 = out@;
    push_u32(out, n as u32);
    proof {
        lemma_le_prefix(h0, out@, 0);
    }
    let mut k: usize = 0;
    while k < cc
        invariant
            n <= u32::MAX,
            cc == doffs@.len(),
            gzs@.len() == cc,
            data_offset(es, cc as int) <= u32::MAX,
            forall|q: int| 0 <= q < cc ==> (#[trigger] gzs@[q])@ == gz_v(es, q),
            forall|q: int| 0 <= q < cc ==> (#[trigger] doffs@[q]) == data_offset(es, q),
            k <= cc,
            out@.len() == 8 + 8 * k,
            le_u32(out@, 0) == cc,
            le_u32(out@, 4) == n,
            forall|q: int|
                0 <= q < k ==> le_u32(out@, 8 + 8 * q) == #[trigger] data_offset(es, q) && le_u32(
                    out@,
                    8 + 8 * q + 4,
                ) == gz_v(es, q).len(),
        decreases cc - k,
    {
        let ghost o0 = out@;
        push_u32(out, doffs[k]);
        let ghost o1 = out@;
        assert(gz_v(es, k as int).len() <= u32::MAX) by {
            lemma_data_offset_mono(es, k + 1, cc as int);
        }
        push_u32(out, gzs[k].len() as u32);
        proof {
            assert(out@.subrange(0, o0.len() as int) =~= o0);
            lemma_le_prefix(o1, out@, 8 + 8 * k);
            assert forall|q: int| 0 <= q < k + 1 implies le_u32(out@, 8 + 8 * q) == #[trigger] data_offset(es, q)
                && le_u32(out@, 8 + 8 * q + 4) == gz_v(es, q).len() by {
                if q < k {
                    lemma_le_prefix(o0, out@, 8 + 8 * q);
                    lemma_le_prefix(o0, out@, 8 + 8 * q + 4);
                }
            }
            lemma_le_prefix(o0, out@, 0);
            lemma_le_prefix(o0, out@, 4);
        }
        k = k + 1;
    }
}

/// The entry index.
#[verifier::rlimit(40)]
fn write_index(out: &mut Vec<u8>, entries: &Vec<(i32, String)>, offsets: &Vec<u64>, cc: usize)
    requires
        entries@.len() <= u32::MAX,
        cc == chunks_for(entries@.len() as int),
        old(out)@.len() == 8 + 8 * cc,
        offsets@.len() == entries@.len(),
        forall|q: int| 0 <= q < offsets@.len() ==> (#[trigger] offsets@[q]) == entry_offset(entries_v(entries@), q),
        forall|q: int| 0 <= q < cc ==> (#[trigger] blob_v(entries_v(entries@), q)).len() <= u32::MAX,
    ensures
        final(out)@.len() == 8 + 8 * cc + 16 * entries@.len(),
        final(out)@.subrange(0, old(out)@.len() as int) == old(out)@,
        forall|q: int|
            0 <= q < entries@.len() ==> {
                &&& le_i32(final(out)@, #[trigger] index_pos(cc as int, q)) == entries_v(entries@)[q].0
                &&& le_u32(final(out)@, index_pos(cc as int, q) + 4) == q / (CHUNK_SIZE as int)
                &&& le_u32(final(out)@, index_pos(cc as int, q) + 8) == entry_offset(entries_v(entries@), q)
                &&& le_u32(final(out)@, index_pos(cc as int, q) + 12) == entries_v(entries@)[q].1.len()
            },
{
    let ghost es = entries_v(entries@);
    let ghost table = out@;
    let n = entries.len();
    let mut i: usize = 0;
    while i < n
        invariant
            es == entries_v(entries@),
            n == entries@.len(),
            n <= u32::MAX,
            cc == chunks_for(n as int),
            offsets@.len() == n,
            forall|q: int| 0 <= q < n ==> (#[trigger] offsets@[q]) == entry_offset(es, q),
            forall|q: int| 0 <= q < cc ==> (#[trigger] blob_v(es, q)).len() <= u32::MAX,
            table.len() == 8 + 8 * cc,
            i <= n,
            out@.len() == 8 + 8 * cc + 16 * i,
            out@.subrange(0, table.len() as int) == table,
            forall|q: int|
                0 <= q < i ==> {
                    &&& le_i32(out@, #[trigger] index_pos(cc as int, q)) == es[q].0
                    &&& le_u32(out@, index_pos(cc as int, q) + 4) == q / (CHUNK_SIZE as int)
                    &&& le_u32(out@, index_pos(cc as int, q) + 8) == entry_offset(es, q)
                    &&& le_u32(out@, index_pos(cc as int, q) + 12) == es[q].1.len()
                },
        decreases n - i,
    {
        let ghost o0 = out@;
        let k = i / CHUNK_SIZE;
        proof {
            lemma_chunk_of_entry(n as int, i as int);
            let st = chunk_start(k as int);
            let en = chunk_end(n as int, k as int);
            lemma_concat_piece(es, st, i as int, en);
            assert(blob_v(es, k as int) == concat_bytes(es, st, en));
        }
        let len = entries[i].1.as_str().as_bytes().len();
        assert(len == es[i as int].1.len());
        push_i32(out, entries[i].0);
        let ghost o1 = out@;
        push_u32(out, k as u32);
        let ghost o2 = out@;
        push_u32(out, offsets[i] as u32);
        let ghost o3 = out@;
        push_u32(out, len as u32);
        proof {
            let p = index_pos(cc as int, i as int);
            assert(out@.subrange(0, o0.len() as int) =~= o0);
            assert(out@.subrange(0, o1.len() as int) =~= o1);
            assert(out@.subrange(0, o2.len() as int) =~= o2);
            lemma_le_prefix(o1, out@, p);
            lemma_le_prefix(o2, out@, p + 4);
            lemma_le_prefix(o3, out@, p + 8);
            assert forall|q: int| 0 <= q < i + 1 implies {
                &&& le_i32(out@, #[trigger] index_pos(cc as int, q)) == es[q].0
                &&& le_u32(out@, index_pos(cc as int, q) + 4) == q / (CHUNK_SIZE as int)
                &&& le_u32(out@, index_pos(cc as int, q) + 8) == entry_offset(es, q)
                &&& le_u32(out@, index_pos(cc as int, q) + 12) == es[q].1.len()
            } by {
                if q < i {
                    let pq = index_pos(cc as int, q);
                    lemma_le_prefix(o0, out@, pq);
                    lemma_le_prefix(o0, out@, pq + 4);
                    lemma_le_prefix(o0, out@, pq + 8);
                    lemma_le_prefix(o0, out@, pq + 12);
                }
            }
            assert(out@.subrange(0, table.len() as int) =~= table);
        }
        i = i + 1;
    }
}

/// The data section: the chunks' streams one after the other.
#[verifier::rlimit(40)]
fn write_data(out: &mut Vec<u8>, gzs: &Vec<Vec<u8>>, Ghost(es): Ghost<Seq<(i32, Seq<u8>)>>)
    requires
        forall|q: int| 0 <= q < gzs@.len() ==> (#[trigger] gzs@[q])@ == gz_v(es, q),
    ensures
        final(out)@.len() == old(out)@.len() + data_offset(es, gzs@.len() as int),
        final(out)@.subrange(0, old(out)@.len() as int) == old(out)@,
        forall|q: int|
            0 <= q < gzs@.len() ==> final(out)@.subrange(
                old(out)@.len() + data_offset(es, q),
                old(out)@.len() + data_offset(es, q) + gz_v(es, q).len(),
            ) == #[trigger] gz_v(es, q),
{
    let ghost index = out@;
    let ds = out.len();
    let cc = gzs.len();
    let mut k: usize = 0;
    while k < cc
        invariant
            cc == gzs@.len(),
            forall|q: int| 0 <= q < cc ==> (#[trigger] gzs@[q])@ == gz_v(es, q),
            ds == index.len(),
            k <= cc,
            out@.len() == ds + data_offset(es, k as int),
            out@.subrange(0, ds as int) == index,
            forall|q: int|
                0 <= q < k ==> out@.subrange(
                    ds + data_offset(es, q),
                    ds + data_offset(es, q) + gz_v(es, q).len(),
                ) == #[trigger] gz_v(es, q),
        decreases cc - k,
    {
        let ghost o0 = out@;
        let ghost g = gz_v(es, k as int);
        append_bytes(out, gzs[k].as_slice());
        proof {
            lemma_data_offset_mono(es, 0, k as int);
            assert(out@ == o0 + g);
            assert(data_offset(es, k + 1) == data_offset(es, k as int) + g.len());
            assert(out@.subrange(0, ds as int) =~= o0.subrange(0, ds as int));
            assert(out@.subrange(o0.len() as int, (o0.len() + g.len()) as int) =~= g);
            assert forall|q: int| 0 <= q < k + 1 implies out@.subrange(
                ds + data_offset(es, q),
                ds + data_offset(es, q) + gz_v(es, q).len(),
            ) == #[trigger] gz_v(es, q) by {
                if q < k {
                    lemma_data_offset_mono(es, q + 1, k as int);
                    lemma_data_offset_mono(es, 0, q);
                    assert(data_offset(es, q + 1) == data_offset(es, q) + gz_v(es, q).len());
                    assert(out@.subrange(ds + data_offset(es, q), ds + data_offset(es, q) + gz_v(es, q).len())
                        =~= o0.subrange(ds + data_offset(es, q), ds + data_offset(es, q) + gz_v(es, q).len()));
                }
            }
        }
        k = k + 1;
    }
}

/// The bytes of a store holding the entries, or `None` when a count, an
/// offset or a length would not fit in a `u32`. The entries should be sorted
/// by code for the store's lookup to find them (see
/// [`law_store_reads_back_its_entries`]).
#[verifier::rlimit(50)]
pub fn encode_store(entries: &Vec<(i32, String)>) -> (r: Option<Vec<u8>>)
    ensures
        match r {
            Some(d) => fits_u32(entries_v(entries@)) && store_layout(d@, entries_v(entries@)),
            None => !fits_u32(entries_v(entries@)),
        },
{
    let ghost es = entries_v(entries@);
    let n = entries.len();
    if n > 0xffff_ffffusize {
        return None;
    }
    let cc = ((n as u64 + 63) / 64) as usize;
    let (gzs, offsets) = match compress_chunks(entries, cc) {
        Some(x) => x,
        None => {
            return None;
        },
    };
    let doffs = match data_offsets(&gzs, Ghost(es)) {
        Some(d) => d,
        None => {
            return None;
        },
    };
    let mut out: Vec<u8> = Vec::new();
    write_table(&mut out, n, &doffs, &gzs, Ghost(es));
    let ghost table = out@;
    write_index(&mut out, entries, &offsets, cc);
    let ghost index = out@;
    write_data(&mut out, &gzs, Ghost(es));
    proof {
        let d = out@;
        assert forall|q: int| 0 <= q < cc implies {
            &&& le_u32(d, 8 + 8 * q) == #[trigger] data_offset(es, q)
            &&& le_u32(d, 8 + 8 * q + 4) == gz_v(es, q).len()
        } by {
            lemma_le_prefix(table, index, 8 + 8 * q);
            lemma_le_prefix(table, index, 8 + 8 * q + 4);
            lemma_le_prefix(index, d, 8 + 8 * q);
            lemma_le_prefix(index, d, 8 + 8 * q + 4);
        }
        assert forall|q: int| 0 <= q < n implies {
            &&& le_i32(d, #[trigger] index_pos(cc as int, q)) == es[q].0
            &&& le_u32(d, index_pos(cc as int, q) + 4) == q / (CHUNK_SIZE as int)
            &&& le_u32(d, index_pos(cc as int, q) + 8) == entry_offset(es, q)
            &&& le_u32(d, index_pos(cc as int, q) + 12) == es[q].1.len()
        } by {
            let pq = index_pos(cc as int, q);
            lemma_le_prefix(index, d, pq);
            lemma_le_prefix(index, d, pq + 4);
            lemma_le_prefix(index, d, pq + 8);
            lemma_le_prefix(index, d, pq + 12);
        }
        lemma_le_prefix(table, index, 0);
        lemma_le_prefix(table, index, 4);
        lemma_le_prefix(index, d, 0);
        lemma_le_prefix(index, d, 4);
    }
    Some(out)
}

/// What the store writer writes, the store reads back. In the bytes that
/// [`encode_store`] gives for entries whose codes strictly increase, the
/// header announces every entry, the index is sorted, and entry `i` carries
/// the code and the text of the `i`-th entry; so a store's lookup finds each
/// entry's text under its code.
pub proof fn law_store_reads_back_its_entries(d: Seq<u8>, entries: Seq<(i32, String)>)
    requires
        store_layout(d, entries_v(entries)),
        fits_u32(entries_v(entries)),
        forall|i: int, j: int| 0 <= i < j < entries.len() ==> entries[i].0 < entries[j].0,
    ensures
        header_fits_v(d),
        le_u32(d, 4) == entries.len(),
        store_sorted(d),
        forall|i: int|
            0 <= i < entries.len() ==> store_code(d, i) == entries[i].0 && store_text(d, i) == Some(
                entries[i].1@,
            ),
{
    broadcast use vstd::utf8::encode_utf8_valid_utf8, vstd::utf8::encode_utf8_decode_utf8;

    let es = entries_v(entries);
    let n = es.len() as int;
    let cc = chunks_for(n);
    let ds = 8 + 8 * cc + 16 * n;
    lemma_data_offset_mono(es, 0, cc);
    assert(index_start_v(d) == 8 + 8 * cc);
    assert(data_start_v(d) == ds);
    assert forall|i: int| 0 <= i < n implies store_code(d, i) == entries[i].0 && store_text(d, i)
        == Some(entries[i].1@) by {
        assert(index_pos(cc, i) == index_start_v(d) + 16 * i);
        let k = i / (CHUNK_SIZE as int);
        lemma_chunk_of_entry(n, i);
        lemma_data_offset_mono(es, k + 1, cc);
        lemma_data_offset_mono(es, 0, k);
        let st = chunk_start(k);
        let en = chunk_end(n, k);
        lemma_concat_piece(es, st, i, en);
        let start = ds + data_offset(es, k);
        let clen = gz_v(es, k).len();
        assert(d.subrange(start, start + clen) == gz_v(es, k));
        assert(gunzip_result(d.subrange(start, start + clen)) == Some(blob_v(es, k)));
        assert(es[i].1 == vstd::utf8::encode_utf8(entries[i].1@));
    }
    assert forall|i: int, j: int| 0 <= i < j < le_u32(d, 4) implies store_code(d, i) < store_code(d, j) by {
        assert(index_pos(cc, i) == index_start_v(d) + 16 * i);
        assert(index_pos(cc, j) == index_start_v(d) + 16 * j);
    }
}

} // verus!
