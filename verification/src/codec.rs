//! Wire codec of the kernel-held mount list.
//!
//! The serialized list is a concatenation of entries, each a path as raw
//! bytes, a null terminator, and a four-byte flags word travelling
//! least-significant byte first (the byte order of the platforms the driver
//! serves). A buffer without a null terminator where one is required is
//! malformed; a buffer that ends with fewer than four bytes after a path's
//! terminator is not an error: the incomplete trailer is dropped and the
//! prior entries stand.
use vstd::prelude::*;
use vstd::slice::{slice_subrange, slice_to_vec};
use vstd::utf8::{decode_utf8, valid_utf8};
use crate::KsuError;

verus! {

/// One mount entry as callers see it: the path decoded leniently to text
/// (the kernel does not guarantee valid UTF-8) and the flags word.
#[derive(Debug)]
pub struct MountInfo {
    pub path: String,
    pub flags: u32,
}

/// One mount entry at wire level: the path's raw bytes and the flags word.
#[derive(Debug, PartialEq, Eq)]
pub struct WireEntry {
    pub path: Vec<u8>,
    pub flags: u32,
}

/// The mathematical content of a sequence of wire entries.
pub open spec fn wire_pairs(es: Seq<WireEntry>) -> Seq<(Seq<u8>, u32)> {
    es.map_values(|e: WireEntry| (e.path@, e.flags))
}

/// The four bytes of a flags word, least-significant first.
pub open spec fn le_bytes(v: u32) -> Seq<u8> {
    seq![
        (v & 0xff) as u8,
        ((v >> 8) & 0xff) as u8,
        ((v >> 16) & 0xff) as u8,
        ((v >> 24) & 0xff) as u8,
    ]
}

/// The flags word carried by four bytes, least-significant first.
pub open spec fn le_value(b: Seq<u8>) -> u32
    recommends
        b.len() == 4,
{
    (b[0] as u32) | ((b[1] as u32) << 8) | ((b[2] as u32) << 16) | ((b[3] as u32) << 24)
}

pub proof fn lemma_le_round_trip(v: u32)
    ensures
        le_value(le_bytes(v)) == v,
{
    assert((((v & 0xff) as u8) as u32) | ((((v >> 8) & 0xff) as u8) as u32) << 8 | ((((v >> 16)
        & 0xff) as u8) as u32) << 16 | ((((v >> 24) & 0xff) as u8) as u32) << 24 == v)
        by (bit_vector);
}

/// The index of the first null byte, if any.
pub open spec fn first_zero(s: Seq<u8>) -> Option<int>
    decreases s.len(),
{
    if s.len() == 0 {
        None
    } else if s[0] == 0u8 {
        Some(0int)
    } else {
        match first_zero(s.drop_first()) {
            None => None,
            Some(i) => Some(i + 1),
        }
    }
}

pub proof fn lemma_first_zero(s: Seq<u8>)
    ensures
        match first_zero(s) {
            None => forall|i: int| 0 <= i < s.len() ==> s[i] != 0u8,
            Some(p) => 0 <= p < s.len() && s[p] == 0u8 && (forall|i: int| 0 <= i < p ==> s[i]
                != 0u8),
        },
    decreases s.len(),
{
    if s.len() != 0 && s[0] != 0u8 {
        let d = s.drop_first();
        lemma_first_zero(d);
        assert(forall|i: int| 0 <= i < d.len() ==> d[i] == s[i + 1]);
        match first_zero(d) {
            None => {
                assert forall|i: int| 0 <= i < s.len() implies s[i] != 0u8 by {
                    if i > 0 {
                        assert(d[i - 1] == s[i]);
                    }
                }
            },
            Some(q) => {
                assert(s[q + 1] == d[q]);
                assert forall|i: int| 0 <= i < q + 1 implies s[i] != 0u8 by {
                    if i > 0 {
                        assert(d[i - 1] == s[i]);
                    }
                }
            },
        }
    }
}

pub proof fn lemma_first_zero_at(s: Seq<u8>, p: int)
    requires
        0 <= p < s.len(),
        s[p] == 0u8,
        forall|i: int| 0 <= i < p ==> s[i] != 0u8,
    ensures
        first_zero(s) == Some(p),
    decreases s.len(),
{
    if p > 0 {
        assert(s.drop_first()[p - 1] == s[p]);
        assert(forall|i: int| 0 <= i < p - 1 ==> s.drop_first()[i] == s[i + 1]);
        lemma_first_zero_at(s.drop_first(), p - 1);
    }
}

/// The serialized form of one entry.
pub open spec fn encode_entry(path: Seq<u8>, flags: u32) -> Seq<u8> {
    path + seq![0u8] + le_bytes(flags)
}

/// The serialized form of a whole list: the entries' encodings in order.
pub open spec fn encode_list(entries: Seq<(Seq<u8>, u32)>) -> Seq<u8>
    decreases entries.len(),
{
    if entries.len() == 0 {
        Seq::empty()
    } else {
        encode_entry(entries[0].0, entries[0].1) + encode_list(entries.drop_first())
    }
}

/// A path that can be null-terminated: it holds no null byte.
pub open spec fn null_free(path: Seq<u8>) -> bool {
    forall|i: int| 0 <= i < path.len() ==> path[i] != 0u8
}

/// Every path of the list is free of null bytes.
pub open spec fn all_null_free(entries: Seq<(Seq<u8>, u32)>) -> bool {
    forall|k: int| 0 <= k < entries.len() ==> null_free(#[trigger] entries[k].0)
}

/// The decoded content of a buffer: scan from the front; a missing null
/// terminator is a malformed buffer; a terminator followed by fewer than
/// four bytes ends the scan with the entries read so far.
pub open spec fn decode_list(buf: Seq<u8>) -> Option<Seq<(Seq<u8>, u32)>>
    decreases buf.len(),
    via decode_list_decreases
{
    if buf.len() == 0 {
        Some(Seq::empty())
    } else {
        match first_zero(buf) {
            None => None,
            Some(p) => {
                let rest = buf.skip(p + 1);
                if rest.len() < 4 {
                    Some(Seq::empty())
                } else {
                    match decode_list(rest.skip(4)) {
                        None => None,
                        Some(tail) => Some(seq![(buf.take(p), le_value(rest.take(4)))] + tail),
                    }
                }
            },
        }
    }
}

#[via_fn]
proof fn decode_list_decreases(buf: Seq<u8>) {
    lemma_first_zero(buf);
}

/// Encoding distributes over concatenation of entry lists.
pub proof fn lemma_encode_append(a: Seq<(Seq<u8>, u32)>, b: Seq<(Seq<u8>, u32)>)
    ensures
        encode_list(a + b) == encode_list(a) + encode_list(b),
    decreases a.len(),
{
    if a.len() == 0 {
        assert(a + b =~= b);
        assert(encode_list(a) + encode_list(b) =~= encode_list(b));
    } else {
        assert((a + b).drop_first() =~= a.drop_first() + b);
        lemma_encode_append(a.drop_first(), b);
        assert(encode_list(a + b) =~= encode_list(a) + encode_list(b));
    }
}

/// Decoding a buffer that starts with the encoding of null-free entries
/// yields those entries followed by whatever the remainder decodes to, and
/// is malformed exactly when the remainder is.
pub proof fn lemma_decode_encode_prefix(l: Seq<(Seq<u8>, u32)>, s: Seq<u8>)
    requires
        all_null_free(l),
    ensures
        decode_list(encode_list(l) + s) == match decode_list(s) {
            Some(t) => Some(l + t),
            None => None::<Seq<(Seq<u8>, u32)>>,
        },
    decreases l.len(),
{
    if l.len() == 0 {
        assert(encode_list(l) + s =~= s);
        match decode_list(s) {
            Some(t) => {
                assert(l + t =~= t);
            },
            None => {},
        }
    } else {
        let p = l[0].0;
        let f = l[0].1;
        let buf = encode_list(l) + s;
        let tail_bytes = encode_list(l.drop_first()) + s;
        assert(null_free(p));
        assert(buf =~= p + seq![0u8] + le_bytes(f) + tail_bytes);
        let pl = p.len() as int;
        assert(buf[pl] == 0u8);
        assert(forall|i: int| 0 <= i < pl ==> buf[i] == p[i]);
        lemma_first_zero_at(buf, pl);
        let rest = buf.skip(pl + 1);
        assert(rest =~= le_bytes(f) + tail_bytes);
        assert(rest.len() >= 4);
        assert(rest.take(4) =~= le_bytes(f));
        lemma_le_round_trip(f);
        assert(rest.skip(4) =~= tail_bytes);
        assert(buf.take(pl) =~= p);
        assert(all_null_free(l.drop_first())) by {
            assert(forall|k: int| 0 <= k < l.drop_first().len() ==> l.drop_first()[k] == l[k + 1]);
        }
        lemma_decode_encode_prefix(l.drop_first(), s);
        match decode_list(s) {
            Some(t) => {
                assert(decode_list(tail_bytes) == Some(l.drop_first() + t));
                assert(seq![(p, f)] + (l.drop_first() + t) =~= l + t);
            },
            None => {
                assert(decode_list(tail_bytes) is None);
            },
        }
    }
}

/// Round trip: encoding any finite list of null-free (path, flags) pairs
/// (empty paths included) and decoding the result reproduces the original
/// list exactly.
pub proof fn lemma_mount_list_round_trip(l: Seq<(Seq<u8>, u32)>)
    requires
        all_null_free(l),
    ensures
        decode_list(encode_list(l)) == Some(l),
{
    lemma_decode_encode_prefix(l, Seq::empty());
    assert(encode_list(l) + Seq::<u8>::empty() =~= encode_list(l));
    assert(l + Seq::<(Seq<u8>, u32)>::empty() =~= l);
}

/// A non-empty buffer without any null byte is malformed: it decodes to an
/// error, never to a (possibly empty) list.
pub proof fn lemma_missing_terminator_malformed(buf: Seq<u8>)
    requires
        buf.len() > 0,
        forall|i: int| 0 <= i < buf.len() ==> buf[i] != 0u8,
    ensures
        decode_list(buf) is None,
{
    lemma_first_zero(buf);
    match first_zero(buf) {
        Some(p) => {
            assert(buf[p] == 0u8);
            assert(false);
        },
        None => {},
    }
}

/// A buffer that ends right after a path's null terminator with fewer than
/// four trailing bytes decodes successfully: the prior entries are returned
/// and the incomplete trailer is ignored.
pub proof fn lemma_truncated_trailer_benign(l: Seq<(Seq<u8>, u32)>, p: Seq<u8>, t: Seq<u8>)
    requires
        all_null_free(l),
        null_free(p),
        t.len() < 4,
    ensures
        decode_list(encode_list(l) + (p + seq![0u8] + t)) == Some(l),
{
    let s = p + seq![0u8] + t;
    let pl = p.len() as int;
    assert(s[pl] == 0u8);
    assert(forall|i: int| 0 <= i < pl ==> s[i] == p[i]);
    lemma_first_zero_at(s, pl);
    assert(s.skip(pl + 1) =~= t);
    assert(decode_list(s) == Some(Seq::<(Seq<u8>, u32)>::empty()));
    lemma_decode_encode_prefix(l, s);
    assert(l + Seq::<(Seq<u8>, u32)>::empty() =~= l);
}

/// Decodes a serialized mount list into wire entries; fails exactly on a
/// malformed buffer (a missing null terminator).
pub fn decode_mount_list(buf: &Vec<u8>) -> (r: Result<Vec<WireEntry>, KsuError>)
    ensures
        r matches Ok(es) ==> decode_list(buf@) == Some(wire_pairs(es@)),
        r is Err ==> decode_list(buf@) is None,
        r matches Err(e) ==> e == KsuError::MalformedBuffer,
{
    let len = buf.len();
    let mut out: Vec<WireEntry> = Vec::new();
    let mut cursor: usize = 0;
    proof {
        assert(buf@.skip(0) =~= buf@);
        match decode_list(buf@) {
            Some(t) => {
                assert(wire_pairs(out@) + t =~= t);
            },
            None => {},
        }
    }
    while cursor < len
        invariant
            cursor <= len,
            len == buf@.len(),
            decode_list(buf@) == (match decode_list(buf@.skip(cursor as int)) {
                Some(t) => Some(wire_pairs(out@) + t),
                None => None::<Seq<(Seq<u8>, u32)>>,
            }),
        decreases len - cursor,
    {
        let ghost s = buf@.skip(cursor as int);
        let mut j = cursor;
        while j < len && buf[j] != 0u8
            invariant
                cursor <= j <= len,
                len == buf@.len(),
                forall|k: int| cursor <= k < j ==> buf@[k] != 0u8,
            decreases len - j,
        {
            j += 1;
        }
        if j == len {
            proof {
                assert(forall|i: int| 0 <= i < s.len() ==> s[i] == buf@[cursor + i]);
                lemma_first_zero(s);
                match first_zero(s) {
                    Some(p) => {
                        assert(s[p] == 0u8);
                        assert(false);
                    },
                    None => {},
                }
            }
            return Err(KsuError::MalformedBuffer);
        }
        let ghost prel = (j - cursor) as int;
        proof {
            assert(s[prel] == buf@[j as int]);
            assert(forall|i: int| 0 <= i < prel ==> s[i] == buf@[cursor + i] && buf@[cursor + i]
                != 0u8);
            lemma_first_zero_at(s, prel);
        }
        let path_slice = slice_subrange(buf.as_slice(), cursor, j);
        let path = slice_to_vec(path_slice);
        let after = j + 1;
        let ghost rest = s.skip(prel + 1);
        proof {
            assert(rest =~= buf@.skip(after as int));
        }
        if len - after < 4 {
            proof {
                assert(rest.len() < 4);
                assert(decode_list(s) == Some(Seq::<(Seq<u8>, u32)>::empty()));
                assert(wire_pairs(out@) + Seq::<(Seq<u8>, u32)>::empty() =~= wire_pairs(out@));
            }
            return Ok(out);
        }
        let b0 = buf[after];
        let b1 = buf[after + 1];
        let b2 = buf[after + 2];
        let b3 = buf[after + 3];
        let flags: u32 = (b0 as u32) | ((b1 as u32) << 8) | ((b2 as u32) << 16) | ((b3
            as u32) << 24);
        let ghost old_out = out@;
        proof {
            assert(rest.take(4)[0] == buf@[after as int]);
            assert(rest.take(4)[1] == buf@[after + 1]);
            assert(rest.take(4)[2] == buf@[after + 2]);
            assert(rest.take(4)[3] == buf@[after + 3]);
            assert(le_value(rest.take(4)) == flags);
            assert(s.take(prel) =~= buf@.subrange(cursor as int, j as int));
            assert(rest.skip(4) =~= buf@.skip(after + 4));
        }
        out.push(WireEntry { path, flags });
        cursor = after + 4;
        proof {
            assert(s.take(prel) =~= path@);
            assert(wire_pairs(out@) =~= wire_pairs(old_out).push((s.take(prel), flags)));
            match decode_list(buf@.skip(cursor as int)) {
                Some(t) => {
                    assert(decode_list(s) == Some(seq![(s.take(prel), flags)] + t));
                    assert(wire_pairs(old_out) + (seq![(s.take(prel), flags)] + t) =~= wire_pairs(
                        out@,
                    ) + t);
                },
                None => {
                    assert(decode_list(s) is None);
                },
            }
        }
    }
    proof {
        assert(buf@.skip(cursor as int) =~= Seq::<u8>::empty());
        assert(wire_pairs(out@) + Seq::<(Seq<u8>, u32)>::empty() =~= wire_pairs(out@));
    }
    Ok(out)
}

/// Serializes wire entries whose paths are free of null bytes.
pub fn encode_mount_list(entries: &Vec<WireEntry>) -> (r: Vec<u8>)
    requires
        all_null_free(wire_pairs(entries@)),
    ensures
        r@ == encode_list(wire_pairs(entries@)),
{
    let mut out: Vec<u8> = Vec::new();
    let n = entries.len();
    let mut i: usize = 0;
    while i < n
        invariant
            i <= n,
            n == entries@.len(),
            all_null_free(wire_pairs(entries@)),
            out@ == encode_list(wire_pairs(entries@.take(i as int))),
        decreases n - i,
    {
        let ghost done = entries@.take(i as int);
        let e = &entries[i];
        let mut pb = slice_to_vec(e.path.as_slice());
        out.append(&mut pb);
        out.push(0u8);
        let f = e.flags;
        proof {
            assert(f & 0xff < 256 && (f >> 8) & 0xff < 256 && (f >> 16) & 0xff < 256 && (f >> 24)
                & 0xff < 256) by (bit_vector);
        }
        out.push((f & 0xff) as u8);
        out.push(((f >> 8) & 0xff) as u8);
        out.push(((f >> 16) & 0xff) as u8);
        out.push(((f >> 24) & 0xff) as u8);
        i += 1;
        proof {
            let now = entries@.take(i as int);
            assert(wire_pairs(now) =~= wire_pairs(done).push((e.path@, e.flags)));
            lemma_encode_append(wire_pairs(done), seq![(e.path@, e.flags)]);
            assert(wire_pairs(done) + seq![(e.path@, e.flags)] =~= wire_pairs(now));
            let single = seq![(e.path@, e.flags)];
            assert(single.drop_first().len() == 0);
            assert(encode_list(single.drop_first()) =~= Seq::<u8>::empty());
            assert(encode_list(single) =~= encode_entry(e.path@, e.flags));
            assert(out@ =~= encode_list(wire_pairs(done)) + encode_entry(e.path@, e.flags));
        }
    }
    proof {
        assert(entries@.take(n as int) =~= entries@);
    }
    out
}

/// The text that lenient UTF-8 decoding gives to a byte sequence.
pub uninterp spec fn lossy_of(b: Seq<u8>) -> Seq<char>;

/// Relies on String::from_utf8_lossy: the result is a function of the bytes
/// alone, and bytes that are valid UTF-8 decode to exactly their characters.
#[verifier::external_body]
fn lossy_string(bytes: &[u8]) -> (r: String)
    ensures
        r@ == lossy_of(bytes@),
        valid_utf8(bytes@) ==> r@ == decode_utf8(bytes@),
{
    String::from_utf8_lossy(bytes).into_owned()
}

/// Decodes the buffer of a mount-list enumeration into user-facing entries:
/// each wire path is decoded leniently to text, flags are kept. Fails
/// exactly when the buffer is malformed.
pub fn umount_list_list(buffer: &Vec<u8>) -> (r: Result<Vec<MountInfo>, KsuError>)
    ensures
        r matches Ok(list) ==> (decode_list(buffer@) matches Some(es) && list@.len() == es.len()
            && forall|i: int|
            0 <= i < es.len() ==> (#[trigger] list@[i]).path@ == lossy_of(es[i].0)
                && list@[i].flags == es[i].1),
        r is Err ==> decode_list(buffer@) is None,
        r matches Err(e) ==> e == KsuError::MalformedBuffer,
{
    let wire = decode_mount_list(buffer)?;
    let ghost es = wire_pairs(wire@);
    let mut list: Vec<MountInfo> = Vec::new();
    let n = wire.len();
    let mut i: usize = 0;
    while i < n
        invariant
            i <= n,
            n == wire@.len(),
            es == wire_pairs(wire@),
            list@.len() == i,
            forall|k: int|
                0 <= k < i ==> (#[trigger] list@[k]).path@ == lossy_of(es[k].0) && list@[k].flags
                    == es[k].1,
        decreases n - i,
    {
        let e = &wire[i];
        let path = lossy_string(e.path.as_slice());
        list.push(MountInfo { path, flags: e.flags });
        i += 1;
    }
    Ok(list)
}

} // verus!
