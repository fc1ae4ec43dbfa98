use vstd::prelude::*;
use crate::batch::{EcdsaInput, Ed25519Input, byte_rows};

verus! {

/// A malformed or truncated wire buffer: fatal, nothing is decoded.
#[derive(Clone, Copy, PartialEq, Eq, Structural, Debug)]
pub struct FramingFault;

/// The four little-endian bytes of a 32-bit length prefix or of the
/// committed public output.
pub open spec fn spec_u32_le(x: u32) -> Seq<u8> {
    seq![
        (x & 0xff) as u8,
        ((x >> 8) & 0xff) as u8,
        ((x >> 16) & 0xff) as u8,
        ((x >> 24) & 0xff) as u8,
    ]
}

/// The 32-bit value four little-endian bytes stand for.
pub open spec fn spec_u32_from_le(b: Seq<u8>) -> u32
    recommends
        b.len() == 4,
{
    ((b[0] as u32) | ((b[1] as u32) << 8) | ((b[2] as u32) << 16) | ((b[3] as u32) << 24)) as u32
}

/// Law: reading back the four little-endian bytes of a 32-bit value gives
/// the value.
pub proof fn lemma_u32_le_round_trip(x: u32)
    ensures
        spec_u32_le(x).len() == 4,
        spec_u32_from_le(spec_u32_le(x)) == x,
{
    assert((((x & 0xff) as u8 as u32) | ((((x >> 8) & 0xff) as u8 as u32) << 8) | ((((x >> 16)
        & 0xff) as u8 as u32) << 16) | ((((x >> 24) & 0xff) as u8 as u32) << 24)) as u32 == x)
        by (bit_vector);
}

/// One byte string on the wire: its length as a 32-bit prefix, then its
/// bytes.
pub open spec fn spec_encode_string(s: Seq<u8>) -> Seq<u8> {
    spec_u32_le(s.len() as u32) + s
}

/// The wire bytes of the rows from index `i` on, one encoded string each.
pub open spec fn spec_encode_items_from(rows: Seq<Seq<u8>>, i: int) -> Seq<u8>
    decreases rows.len() - i,
{
    if i < 0 || i >= rows.len() {
        Seq::empty()
    } else {
        spec_encode_string(rows[i]) + spec_encode_items_from(rows, i + 1)
    }
}

/// One sequence of byte strings on the wire: its count as a 32-bit prefix,
/// then each string length-prefixed.
pub open spec fn spec_encode_rows(rows: Seq<Seq<u8>>) -> Seq<u8> {
    spec_u32_le(rows.len() as u32) + spec_encode_items_from(rows, 0)
}

/// The whole batch on the wire: the three sequences in fixed order —
/// public keys, messages, signatures.
pub open spec fn spec_encode_batch(
    keys: Seq<Seq<u8>>,
    msgs: Seq<Seq<u8>>,
    sigs: Seq<Seq<u8>>,
) -> Seq<u8> {
    spec_encode_rows(keys) + spec_encode_rows(msgs) + spec_encode_rows(sigs)
}

/// Every count and length fits its 32-bit prefix.
pub open spec fn spec_encodable_rows(rows: Seq<Seq<u8>>) -> bool {
    rows.len() <= u32::MAX && forall|i: int| 0 <= i < rows.len() ==> #[trigger] rows[i].len() <= u32::MAX
}

pub open spec fn spec_encodable_batch(
    keys: Seq<Seq<u8>>,
    msgs: Seq<Seq<u8>>,
    sigs: Seq<Seq<u8>>,
) -> bool {
    spec_encodable_rows(keys) && spec_encodable_rows(msgs) && spec_encodable_rows(sigs)
}

/// Append the four little-endian bytes of `x`.
fn push_u32_le(out: &mut Vec<u8>, x: u32)
    ensures
        final(out)@ == old(out)@ + spec_u32_le(x),
{
    out.push((x & 0xff) as u8);
    out.push(((x >> 8) & 0xff) as u8);
    out.push(((x >> 16) & 0xff) as u8);
    out.push(((x >> 24) & 0xff) as u8);
    assert(out@ =~= old(out)@ + spec_u32_le(x));
}

/// Append a copy of the bytes of `s`.
fn push_bytes(out: &mut Vec<u8>, s: &Vec<u8>)
    ensures
        final(out)@ == old(out)@ + s@,
{
    let n = s.len();
    let mut i: usize = 0;
    while i < n
        invariant
            n == s@.len(),
            i <= n,
            out@ == old(out)@ + s@.take(i as int),
        decreases n - i,
    {
        out.push(s[i]);
        assert(old(out)@ + s@.take(i + 1 as int) =~= (old(out)@ + s@.take(i as int)).push(
            s@[i as int],
        ));
        i = i + 1;
    }
    assert(s@.take(n as int) =~= s@);
}

/// Append one sequence of byte strings in wire form.
fn encode_rows(out: &mut Vec<u8>, rows: &Vec<Vec<u8>>)
    requires
        spec_encodable_rows(byte_rows(rows@)),
    ensures
        final(out)@ == old(out)@ + spec_encode_rows(byte_rows(rows@)),
{
    let ghost rs = byte_rows(rows@);
    let n = rows.len();
    push_u32_le(out, n as u32);
    assert(out@ + spec_encode_items_from(rs, 0) == old(out)@ + spec_encode_rows(rs));
    let mut i: usize = 0;
    while i < n
        invariant
            rs == byte_rows(rows@),
            n == rows@.len(),
            n == rs.len(),
            spec_encodable_rows(rs),
            i <= n,
            out@ + spec_encode_items_from(rs, i as int) == old(out)@ + spec_encode_rows(rs),
        decreases n - i,
    {
        let ghost entry = out@;
        let row = &rows[i];
        assert(row@ == rs[i as int]);
        push_u32_le(out, row.len() as u32);
        push_bytes(out, row);
        proof {
            assert(out@ == entry + spec_encode_string(rs[i as int]));
            assert(entry + (spec_encode_string(rs[i as int]) + spec_encode_items_from(
                rs,
                i + 1 as int,
            )) =~= (entry + spec_encode_string(rs[i as int])) + spec_encode_items_from(
                rs,
                i + 1 as int,
            ));
        }
        i = i + 1;
    }
    assert(out@ + spec_encode_items_from(rs, n as int) =~= out@);
}

/// Encode three parallel sequences as one batch wire buffer.
fn encode_batch_parts(keys: &Vec<Vec<u8>>, msgs: &Vec<Vec<u8>>, sigs: &Vec<Vec<u8>>) -> (r: Vec<
    u8,
>)
    requires
        spec_encodable_batch(byte_rows(keys@), byte_rows(msgs@), byte_rows(sigs@)),
    ensures
        r@ == spec_encode_batch(byte_rows(keys@), byte_rows(msgs@), byte_rows(sigs@)),
{
    let mut out: Vec<u8> = Vec::new();
    encode_rows(&mut out, keys);
    encode_rows(&mut out, msgs);
    encode_rows(&mut out, sigs);
    proof {
        assert(Seq::<u8>::empty() + spec_encode_rows(byte_rows(keys@)) =~= spec_encode_rows(
            byte_rows(keys@),
        ));
        assert(out@ =~= spec_encode_batch(byte_rows(keys@), byte_rows(msgs@), byte_rows(sigs@)));
    }
    out
}

/// Serialize an ECDSA batch for the program's one input read.
pub fn encode_ecdsa_input(input: &EcdsaInput) -> (r: Vec<u8>)
    requires
        spec_encodable_batch(input.keys(), input.messages(), input.signatures()),
    ensures
        r@ == spec_encode_batch(input.keys(), input.messages(), input.signatures()),
{
    encode_batch_parts(&input.pubkey_bytes, &input.message_bytes, &input.signature_bytes)
}

/// Serialize an Ed25519 batch for the program's one input read.
pub fn encode_ed25519_input(input: &Ed25519Input) -> (r: Vec<u8>)
    requires
        spec_encodable_batch(input.keys(), input.messages(), input.signatures()),
    ensures
        r@ == spec_encode_batch(input.keys(), input.messages(), input.signatures()),
{
    encode_batch_parts(&input.pubkey_bytes, &input.message_bytes, &input.signature_bytes)
}

/// Serialize the committed public output: one little-endian 32-bit count.
pub fn encode_public_output(n: u32) -> (r: Vec<u8>)
    ensures
        r@ == spec_u32_le(n),
{
    let mut out: Vec<u8> = Vec::new();
    push_u32_le(&mut out, n);
    assert(out@ =~= spec_u32_le(n));
    out
}

/// What a 32-bit read at `pos` yields: the value and the next position,
/// or nothing where fewer than four bytes remain.
pub open spec fn spec_decode_u32(b: Seq<u8>, pos: int) -> Option<(u32, int)> {
    if 0 <= pos && pos + 4 <= b.len() {
        Some((spec_u32_from_le(b.subrange(pos, pos + 4)), pos + 4))
    } else {
        None
    }
}

/// What a length-prefixed string read at `pos` yields.
pub open spec fn spec_decode_string(b: Seq<u8>, pos: int) -> Option<(Seq<u8>, int)> {
    match spec_decode_u32(b, pos) {
        Some((n, p)) => if p + n <= b.len() {
            Some((b.subrange(p, p + n), p + n))
        } else {
            None
        },
        None => None,
    }
}

/// What reading `count` length-prefixed strings from `pos` yields.
pub open spec fn spec_decode_items(b: Seq<u8>, pos: int, count: int) -> Option<
    (Seq<Seq<u8>>, int),
>
    decreases count,
{
    if count <= 0 {
        Some((Seq::empty(), pos))
    } else {
        match spec_decode_string(b, pos) {
            Some((s, p)) => match spec_decode_items(b, p, count - 1) {
                Some((rest, q)) => Some((seq![s] + rest, q)),
                None => None,
            },
            None => None,
        }
    }
}

/// What reading one count-prefixed sequence of strings at `pos` yields.
pub open spec fn spec_decode_rows(b: Seq<u8>, pos: int) -> Option<(Seq<Seq<u8>>, int)> {
    match spec_decode_u32(b, pos) {
        Some((n, p)) => spec_decode_items(b, p, n as int),
        None => None,
    }
}

/// What the whole buffer stands for: the three sequences in fixed order,
/// with nothing left over — trailing bytes are a framing fault.
pub open spec fn spec_decode_batch(b: Seq<u8>) -> Option<
    (Seq<Seq<u8>>, Seq<Seq<u8>>, Seq<Seq<u8>>),
> {
    match spec_decode_rows(b, 0) {
        Some((ks, p1)) => match spec_decode_rows(b, p1) {
            Some((ms, p2)) => match spec_decode_rows(b, p2) {
                Some((ss, p3)) => if p3 == b.len() {
                    Some((ks, ms, ss))
                } else {
                    None
                },
                None => None,
            },
            None => None,
        },
        None => None,
    }
}

/// Read one 32-bit little-endian value.
fn read_u32_le(b: &Vec<u8>, pos: usize) -> (r: Option<(u32, usize)>)
    ensures
        match r {
            Some((x, p)) => spec_decode_u32(b@, pos as int) == Some((x, p as int)) && p
                <= b@.len(),
            None => spec_decode_u32(b@, pos as int) is None,
        },
{
    if b.len() < 4 || pos > b.len() - 4 {
        return None;
    }
    let x: u32 = (b[pos] as u32) | ((b[pos + 1] as u32) << 8) | ((b[pos + 2] as u32) << 16) | ((
    b[pos + 3] as u32) << 24);
    proof {
        let s = b@.subrange(pos as int, pos + 4 as int);
        assert(s[0] == b@[pos as int] && s[1] == b@[pos + 1 as int] && s[2] == b@[pos + 2 as int]
            && s[3] == b@[pos + 3 as int]);
    }
    Some((x, pos + 4))
}

/// Read one length-prefixed byte string.
fn read_string(b: &Vec<u8>, pos: usize) -> (r: Option<(Vec<u8>, usize)>)
    ensures
        match r {
            Some((s, p)) => spec_decode_string(b@, pos as int) == Some((s@, p as int)) && p
                <= b@.len(),
            None => spec_decode_string(b@, pos as int) is None,
        },
{
    let (n, p) = match read_u32_le(b, pos) {
        Some(v) => v,
        None => {
            return None;
        },
    };
    let len = n as usize;
    if len > b.len() - p {
        return None;
    }
    let end = p + len;
    let mut s: Vec<u8> = Vec::new();
    let mut i: usize = 0;
    while i < len
        invariant
            end == p + len,
            p + len <= b@.len(),
            i <= len,
            s@ == b@.subrange(p as int, p + i as int),
        decreases len - i,
    {
        s.push(b[p + i]);
        assert(b@.subrange(p as int, p + (i + 1) as int) =~= b@.subrange(p as int, p + i as int)
            .push(b@[p + i as int]));
        i = i + 1;
    }
    Some((s, p + len))
}

/// Read one count-prefixed sequence of byte strings.
fn read_rows(b: &Vec<u8>, pos: usize) -> (r: Option<(Vec<Vec<u8>>, usize)>)
    ensures
        match r {
            Some((rows, p)) => spec_decode_rows(b@, pos as int) == Some((byte_rows(rows@), p
                as int)) && p <= b@.len(),
            None => spec_decode_rows(b@, pos as int) is None,
        },
{
    let (n, start) = match read_u32_le(b, pos) {
        Some(v) => v,
        None => {
            return None;
        },
    };
    let mut rows: Vec<Vec<u8>> = Vec::new();
    let mut cur: usize = start;
    let mut i: u32 = 0;
    proof {
        match spec_decode_items(b@, start as int, n as int) {
            Some((rest, q)) => {
                assert(Seq::<Seq<u8>>::empty() + rest =~= rest);
            },
            None => {},
        }
        assert(byte_rows(rows@) =~= Seq::<Seq<u8>>::empty());
    }
    while i < n
        invariant
            i <= n,
            cur <= b@.len(),
            spec_decode_u32(b@, pos as int) == Some((n, start as int)),
            spec_decode_items(b@, start as int, n as int) == match spec_decode_items(
                b@,
                cur as int,
                n - i,
            ) {
                Some((rest, q)) => Some((byte_rows(rows@) + rest, q)),
                None => None::<(Seq<Seq<u8>>, int)>,
            },
        decreases n - i,
    {
        let ghost acc = byte_rows(rows@);
        let (s, p) = match read_string(b, cur) {
            Some(v) => v,
            None => {
                proof {
                    assert(spec_decode_items(b@, cur as int, n - i) is None);
                }
                return None;
            },
        };
        proof {
            match spec_decode_items(b@, p as int, n - i - 1) {
                Some((rest, q)) => {
                    assert(acc + (seq![s@] + rest) =~= (acc + seq![s@]) + rest);
                },
                None => {},
            }
        }
        rows.push(s);
        proof {
            assert(byte_rows(rows@) =~= acc + seq![s@]);
        }
        cur = p;
        i = i + 1;
    }
    proof {
        assert(byte_rows(rows@) + Seq::<Seq<u8>>::empty() =~= byte_rows(rows@));
    }
    Some((rows, cur))
}

/// Deserialize one batch wire buffer into its three sequences.
pub(crate) fn decode_batch_parts(b: &Vec<u8>) -> (r: Result<
    (Vec<Vec<u8>>, Vec<Vec<u8>>, Vec<Vec<u8>>),
    FramingFault,
>)
    ensures
        match r {
            Ok((ks, ms, ss)) => spec_decode_batch(b@) == Some(
                (byte_rows(ks@), byte_rows(ms@), byte_rows(ss@)),
            ),
            Err(_) => spec_decode_batch(b@) is None,
        },
{
    let (keys, p1) = match read_rows(b, 0) {
        Some(v) => v,
        None => {
            return Err(FramingFault);
        },
    };
    let (msgs, p2) = match read_rows(b, p1) {
        Some(v) => v,
        None => {
            return Err(FramingFault);
        },
    };
    let (sigs, p3) = match read_rows(b, p2) {
        Some(v) => v,
        None => {
            return Err(FramingFault);
        },
    };
    if p3 != b.len() {
        return Err(FramingFault);
    }
    Ok((keys, msgs, sigs))
}

/// Deserialize the program's one input read as an ECDSA batch.
pub fn decode_ecdsa_input(b: &Vec<u8>) -> (r: Result<EcdsaInput, FramingFault>)
    ensures
        match r {
            Ok(input) => spec_decode_batch(b@) == Some(
                (input.keys(), input.messages(), input.signatures()),
            ),
            Err(_) => spec_decode_batch(b@) is None,
        },
{
    match decode_batch_parts(b) {
        Ok((keys, msgs, sigs)) => Ok(
            EcdsaInput { pubkey_bytes: keys, message_bytes: msgs, signature_bytes: sigs },
        ),
        Err(f) => Err(f),
    }
}

/// Deserialize the program's one input read as an Ed25519 batch.
pub fn decode_ed25519_input(b: &Vec<u8>) -> (r: Result<Ed25519Input, FramingFault>)
    ensures
        match r {
            Ok(input) => spec_decode_batch(b@) == Some(
                (input.keys(), input.messages(), input.signatures()),
            ),
            Err(_) => spec_decode_batch(b@) is None,
        },
{
    match decode_batch_parts(b) {
        Ok((keys, msgs, sigs)) => Ok(
            Ed25519Input { pubkey_bytes: keys, message_bytes: msgs, signature_bytes: sigs },
        ),
        Err(f) => Err(f),
    }
}

/// A 32-bit read over an embedded length prefix yields the encoded value.
proof fn lemma_decode_u32_of_encoding(b: Seq<u8>, pos: int, x: u32)
    requires
        0 <= pos,
        pos + 4 <= b.len(),
        b.subrange(pos, pos + 4) == spec_u32_le(x),
    ensures
        spec_decode_u32(b, pos) == Some((x, pos + 4)),
{
    lemma_u32_le_round_trip(x);
}

/// A string read over an embedded encoded string yields that string.
proof fn lemma_decode_string_of_encoding(b: Seq<u8>, pos: int, s: Seq<u8>)
    requires
        0 <= pos,
        s.len() <= u32::MAX,
        pos + 4 + s.len() <= b.len(),
        b.subrange(pos, pos + 4 + s.len()) == spec_encode_string(s),
    ensures
        spec_decode_string(b, pos) == Some((s, pos + 4 + s.len())),
{
    let enc = spec_encode_string(s);
    let n = s.len() as u32;
    assert forall|j: int| 0 <= j < 4 implies b.subrange(pos, pos + 4)[j] == spec_u32_le(n)[j] by {
        assert(b.subrange(pos, pos + 4 + s.len())[j] == enc[j]);
    }
    assert(b.subrange(pos, pos + 4) =~= spec_u32_le(n));
    lemma_decode_u32_of_encoding(b, pos, n);
    assert forall|j: int| 0 <= j < s.len() implies b.subrange(pos + 4, pos + 4 + s.len())[j]
        == s[j] by {
        assert(b.subrange(pos, pos + 4 + s.len())[4 + j] == enc[4 + j]);
    }
    assert(b.subrange(pos + 4, pos + 4 + s.len()) =~= s);
}

/// Reading `rows.len() - i` strings over the embedded encoding of the rows
/// from `i` on yields exactly those rows.
proof fn lemma_decode_items_of_encoding(b: Seq<u8>, pos: int, rows: Seq<Seq<u8>>, i: int)
    requires
        spec_encodable_rows(rows),
        0 <= i <= rows.len(),
        0 <= pos,
        pos + spec_encode_items_from(rows, i).len() <= b.len(),
        b.subrange(pos, pos + spec_encode_items_from(rows, i).len()) == spec_encode_items_from(
            rows,
            i,
        ),
    ensures
        spec_decode_items(b, pos, rows.len() - i) == Some(
            (rows.skip(i), pos + spec_encode_items_from(rows, i).len()),
        ),
    decreases rows.len() - i,
{
    if i == rows.len() {
        assert(rows.skip(i) =~= Seq::<Seq<u8>>::empty());
    } else {
        let s = rows[i];
        let head = spec_encode_string(s);
        let tail = spec_encode_items_from(rows, i + 1);
        let total = spec_encode_items_from(rows, i);
        assert(total == head + tail);
        assert forall|j: int| 0 <= j < head.len() implies b.subrange(pos, pos + head.len())[j]
            == head[j] by {
            assert(b.subrange(pos, pos + total.len())[j] == total[j]);
            assert(total[j] == head[j]);
        }
        assert(b.subrange(pos, pos + head.len()) =~= head);
        lemma_decode_string_of_encoding(b, pos, s);
        let mid = pos + head.len();
        assert forall|j: int| 0 <= j < tail.len() implies b.subrange(mid, mid + tail.len())[j]
            == tail[j] by {
            assert(b.subrange(pos, pos + total.len())[head.len() + j] == total[head.len() + j]);
            assert(total[head.len() + j] == tail[j]);
        }
        assert(b.subrange(mid, mid + tail.len()) =~= tail);
        lemma_decode_items_of_encoding(b, mid, rows, i + 1);
        assert(seq![s] + rows.skip(i + 1) =~= rows.skip(i));
    }
}

/// A sequence read over an embedded encoded sequence yields its rows.
proof fn lemma_decode_rows_of_encoding(b: Seq<u8>, pos: int, rows: Seq<Seq<u8>>)
    requires
        spec_encodable_rows(rows),
        0 <= pos,
        pos + spec_encode_rows(rows).len() <= b.len(),
        b.subrange(pos, pos + spec_encode_rows(rows).len()) == spec_encode_rows(rows),
    ensures
        spec_decode_rows(b, pos) == Some((rows, pos + spec_encode_rows(rows).len())),
{
    let enc = spec_encode_rows(rows);
    let n = rows.len() as u32;
    let items = spec_encode_items_from(rows, 0);
    assert forall|j: int| 0 <= j < 4 implies b.subrange(pos, pos + 4)[j] == spec_u32_le(n)[j] by {
        assert(b.subrange(pos, pos + enc.len())[j] == enc[j]);
        assert(enc[j] == spec_u32_le(n)[j]);
    }
    assert(b.subrange(pos, pos + 4) =~= spec_u32_le(n));
    lemma_decode_u32_of_encoding(b, pos, n);
    assert forall|j: int| 0 <= j < items.len() implies b.subrange(
        pos + 4,
        pos + 4 + items.len(),
    )[j] == items[j] by {
        assert(b.subrange(pos, pos + enc.len())[4 + j] == enc[4 + j]);
        assert(enc[4 + j] == items[j]);
    }
    assert(b.subrange(pos + 4, pos + 4 + items.len()) =~= items);
    lemma_decode_items_of_encoding(b, pos + 4, rows, 0);
    assert(rows.skip(0) =~= rows);
}

/// A successful read of `count` strings yields exactly `count` rows.
proof fn lemma_decode_items_count(b: Seq<u8>, pos: int, count: int)
    requires
        0 <= count,
        spec_decode_items(b, pos, count) is Some,
    ensures
        spec_decode_items(b, pos, count)->Some_0.0.len() == count,
    decreases count,
{
    if count > 0 {
        match spec_decode_string(b, pos) {
            Some((s, p)) => {
                lemma_decode_items_count(b, p, count - 1);
            },
            None => {},
        }
    }
}

/// Law: a decoded sequence holds exactly as many rows as its 32-bit count
/// prefix said — in particular, never more than the prefix can carry.
pub proof fn lemma_decode_rows_count(b: Seq<u8>, pos: int)
    requires
        spec_decode_rows(b, pos) is Some,
    ensures
        spec_decode_rows(b, pos)->Some_0.0.len() <= u32::MAX,
{
    match spec_decode_u32(b, pos) {
        Some((n, p)) => {
            lemma_decode_items_count(b, p, n as int);
        },
        None => {},
    }
}

/// Law: the wire framing round-trips — decoding the encoding of any batch
/// whose counts and lengths fit their 32-bit prefixes gives the batch back,
/// with the whole buffer consumed.
/// A three-part concatenation splits back into its parts.
proof fn lemma_concat3_subranges(x: Seq<u8>, y: Seq<u8>, z: Seq<u8>)
    ensures
        ((x + y) + z).subrange(0, x.len() as int) == x,
        ((x + y) + z).subrange(x.len() as int, x.len() + y.len() as int) == y,
        ((x + y) + z).subrange(x.len() + y.len() as int, (x.len() + y.len() + z.len()) as int) == z,
{
    let b = (x + y) + z;
    assert(b.subrange(0, x.len() as int) =~= x);
    assert(b.subrange(x.len() as int, x.len() + y.len() as int) =~= y);
    assert(b.subrange(x.len() + y.len() as int, (x.len() + y.len() + z.len()) as int) =~= z);
}

pub proof fn lemma_batch_wire_round_trip(
    keys: Seq<Seq<u8>>,
    msgs: Seq<Seq<u8>>,
    sigs: Seq<Seq<u8>>,
)
    requires
        spec_encodable_batch(keys, msgs, sigs),
    ensures
        spec_decode_batch(spec_encode_batch(keys, msgs, sigs)) == Some((keys, msgs, sigs)),
{
    let b = spec_encode_batch(keys, msgs, sigs);
    let e1 = spec_encode_rows(keys);
    let e2 = spec_encode_rows(msgs);
    let e3 = spec_encode_rows(sigs);
    assert(b == (e1 + e2) + e3);
    lemma_concat3_subranges(e1, e2, e3);
    lemma_decode_rows_of_encoding(b, 0, keys);
    lemma_decode_rows_of_encoding(b, e1.len() as int, msgs);
    lemma_decode_rows_of_encoding(b, e1.len() + e2.len() as int, sigs);
}

/// Read back a committed public output; exactly four bytes are accepted.
pub fn decode_public_output(b: &Vec<u8>) -> (r: Result<u32, FramingFault>)
    ensures
        match r {
            Ok(x) => b@.len() == 4 && x == spec_u32_from_le(b@),
            Err(_) => b@.len() != 4,
        },
{
    if b.len() != 4 {
        return Err(FramingFault);
    }
    let x: u32 = (b[0] as u32) | ((b[1] as u32) << 8) | ((b[2] as u32) << 16) | ((b[3]
        as u32) << 24);
    Ok(x)
}

} // verus!
