//! The byte protocol spoken with the external nonce-search engine. A
//! request is one reserved control byte, the 32-byte difficulty, then one
//! 32-byte challenge and 32-byte identity per searched pair. The response
//! is a run of 40-byte records, each a 32-byte hash followed by an 8-byte
//! little-endian nonce; a short trailing fragment is dropped without error.

use vstd::prelude::*;

verus! {

/// Marker value of the reserved control byte that leads every request.
pub const CONTROL_BYTE: u8 = 0;

/// A solved search record as parsed from the engine's response: the hash
/// and the nonce that produced it.
pub struct Candidate {
    pub hash: Vec<u8>,
    pub nonce: u64,
}

/// The value an 8-byte string denotes when read as a little-endian
/// unsigned integer.
pub open spec fn nonce_value(s: Seq<u8>) -> nat
    recommends
        s.len() == 8,
{
    (s[0] as nat) + (s[1] as nat) * 0x100 + (s[2] as nat) * 0x1_0000 + (s[3] as nat) * 0x100_0000
        + (s[4] as nat) * 0x1_0000_0000 + (s[5] as nat) * 0x100_0000_0000 + (s[6] as nat)
        * 0x1_0000_0000_0000 + (s[7] as nat) * 0x100_0000_0000_0000
}

/// Reads the 8-byte little-endian nonce that starts at `start`.
fn decode_nonce(bytes: &Vec<u8>, start: usize) -> (r: u64)
    requires
        start + 8 <= bytes@.len(),
    ensures
        r == nonce_value(bytes@.subrange(start as int, start as int + 8)),
{
    let len = bytes.len();
    assert(start + 8 <= len);
    let b0 = bytes[start] as u64;
    let b1 = bytes[start + 1] as u64;
    let b2 = bytes[start + 2] as u64;
    let b3 = bytes[start + 3] as u64;
    let b4 = bytes[start + 4] as u64;
    let b5 = bytes[start + 5] as u64;
    let b6 = bytes[start + 6] as u64;
    let b7 = bytes[start + 7] as u64;
    let r = b0 + b1 * 0x100 + b2 * 0x1_0000 + b3 * 0x100_0000 + b4 * 0x1_0000_0000 + b5
        * 0x100_0000_0000 + b6 * 0x1_0000_0000_0000 + b7 * 0x100_0000_0000_0000;
    proof {
        let s = bytes@.subrange(start as int, start as int + 8);
        assert(forall|t: int| 0 <= t < 8 ==> s[t] == bytes@[start + t]);
    }
    r
}

/// The 8-byte little-endian encoding of a nonce.
pub open spec fn nonce_le_bytes(n: u64) -> Seq<u8> {
    seq![
        (n % 0x100) as u8,
        ((n / 0x100) % 0x100) as u8,
        ((n / 0x1_0000) % 0x100) as u8,
        ((n / 0x100_0000) % 0x100) as u8,
        ((n / 0x1_0000_0000) % 0x100) as u8,
        ((n / 0x100_0000_0000) % 0x100) as u8,
        ((n / 0x1_0000_0000_0000) % 0x100) as u8,
        ((n / 0x100_0000_0000_0000) % 0x100) as u8,
    ]
}

/// Reading a nonce's little-endian encoding back gives the nonce: the two
/// directions of the record protocol's nonce field agree.
pub proof fn lemma_nonce_le_round_trip(n: u64)
    ensures
        nonce_value(nonce_le_bytes(n)) == n,
{
    let x = n as int;
    vstd::arithmetic::div_mod::lemma_fundamental_div_mod(x, 0x100);
    vstd::arithmetic::div_mod::lemma_div_denominator(x, 0x100, 0x100);
    vstd::arithmetic::div_mod::lemma_fundamental_div_mod(x / 0x100, 0x100);
    vstd::arithmetic::div_mod::lemma_div_denominator(x, 0x1_0000, 0x100);
    vstd::arithmetic::div_mod::lemma_fundamental_div_mod(x / 0x1_0000, 0x100);
    vstd::arithmetic::div_mod::lemma_div_denominator(x, 0x100_0000, 0x100);
    vstd::arithmetic::div_mod::lemma_fundamental_div_mod(x / 0x100_0000, 0x100);
    vstd::arithmetic::div_mod::lemma_div_denominator(x, 0x1_0000_0000, 0x100);
    vstd::arithmetic::div_mod::lemma_fundamental_div_mod(x / 0x1_0000_0000, 0x100);
    vstd::arithmetic::div_mod::lemma_div_denominator(x, 0x100_0000_0000, 0x100);
    vstd::arithmetic::div_mod::lemma_fundamental_div_mod(x / 0x100_0000_0000, 0x100);
    vstd::arithmetic::div_mod::lemma_div_denominator(x, 0x1_0000_0000_0000, 0x100);
    vstd::arithmetic::div_mod::lemma_fundamental_div_mod(x / 0x1_0000_0000_0000, 0x100);
}

/// The records a response byte string denotes: one per full 40-byte run,
/// in file order, with any short trailing fragment dropped.
pub open spec fn parsed_records(bytes: Seq<u8>) -> Seq<(Seq<u8>, nat)>
    decreases bytes.len(),
{
    if bytes.len() < 40 {
        Seq::empty()
    } else {
        seq![(bytes.subrange(0, 32), nonce_value(bytes.subrange(32, 40)))] + parsed_records(
            bytes.skip(40),
        )
    }
}

/// Where each parsed record lies in the response: record `k` is the bytes
/// at offset `40 k`, hash first, nonce after.
pub proof fn lemma_parsed_records_index(bytes: Seq<u8>)
    ensures
        parsed_records(bytes).len() == bytes.len() / 40,
        forall|k: int|
            0 <= k < parsed_records(bytes).len() ==> #[trigger] parsed_records(bytes)[k].0
                == bytes.subrange(40 * k, 40 * k + 32) && parsed_records(bytes)[k].1 == nonce_value(
                bytes.subrange(40 * k + 32, 40 * k + 40),
            ),
    decreases bytes.len(),
{
    if bytes.len() < 40 {
        assert(bytes.len() / 40 == 0);
    } else {
        let rest = bytes.skip(40);
        lemma_parsed_records_index(rest);
        assert(bytes.len() / 40 == 1 + rest.len() / 40) by (nonlinear_arith)
            requires
                bytes.len() >= 40,
                rest.len() == bytes.len() - 40,
        ;
        assert(parsed_records(bytes)[0].0 == bytes.subrange(0, 32));
        assert(parsed_records(bytes)[0].1 == nonce_value(bytes.subrange(32, 40)));
        assert(bytes.subrange(40int * 0, 40int * 0 + 32) == bytes.subrange(0, 32));
        assert(bytes.subrange(40int * 0 + 32, 40int * 0 + 40) == bytes.subrange(32, 40));
        assert forall|k: int| 1 <= k < parsed_records(bytes).len() implies #[trigger]
        parsed_records(bytes)[k].0 == bytes.subrange(40 * k, 40 * k + 32) && parsed_records(
            bytes,
        )[k].1 == nonce_value(bytes.subrange(40 * k + 32, 40 * k + 40)) by {
            assert(parsed_records(bytes)[k] == parsed_records(rest)[k - 1]);
            assert(rest.subrange(40 * (k - 1), 40 * (k - 1) + 32) =~= bytes.subrange(
                40 * k,
                40 * k + 32,
            ));
            assert(rest.subrange(40 * (k - 1) + 32, 40 * (k - 1) + 40) =~= bytes.subrange(
                40 * k + 32,
                40 * k + 40,
            ));
        }
    }
}

/// Parses an engine response: every full 40-byte record, in file order,
/// split into its 32-byte hash and little-endian nonce; a short trailing
/// fragment is dropped without error.
pub fn parse_search_response(bytes: &Vec<u8>) -> (r: Vec<Candidate>)
    ensures
        r@.len() == parsed_records(bytes@).len(),
        forall|k: int|
            0 <= k < r@.len() ==> (#[trigger] r@[k]).hash@ == parsed_records(bytes@)[k].0 && r@[
                k
            ].hash@.len() == 32 && r@[k].nonce == parsed_records(bytes@)[k].1,
{
    let n = bytes.len();
    let mut out: Vec<Candidate> = Vec::new();
    let mut off: usize = 0;
    while n - off >= 40
        invariant
            n == bytes@.len(),
            off <= n,
            off == 40 * out@.len(),
            forall|k: int|
                0 <= k < out@.len() ==> (#[trigger] out@[k]).hash@ == bytes@.subrange(
                    40 * k,
                    40 * k + 32,
                ) && out@[k].hash@.len() == 32 && out@[k].nonce == nonce_value(
                    bytes@.subrange(40 * k + 32, 40 * k + 40),
                ),
        decreases n - off,
    {
        let mut hash: Vec<u8> = Vec::new();
        let mut j: usize = 0;
        while j < 32
            invariant
                j <= 32,
                hash@.len() == j,
                off + 40 <= n,
                n == bytes@.len(),
                forall|t: int| 0 <= t < j ==> hash@[t] == bytes@[off + t],
            decreases 32 - j,
        {
            hash.push(bytes[off + j]);
            j = j + 1;
        }
        proof {
            assert(hash@ =~= bytes@.subrange(off as int, off as int + 32));
        }
        let nonce = decode_nonce(bytes, off + 32);
        proof {
            assert(bytes@.subrange(off as int + 32, off as int + 40) == bytes@.subrange(
                40 * (out@.len() as int) + 32,
                40 * (out@.len() as int) + 40,
            ));
        }
        out.push(Candidate { hash, nonce });
        off = off + 40;
    }
    proof {
        lemma_parsed_records_index(bytes@);
        assert(out@.len() == bytes@.len() / 40) by (nonlinear_arith)
            requires
                40 * out@.len() <= bytes@.len(),
                bytes@.len() < 40 * out@.len() + 40,
        ;
        assert forall|k: int| 0 <= k < out@.len() implies (#[trigger] out@[k]).hash@
            == parsed_records(bytes@)[k].0 && out@[k].hash@.len() == 32 && out@[k].nonce
            == parsed_records(bytes@)[k].1 by {
            assert(parsed_records(bytes@)[k].0 == bytes@.subrange(40 * k, 40 * k + 32));
            assert(parsed_records(bytes@)[k].1 == nonce_value(
                bytes@.subrange(40 * k + 32, 40 * k + 40),
            ));
            assert(out@[k].hash@ == bytes@.subrange(40 * k, 40 * k + 32));
        }
    }
    out
}

/// The byte string of one request: the control byte, the difficulty, then
/// each pair's challenge and identity in order.
pub open spec fn pairs_bytes(pairs: Seq<(Seq<u8>, Seq<u8>)>) -> Seq<u8>
    decreases pairs.len(),
{
    if pairs.len() == 0 {
        Seq::empty()
    } else {
        pairs.first().0 + pairs.first().1 + pairs_bytes(pairs.drop_first())
    }
}

/// The full request for a difficulty and a batch of challenge/identity
/// pairs.
pub open spec fn request_bytes(difficulty: Seq<u8>, pairs: Seq<(Seq<u8>, Seq<u8>)>) -> Seq<u8> {
    seq![CONTROL_BYTE] + difficulty + pairs_bytes(pairs)
}

/// The abstract contents of a batch of challenge/identity pairs.
pub open spec fn pairs_view(pairs: Seq<(Vec<u8>, Vec<u8>)>) -> Seq<(Seq<u8>, Seq<u8>)> {
    pairs.map_values(|p: (Vec<u8>, Vec<u8>)| (p.0@, p.1@))
}

proof fn lemma_pairs_bytes_take(s: Seq<(Seq<u8>, Seq<u8>)>, i: int)
    requires
        0 <= i < s.len(),
    ensures
        pairs_bytes(s.take(i + 1)) == pairs_bytes(s.take(i)) + s[i].0 + s[i].1,
    decreases i,
{
    if i == 0 {
        assert(s.take(1).first() == s[0]);
        assert(s.take(1).drop_first() =~= Seq::<(Seq<u8>, Seq<u8>)>::empty());
        assert(s.take(0) =~= Seq::<(Seq<u8>, Seq<u8>)>::empty());
        assert(pairs_bytes(s.take(1)) =~= pairs_bytes(s.take(0)) + s[0].0 + s[0].1);
    } else {
        let t = s.drop_first();
        lemma_pairs_bytes_take(t, i - 1);
        assert(s.take(i + 1).first() == s[0]);
        assert(s.take(i).first() == s[0]);
        assert(s.take(i + 1).drop_first() =~= t.take(i));
        assert(s.take(i).drop_first() =~= t.take(i - 1));
        assert(t[i - 1] == s[i]);
        assert(pairs_bytes(s.take(i + 1)) =~= pairs_bytes(s.take(i)) + s[i].0 + s[i].1);
    }
}

/// Appends every byte of `src` to `dst`, in order.
fn push_all(dst: &mut Vec<u8>, src: &Vec<u8>)
    ensures
        final(dst)@ == old(dst)@ + src@,
{
    let n = src.len();
    let mut i: usize = 0;
    while i < n
        invariant
            i <= n,
            n == src@.len(),
            dst@ == old(dst)@ + src@.take(i as int),
        decreases n - i,
    {
        let b = src[i];
        dst.push(b);
        proof {
            assert((old(dst)@ + src@.take(i as int)).push(b) =~= old(dst)@ + src@.take(
                i as int + 1,
            ));
        }
        i = i + 1;
    }
    proof {
        assert(src@.take(n as int) =~= src@);
    }
}

/// A fresh copy of a byte string.
pub fn clone_bytes(src: &Vec<u8>) -> (r: Vec<u8>)
    ensures
        r@ == src@,
{
    let mut out: Vec<u8> = Vec::new();
    push_all(&mut out, src);
    out
}

/// Builds the engine request for one difficulty and a batch of
/// challenge/identity pairs: the control byte, the 32-byte difficulty,
/// then each pair's 32-byte challenge and 32-byte identity, in order.
pub fn encode_search_request(difficulty: &Vec<u8>, pairs: &Vec<(Vec<u8>, Vec<u8>)>) -> (r: Vec<u8>)
    requires
        difficulty@.len() == 32,
        forall|k: int|
            0 <= k < pairs@.len() ==> (#[trigger] pairs@[k]).0@.len() == 32 && pairs@[k].1@.len()
                == 32,
    ensures
        r@ == request_bytes(difficulty@, pairs_view(pairs@)),
{
    let ghost pv = pairs_view(pairs@);
    let mut out: Vec<u8> = Vec::new();
    out.push(CONTROL_BYTE);
    proof {
        assert(out@ =~= seq![CONTROL_BYTE]);
        assert(pv.take(0) =~= Seq::<(Seq<u8>, Seq<u8>)>::empty());
    }
    push_all(&mut out, difficulty);
    let n = pairs.len();
    let mut i: usize = 0;
    while i < n
        invariant
            i <= n,
            n == pairs@.len(),
            pv == pairs_view(pairs@),
            forall|k: int|
                0 <= k < pairs@.len() ==> (#[trigger] pairs@[k]).0@.len() == 32
                    && pairs@[k].1@.len() == 32,
            out@ == seq![CONTROL_BYTE] + difficulty@ + pairs_bytes(pv.take(i as int)),
        decreases n - i,
    {
        push_all(&mut out, &pairs[i].0);
        push_all(&mut out, &pairs[i].1);
        proof {
            assert(pv[i as int] == (pairs@[i as int].0@, pairs@[i as int].1@));
            lemma_pairs_bytes_take(pv, i as int);
            assert(seq![CONTROL_BYTE] + difficulty@ + pairs_bytes(pv.take(i as int)) + pairs@[
                i as int
            ].0@ + pairs@[i as int].1@ =~= seq![CONTROL_BYTE] + difficulty@ + pairs_bytes(
                pv.take(i as int + 1),
            ));
        }
        i = i + 1;
    }
    proof {
        assert(pv.take(n as int) =~= pv);
    }
    out
}

/// The byte string of a run of records laid end to end.
pub open spec fn records_bytes(records: Seq<Seq<u8>>) -> Seq<u8>
    decreases records.len(),
{
    if records.len() == 0 {
        Seq::empty()
    } else {
        records.first() + records_bytes(records.drop_first())
    }
}

/// A response made of whole 40-byte records followed by a short trailing
/// fragment parses back to exactly those records, in file order: the hash
/// is each record's first 32 bytes, the nonce its last 8 read
/// little-endian, and the fragment is dropped.
pub proof fn lemma_response_round_trip(records: Seq<Seq<u8>>, fragment: Seq<u8>)
    requires
        forall|k: int| 0 <= k < records.len() ==> (#[trigger] records[k]).len() == 40,
        fragment.len() < 40,
    ensures
        parsed_records(records_bytes(records) + fragment).len() == records.len(),
        forall|k: int|
            0 <= k < records.len() ==> #[trigger] parsed_records(records_bytes(records) + fragment)[
                k
            ].0 == records[k].subrange(0, 32) && parsed_records(records_bytes(records) + fragment)[
                k
            ].1 == nonce_value(records[k].subrange(32, 40)),
    decreases records.len(),
{
    let bytes = records_bytes(records) + fragment;
    if records.len() == 0 {
        assert(bytes =~= fragment);
    } else {
        let r0 = records.first();
        let rest = records.drop_first();
        lemma_response_round_trip(rest, fragment);
        let rbytes = records_bytes(rest) + fragment;
        assert(bytes =~= r0 + rbytes);
        assert(bytes.len() >= 40);
        assert(bytes.skip(40) =~= rbytes);
        assert(bytes.subrange(0, 32) =~= r0.subrange(0, 32));
        assert(bytes.subrange(32, 40) =~= r0.subrange(32, 40));
        assert(parsed_records(bytes) == seq![
            (bytes.subrange(0, 32), nonce_value(bytes.subrange(32, 40))),
        ] + parsed_records(rbytes));
        assert forall|k: int| 1 <= k < records.len() implies #[trigger] parsed_records(bytes)[k].0
            == records[k].subrange(0, 32) && parsed_records(bytes)[k].1 == nonce_value(
            records[k].subrange(32, 40),
        ) by {
            assert(records[k] == rest[k - 1]);
            assert(parsed_records(bytes)[k] == parsed_records(rbytes)[k - 1]);
        }
    }
}

} // verus!
