//! The fixed-size binary layout of the persisted records: primitive
//! integers little-endian, 32-byte identities and hashes verbatim,
//! booleans one canonical byte, each record prefixed by a one-byte tag.
//!
//! Encoding is exact — the contract states every byte — and decoding
//! accepts exactly the well-formed encodings and returns the record whose
//! encoding the input is.

use vstd::prelude::*;
use vstd::bytes::{
    lemma_auto_spec_u16_to_from_le_bytes, lemma_auto_spec_u64_to_from_le_bytes,
    spec_u16_from_le_bytes, spec_u16_to_le_bytes, spec_u64_from_le_bytes, spec_u64_to_le_bytes,
    u16_from_le_bytes, u16_to_le_bytes, u64_from_le_bytes, u64_to_le_bytes,
};
use vstd::slice::slice_subrange;
use crate::state::{Contract, OracleFlag, Pubkey, TrustScore};

verus! {

/// The tag byte prefixing an encoded contract.
pub const CONTRACT_TAG: u8 = 1;

/// The length of an encoded contract: tag, four identities, the contract
/// id, the value terms, the policy flag, the timing, the document hash,
/// and the terminal flags.
pub const CONTRACT_ENCODING_LEN: usize = 230;

/// The tag byte prefixing an encoded trust score.
pub const TRUST_SCORE_TAG: u8 = 2;

/// The length of an encoded trust score: tag, two identities, the score,
/// the touch time.
pub const TRUST_SCORE_ENCODING_LEN: usize = 75;

/// The tag byte prefixing an encoded oracle flag.
pub const ORACLE_FLAG_TAG: u8 = 3;

/// The length of an encoded oracle flag: tag, the attestation, the
/// attesting identity, the touch time.
pub const ORACLE_FLAG_ENCODING_LEN: usize = 42;

/// A boolean's canonical encoding: one for true, zero for false.
pub open spec fn bool_byte(b: bool) -> u8 {
    if b {
        1u8
    } else {
        0u8
    }
}

/// A signed timestamp's encoding: its two's-complement bits, little-endian.
pub open spec fn i64_le_bytes(x: i64) -> Seq<u8> {
    spec_u64_to_le_bytes(x as u64)
}

/// Append one 32-byte value.
fn push_bytes32(out: &mut Vec<u8>, b: &[u8; 32])
    ensures
        final(out)@ == old(out)@ + b@,
{
    let mut i: usize = 0;
    while i < 32
        invariant
            0 <= i <= 32,
            out@ == old(out)@ + b@.subrange(0, i as int),
        decreases 32 - i,
    {
        out.push(b[i]);
        proof {
            assert(old(out)@ + b@.subrange(0, i as int) + seq![b@[i as int]] =~= old(out)@
                + b@.subrange(0, i + 1 as int));
        }
        i = i + 1;
    }
    proof {
        assert(old(out)@ + b@.subrange(0, 32) =~= old(out)@ + b@);
    }
}

/// Append a u64, little-endian.
fn push_u64_le(out: &mut Vec<u8>, x: u64)
    ensures
        final(out)@ == old(out)@ + spec_u64_to_le_bytes(x),
{
    let mut b = u64_to_le_bytes(x);
    out.append(&mut b);
}

/// Append a u16, little-endian.
fn push_u16_le(out: &mut Vec<u8>, x: u16)
    ensures
        final(out)@ == old(out)@ + spec_u16_to_le_bytes(x),
{
    let mut b = u16_to_le_bytes(x);
    out.append(&mut b);
}

/// Append a signed timestamp, little-endian two's complement.
fn push_i64_le(out: &mut Vec<u8>, x: i64)
    ensures
        final(out)@ == old(out)@ + i64_le_bytes(x),
{
    push_u64_le(out, #[verifier::truncate] (x as u64));
}

/// Read one 32-byte value at `off`.
fn read_bytes32(s: &[u8], off: usize) -> (r: [u8; 32])
    requires
        off + 32 <= s@.len(),
    ensures
        r@ == s@.subrange(off as int, off as int + 32),
{
    proof {
        assert(vstd::slice::spec_slice_len(s) == s@.len());
    }
    let mut r = [0u8; 32];
    let mut i: usize = 0;
    while i < 32
        invariant
            0 <= i <= 32,
            off + 32 <= s@.len() <= usize::MAX,
            forall|j: int| 0 <= j < i ==> r@[j] == s@[off + j],
        decreases 32 - i,
    {
        r[i] = s[off + i];
        i = i + 1;
    }
    proof {
        assert(r@ =~= s@.subrange(off as int, off as int + 32));
    }
    r
}

/// Read a u64 at `off`, little-endian.
fn read_u64_le(s: &[u8], off: usize) -> (x: u64)
    requires
        off + 8 <= s@.len(),
    ensures
        x == spec_u64_from_le_bytes(s@.subrange(off as int, off as int + 8)),
{
    proof {
        assert(vstd::slice::spec_slice_len(s) == s@.len());
    }
    u64_from_le_bytes(slice_subrange(s, off, off + 8))
}

/// Read a u16 at `off`, little-endian.
fn read_u16_le(s: &[u8], off: usize) -> (x: u16)
    requires
        off + 2 <= s@.len(),
    ensures
        x == spec_u16_from_le_bytes(s@.subrange(off as int, off as int + 2)),
{
    proof {
        assert(vstd::slice::spec_slice_len(s) == s@.len());
    }
    u16_from_le_bytes(slice_subrange(s, off, off + 2))
}

/// Read a signed timestamp at `off`.
fn read_i64_le(s: &[u8], off: usize) -> (x: i64)
    requires
        off + 8 <= s@.len(),
    ensures
        x == spec_u64_from_le_bytes(s@.subrange(off as int, off as int + 8)) as i64,
{
    #[verifier::truncate] (read_u64_le(s, off) as i64)
}

/// The encoding of a contract: the tag, the four identities, the contract
/// id, the value terms, the policy flag, the timing, the document hash,
/// the terminal flags, and the two timestamps.
pub open spec fn contract_bytes(c: Contract) -> Seq<u8> {
    seq![CONTRACT_TAG] + c.initializer.bytes@ + c.seller.bytes@ + c.usdc_mint.bytes@
        + c.escrow_vault.bytes@ + c.contract_id@ + spec_u64_to_le_bytes(c.amount_expected) + seq![
        c.milestones_total,
        c.milestones_completed,
        bool_byte(c.auto_release_on_expiry),
    ] + i64_le_bytes(c.expiry_ts) + c.doc_hash@ + seq![
        bool_byte(c.released),
        bool_byte(c.refunded),
    ] + i64_le_bytes(c.created_at) + i64_le_bytes(c.updated_at)
}

/// Whether `s` is a well-formed contract encoding: the exact length, the
/// right tag, and canonical boolean bytes.
pub open spec fn is_contract_encoding(s: Seq<u8>) -> bool {
    &&& s.len() == CONTRACT_ENCODING_LEN
    &&& s[0] == CONTRACT_TAG
    &&& (s[171] == 0 || s[171] == 1)
    &&& (s[212] == 0 || s[212] == 1)
    &&& (s[213] == 0 || s[213] == 1)
}

/// Encode a contract into its persisted layout.
pub fn encode_contract(c: &Contract) -> (out: Vec<u8>)
    ensures
        out@ == contract_bytes(*c),
{
    let mut out: Vec<u8> = Vec::new();
    out.push(CONTRACT_TAG);
    push_bytes32(&mut out, &c.initializer.bytes);
    push_bytes32(&mut out, &c.seller.bytes);
    push_bytes32(&mut out, &c.usdc_mint.bytes);
    push_bytes32(&mut out, &c.escrow_vault.bytes);
    push_bytes32(&mut out, &c.contract_id);
    push_u64_le(&mut out, c.amount_expected);
    out.push(c.milestones_total);
    out.push(c.milestones_completed);
    out.push(if c.auto_release_on_expiry { 1 } else { 0 });
    push_i64_le(&mut out, c.expiry_ts);
    push_bytes32(&mut out, &c.doc_hash);
    out.push(if c.released { 1 } else { 0 });
    out.push(if c.refunded { 1 } else { 0 });
    push_i64_le(&mut out, c.created_at);
    push_i64_le(&mut out, c.updated_at);
    proof {
        assert(out@ =~= contract_bytes(*c));
    }
    out
}

/// Decode a persisted contract.
///
/// Succeeds exactly on the well-formed encodings, and the decoded record
/// is the one whose encoding the input is.
#[verifier::rlimit(50)]
pub fn decode_contract(s: &[u8]) -> (r: Option<Contract>)
    ensures
        r is Some <==> is_contract_encoding(s@),
        r matches Some(c) ==> s@ == contract_bytes(c),
{
    if s.len() != CONTRACT_ENCODING_LEN {
        return None;
    }
    if s[0] != CONTRACT_TAG {
        return None;
    }
    if s[171] > 1 || s[212] > 1 || s[213] > 1 {
        return None;
    }
    let c = Contract {
        initializer: Pubkey { bytes: read_bytes32(s, 1) },
        seller: Pubkey { bytes: read_bytes32(s, 33) },
        usdc_mint: Pubkey { bytes: read_bytes32(s, 65) },
        escrow_vault: Pubkey { bytes: read_bytes32(s, 97) },
        contract_id: read_bytes32(s, 129),
        amount_expected: read_u64_le(s, 161),
        milestones_total: s[169],
        milestones_completed: s[170],
        auto_release_on_expiry: s[171] == 1,
        expiry_ts: read_i64_le(s, 172),
        doc_hash: read_bytes32(s, 180),
        released: s[212] == 1,
        refunded: s[213] == 1,
        created_at: read_i64_le(s, 214),
        updated_at: read_i64_le(s, 222),
    };
    proof {
        lemma_auto_spec_u64_to_from_le_bytes();
        let x1 = spec_u64_from_le_bytes(s@.subrange(172, 180));
        let x2 = spec_u64_from_le_bytes(s@.subrange(214, 222));
        let x3 = spec_u64_from_le_bytes(s@.subrange(222, 230));
        assert((x1 as i64) as u64 == x1) by (bit_vector);
        assert((x2 as i64) as u64 == x2) by (bit_vector);
        assert((x3 as i64) as u64 == x3) by (bit_vector);
        assert(contract_bytes(c) =~= s@);
    }
    Some(c)
}

/// The encoding is injective: two contracts with the same bytes are the
/// same record, so a decoder loses nothing.
#[verifier::rlimit(50)]
pub proof fn lemma_contract_bytes_injective(a: Contract, b: Contract)
    requires
        contract_bytes(a) == contract_bytes(b),
    ensures
        a == b,
{
    lemma_auto_spec_u64_to_from_le_bytes();
    let sa = contract_bytes(a);
    let sb = contract_bytes(b);
    assert forall|i: int| 0 <= i < 32 implies a.initializer.bytes@[i]
        == b.initializer.bytes@[i] by {
        assert(sa[1 + i] == a.initializer.bytes@[i]);
        assert(sb[1 + i] == b.initializer.bytes@[i]);
    }
    assert(a.initializer.bytes =~= b.initializer.bytes);
    assert forall|i: int| 0 <= i < 32 implies a.seller.bytes@[i] == b.seller.bytes@[i] by {
        assert(sa[33 + i] == a.seller.bytes@[i]);
        assert(sb[33 + i] == b.seller.bytes@[i]);
    }
    assert(a.seller.bytes =~= b.seller.bytes);
    assert forall|i: int| 0 <= i < 32 implies a.usdc_mint.bytes@[i] == b.usdc_mint.bytes@[i] by {
        assert(sa[65 + i] == a.usdc_mint.bytes@[i]);
        assert(sb[65 + i] == b.usdc_mint.bytes@[i]);
    }
    assert(a.usdc_mint.bytes =~= b.usdc_mint.bytes);
    assert forall|i: int| 0 <= i < 32 implies a.escrow_vault.bytes@[i]
        == b.escrow_vault.bytes@[i] by {
        assert(sa[97 + i] == a.escrow_vault.bytes@[i]);
        assert(sb[97 + i] == b.escrow_vault.bytes@[i]);
    }
    assert(a.escrow_vault.bytes =~= b.escrow_vault.bytes);
    assert forall|i: int| 0 <= i < 32 implies a.contract_id@[i] == b.contract_id@[i] by {
        assert(sa[129 + i] == a.contract_id@[i]);
        assert(sb[129 + i] == b.contract_id@[i]);
    }
    assert(a.contract_id =~= b.contract_id);
    assert forall|i: int| 0 <= i < 32 implies a.doc_hash@[i] == b.doc_hash@[i] by {
        assert(sa[180 + i] == a.doc_hash@[i]);
        assert(sb[180 + i] == b.doc_hash@[i]);
    }
    assert(a.doc_hash =~= b.doc_hash);
    assert forall|i: int| 0 <= i < 8 implies spec_u64_to_le_bytes(a.amount_expected)[i]
        == spec_u64_to_le_bytes(b.amount_expected)[i] by {
        assert(sa[161 + i] == spec_u64_to_le_bytes(a.amount_expected)[i]);
        assert(sb[161 + i] == spec_u64_to_le_bytes(b.amount_expected)[i]);
    }
    assert(spec_u64_to_le_bytes(a.amount_expected) =~= spec_u64_to_le_bytes(b.amount_expected));
    assert forall|i: int| 0 <= i < 8 implies i64_le_bytes(a.expiry_ts)[i] == i64_le_bytes(
        b.expiry_ts,
    )[i] by {
        assert(sa[172 + i] == i64_le_bytes(a.expiry_ts)[i]);
        assert(sb[172 + i] == i64_le_bytes(b.expiry_ts)[i]);
    }
    assert(i64_le_bytes(a.expiry_ts) =~= i64_le_bytes(b.expiry_ts));
    assert forall|i: int| 0 <= i < 8 implies i64_le_bytes(a.created_at)[i] == i64_le_bytes(
        b.created_at,
    )[i] by {
        assert(sa[214 + i] == i64_le_bytes(a.created_at)[i]);
        assert(sb[214 + i] == i64_le_bytes(b.created_at)[i]);
    }
    assert(i64_le_bytes(a.created_at) =~= i64_le_bytes(b.created_at));
    assert forall|i: int| 0 <= i < 8 implies i64_le_bytes(a.updated_at)[i] == i64_le_bytes(
        b.updated_at,
    )[i] by {
        assert(sa[222 + i] == i64_le_bytes(a.updated_at)[i]);
        assert(sb[222 + i] == i64_le_bytes(b.updated_at)[i]);
    }
    assert(i64_le_bytes(a.updated_at) =~= i64_le_bytes(b.updated_at));
    assert(a.amount_expected == b.amount_expected);
    let (e1, e2) = (a.expiry_ts, b.expiry_ts);
    assert((e1 as u64) == (e2 as u64) ==> e1 == e2) by (bit_vector);
    let (c1, c2) = (a.created_at, b.created_at);
    assert((c1 as u64) == (c2 as u64) ==> c1 == c2) by (bit_vector);
    let (u1, u2) = (a.updated_at, b.updated_at);
    assert((u1 as u64) == (u2 as u64) ==> u1 == u2) by (bit_vector);
    assert(sa[169] == a.milestones_total && sb[169] == b.milestones_total);
    assert(sa[170] == a.milestones_completed && sb[170] == b.milestones_completed);
    assert(sa[171] == bool_byte(a.auto_release_on_expiry) && sb[171] == bool_byte(
        b.auto_release_on_expiry,
    ));
    assert(sa[212] == bool_byte(a.released) && sb[212] == bool_byte(b.released));
    assert(sa[213] == bool_byte(a.refunded) && sb[213] == bool_byte(b.refunded));
}

/// Every contract's encoding is well-formed, so encoding then decoding
/// gives the record back.
pub proof fn lemma_contract_encoding_valid(c: Contract)
    ensures
        is_contract_encoding(contract_bytes(c)),
{
    lemma_auto_spec_u64_to_from_le_bytes();
    let s = contract_bytes(c);
    assert(s[171] == bool_byte(c.auto_release_on_expiry));
    assert(s[212] == bool_byte(c.released));
    assert(s[213] == bool_byte(c.refunded));
}

/// The encoding of a trust score: the tag, the rater, the counterparty,
/// the score, the touch time.
pub open spec fn trust_score_bytes(t: TrustScore) -> Seq<u8> {
    seq![TRUST_SCORE_TAG] + t.authority.bytes@ + t.counterparty.bytes@ + spec_u16_to_le_bytes(
        t.score,
    ) + i64_le_bytes(t.updated_at)
}

/// Whether `s` is a well-formed trust-score encoding: the exact length and
/// the right tag. Every field's bytes are free.
pub open spec fn is_trust_score_encoding(s: Seq<u8>) -> bool {
    s.len() == TRUST_SCORE_ENCODING_LEN && s[0] == TRUST_SCORE_TAG
}

/// Encode a trust score into its persisted layout.
pub fn encode_trust_score(t: &TrustScore) -> (out: Vec<u8>)
    ensures
        out@ == trust_score_bytes(*t),
{
    let mut out: Vec<u8> = Vec::new();
    out.push(TRUST_SCORE_TAG);
    push_bytes32(&mut out, &t.authority.bytes);
    push_bytes32(&mut out, &t.counterparty.bytes);
    push_u16_le(&mut out, t.score);
    push_i64_le(&mut out, t.updated_at);
    proof {
        assert(out@ =~= trust_score_bytes(*t));
    }
    out
}

/// Decode a persisted trust score.
///
/// Succeeds exactly on the well-formed encodings, and the decoded record
/// is the one whose encoding the input is.
pub fn decode_trust_score(s: &[u8]) -> (r: Option<TrustScore>)
    ensures
        r is Some <==> is_trust_score_encoding(s@),
        r matches Some(t) ==> s@ == trust_score_bytes(t),
{
    if s.len() != TRUST_SCORE_ENCODING_LEN {
        return None;
    }
    if s[0] != TRUST_SCORE_TAG {
        return None;
    }
    let t = TrustScore {
        authority: Pubkey { bytes: read_bytes32(s, 1) },
        counterparty: Pubkey { bytes: read_bytes32(s, 33) },
        score: read_u16_le(s, 65),
        updated_at: read_i64_le(s, 67),
    };
    proof {
        lemma_auto_spec_u16_to_from_le_bytes();
        lemma_auto_spec_u64_to_from_le_bytes();
        let x = spec_u64_from_le_bytes(s@.subrange(67, 75));
        assert((x as i64) as u64 == x) by (bit_vector);
        assert(trust_score_bytes(t) =~= s@);
    }
    Some(t)
}

/// The encoding is injective: two trust scores with the same bytes are the
/// same record, so a decoder loses nothing.
pub proof fn lemma_trust_score_bytes_injective(a: TrustScore, b: TrustScore)
    requires
        trust_score_bytes(a) == trust_score_bytes(b),
    ensures
        a == b,
{
    lemma_auto_spec_u16_to_from_le_bytes();
    lemma_auto_spec_u64_to_from_le_bytes();
    let sa = trust_score_bytes(a);
    let sb = trust_score_bytes(b);
    assert forall|i: int| 0 <= i < 32 implies a.authority.bytes@[i] == b.authority.bytes@[i] by {
        assert(sa[1 + i] == a.authority.bytes@[i]);
        assert(sb[1 + i] == b.authority.bytes@[i]);
    }
    assert(a.authority.bytes =~= b.authority.bytes);
    assert forall|i: int| 0 <= i < 32 implies a.counterparty.bytes@[i]
        == b.counterparty.bytes@[i] by {
        assert(sa[33 + i] == a.counterparty.bytes@[i]);
        assert(sb[33 + i] == b.counterparty.bytes@[i]);
    }
    assert(a.counterparty.bytes =~= b.counterparty.bytes);
    assert forall|i: int| 0 <= i < 2 implies spec_u16_to_le_bytes(a.score)[i]
        == spec_u16_to_le_bytes(b.score)[i] by {
        assert(sa[65 + i] == spec_u16_to_le_bytes(a.score)[i]);
        assert(sb[65 + i] == spec_u16_to_le_bytes(b.score)[i]);
    }
    assert(spec_u16_to_le_bytes(a.score) =~= spec_u16_to_le_bytes(b.score));
    assert(a.score == b.score);
    assert forall|i: int| 0 <= i < 8 implies i64_le_bytes(a.updated_at)[i] == i64_le_bytes(
        b.updated_at,
    )[i] by {
        assert(sa[67 + i] == i64_le_bytes(a.updated_at)[i]);
        assert(sb[67 + i] == i64_le_bytes(b.updated_at)[i]);
    }
    assert(i64_le_bytes(a.updated_at) =~= i64_le_bytes(b.updated_at));
    let xa = a.updated_at;
    let xb = b.updated_at;
    assert((xa as u64) == (xb as u64) ==> xa == xb) by (bit_vector);
}

/// Every trust score's encoding is well-formed, so encoding then decoding
/// gives the record back.
pub proof fn lemma_trust_score_encoding_valid(t: TrustScore)
    ensures
        is_trust_score_encoding(trust_score_bytes(t)),
{
    lemma_auto_spec_u16_to_from_le_bytes();
    lemma_auto_spec_u64_to_from_le_bytes();
}

/// The encoding of an oracle flag: the tag, the attestation, the attesting
/// identity, the touch time.
pub open spec fn oracle_flag_bytes(f: OracleFlag) -> Seq<u8> {
    seq![ORACLE_FLAG_TAG, bool_byte(f.shipment_verified)] + f.updated_by.bytes@ + i64_le_bytes(
        f.updated_at,
    )
}

/// Whether `s` is a well-formed oracle-flag encoding: the exact length,
/// the right tag, and a canonical boolean byte.
pub open spec fn is_oracle_flag_encoding(s: Seq<u8>) -> bool {
    s.len() == ORACLE_FLAG_ENCODING_LEN && s[0] == ORACLE_FLAG_TAG && (s[1] == 0 || s[1] == 1)
}

/// Encode an oracle flag into its persisted layout.
pub fn encode_oracle_flag(f: &OracleFlag) -> (out: Vec<u8>)
    ensures
        out@ == oracle_flag_bytes(*f),
{
    let mut out: Vec<u8> = Vec::new();
    out.push(ORACLE_FLAG_TAG);
    out.push(if f.shipment_verified { 1 } else { 0 });
    push_bytes32(&mut out, &f.updated_by.bytes);
    push_i64_le(&mut out, f.updated_at);
    proof {
        assert(out@ =~= oracle_flag_bytes(*f));
    }
    out
}

/// Decode a persisted oracle flag.
///
/// Succeeds exactly on the well-formed encodings, and the decoded record
/// is the one whose encoding the input is.
pub fn decode_oracle_flag(s: &[u8]) -> (r: Option<OracleFlag>)
    ensures
        r is Some <==> is_oracle_flag_encoding(s@),
        r matches Some(f) ==> s@ == oracle_flag_bytes(f),
{
    if s.len() != ORACLE_FLAG_ENCODING_LEN {
        return None;
    }
    if s[0] != ORACLE_FLAG_TAG {
        return None;
    }
    if s[1] > 1 {
        return None;
    }
    let f = OracleFlag {
        shipment_verified: s[1] == 1,
        updated_by: Pubkey { bytes: read_bytes32(s, 2) },
        updated_at: read_i64_le(s, 34),
    };
    proof {
        lemma_auto_spec_u64_to_from_le_bytes();
        let x = spec_u64_from_le_bytes(s@.subrange(34, 42));
        assert((x as i64) as u64 == x) by (bit_vector);
        assert(oracle_flag_bytes(f) =~= s@);
    }
    Some(f)
}

/// The encoding is injective: two oracle flags with the same bytes are
/// the same record, so a decoder loses nothing.
pub proof fn lemma_oracle_flag_bytes_injective(a: OracleFlag, b: OracleFlag)
    requires
        oracle_flag_bytes(a) == oracle_flag_bytes(b),
    ensures
        a == b,
{
    lemma_auto_spec_u64_to_from_le_bytes();
    let sa = oracle_flag_bytes(a);
    let sb = oracle_flag_bytes(b);
    assert(sa[1] == bool_byte(a.shipment_verified) && sb[1] == bool_byte(b.shipment_verified));
    assert forall|i: int| 0 <= i < 32 implies a.updated_by.bytes@[i] == b.updated_by.bytes@[i] by {
        assert(sa[2 + i] == a.updated_by.bytes@[i]);
        assert(sb[2 + i] == b.updated_by.bytes@[i]);
    }
    assert(a.updated_by.bytes =~= b.updated_by.bytes);
    assert forall|i: int| 0 <= i < 8 implies i64_le_bytes(a.updated_at)[i] == i64_le_bytes(
        b.updated_at,
    )[i] by {
        assert(sa[34 + i] == i64_le_bytes(a.updated_at)[i]);
        assert(sb[34 + i] == i64_le_bytes(b.updated_at)[i]);
    }
    assert(i64_le_bytes(a.updated_at) =~= i64_le_bytes(b.updated_at));
    let (xa, xb) = (a.updated_at, b.updated_at);
    assert((xa as u64) == (xb as u64) ==> xa == xb) by (bit_vector);
}

/// Every oracle flag's encoding is well-formed, so encoding then decoding
/// gives the record back.
pub proof fn lemma_oracle_flag_encoding_valid(f: OracleFlag)
    ensures
        is_oracle_flag_encoding(oracle_flag_bytes(f)),
{
    lemma_auto_spec_u64_to_from_le_bytes();
    assert(oracle_flag_bytes(f)[1] == bool_byte(f.shipment_verified));
}

} // verus!
