use vstd::prelude::*;
use vstd::bytes::{spec_u64_to_le_bytes, u64_from_le_bytes, u64_to_le_bytes};

verus! {

/// An account identity: a fixed-width binary handle.
pub type Address = [u8; 32];

/// Number of bytes of a stored vault record.
pub const VAULT_LEN: usize = 145;

/// Loan-to-value ratio, in percent, given to every new vault.
pub const DEFAULT_LTV_RATIO: u8 = 70;

/// The persistent record of one collateral position.
#[derive(Debug, Clone, Copy)]
pub struct Vault {
    pub owner: Address,
    pub zbtc_mint: Address,
    pub zusd_mint: Address,
    pub zbtc_vault: Address,
    pub locked_zbtc_amount: u64,
    pub minted_zusd_amount: u64,
    /// Loan-to-value ratio in percent (70 means 70%).
    pub ltv_ratio: u8,
}

/// The stored form of a record: the four identities, the two amounts as
/// eight-byte little-endian integers, and the ratio as one byte, in that order.
pub open spec fn spec_encode(v: Vault) -> Seq<u8> {
    v.owner@ + v.zbtc_mint@ + v.zusd_mint@ + v.zbtc_vault@
        + spec_u64_to_le_bytes(v.locked_zbtc_amount)
        + spec_u64_to_le_bytes(v.minted_zusd_amount) + seq![v.ltv_ratio]
}

/// The record held in the first `VAULT_LEN` bytes of `data`, if there are that many.
pub open spec fn spec_decode(data: Seq<u8>) -> Option<Vault> {
    if data.len() < VAULT_LEN {
        None
    } else {
        Some(choose|v: Vault| spec_encode(v) == data.subrange(0, VAULT_LEN as int))
    }
}

/// Different records have different stored forms.
pub proof fn lemma_encode_injective(a: Vault, b: Vault)
    requires
        spec_encode(a) == spec_encode(b),
    ensures
        a == b,
{
    vstd::bytes::lemma_auto_spec_u64_to_from_le_bytes();
    let s = spec_encode(a);
    let t = spec_encode(b);
    assert(a.owner@ =~= s.subrange(0, 32));
    assert(b.owner@ =~= t.subrange(0, 32));
    assert(a.zbtc_mint@ =~= s.subrange(32, 64));
    assert(b.zbtc_mint@ =~= t.subrange(32, 64));
    assert(a.zusd_mint@ =~= s.subrange(64, 96));
    assert(b.zusd_mint@ =~= t.subrange(64, 96));
    assert(a.zbtc_vault@ =~= s.subrange(96, 128));
    assert(b.zbtc_vault@ =~= t.subrange(96, 128));
    assert(spec_u64_to_le_bytes(a.locked_zbtc_amount) =~= s.subrange(128, 136));
    assert(spec_u64_to_le_bytes(b.locked_zbtc_amount) =~= t.subrange(128, 136));
    assert(spec_u64_to_le_bytes(a.minted_zusd_amount) =~= s.subrange(136, 144));
    assert(spec_u64_to_le_bytes(b.minted_zusd_amount) =~= t.subrange(136, 144));
    assert(s[144] == a.ltv_ratio);
    assert(t[144] == b.ltv_ratio);
    assert(a.owner =~= b.owner);
    assert(a.zbtc_mint =~= b.zbtc_mint);
    assert(a.zusd_mint =~= b.zusd_mint);
    assert(a.zbtc_vault =~= b.zbtc_vault);
    assert(vstd::bytes::spec_u64_from_le_bytes(spec_u64_to_le_bytes(a.locked_zbtc_amount))
        == a.locked_zbtc_amount);
}

/// Reading back a stored record gives the record.
pub proof fn lemma_decode_encode(v: Vault)
    ensures
        spec_decode(spec_encode(v)) == Some(v),
{
    vstd::bytes::lemma_auto_spec_u64_to_from_le_bytes();
    let s = spec_encode(v);
    assert(s.len() == VAULT_LEN);
    assert(s.subrange(0, VAULT_LEN as int) =~= s);
    let w = choose|w: Vault| spec_encode(w) == s.subrange(0, VAULT_LEN as int);
    lemma_encode_injective(v, w);
}

/// Appends the bytes of `s` to `out`.
fn push_all(out: &mut Vec<u8>, s: &[u8])
    ensures
        final(out)@ == old(out)@ + s@,
{
    let mut i: usize = 0;
    while i < s.len()
        invariant
            i <= s@.len(),
            out@ == old(out)@ + s@.subrange(0, i as int),
        decreases s@.len() - i,
    {
        out.push(s[i]);
        i = i + 1;
        assert(s@.subrange(0, i as int) == s@.subrange(0, i - 1 as int).push(s@[i - 1]));
    }
    assert(s@.subrange(0, s@.len() as int) == s@);
}

/// Copies the 32 bytes of `data` that start at `start` into an identity.
fn read_address(data: &[u8], start: usize) -> (r: Address)
    requires
        start + 32 <= data@.len(),
    ensures
        r@ == data@.subrange(start as int, start + 32),
{
    let len = data.len();
    let mut r: Address = [0u8; 32];
    let mut i: usize = 0;
    while i < 32
        invariant
            i <= 32,
            start + 32 <= len,
            len == data@.len(),
            r@.len() == 32,
            forall|j: int| 0 <= j < i ==> r@[j] == data@[start + j],
        decreases 32 - i,
    {
        r[i] = data[start + i];
        i = i + 1;
    }
    assert(r@ == data@.subrange(start as int, start + 32));
    r
}

/// Reads the eight-byte little-endian integer of `data` that starts at `start`.
fn read_amount(data: &[u8], start: usize) -> (r: u64)
    requires
        start + 8 <= data@.len(),
    ensures
        spec_u64_to_le_bytes(r) == data@.subrange(start as int, start + 8),
{
    let len = data.len();
    assert(start + 8 <= len);
    let bytes = vstd::slice::slice_subrange(data, start, start + 8);
    let r = u64_from_le_bytes(bytes);
    proof {
        vstd::bytes::lemma_auto_spec_u64_to_from_le_bytes();
    }
    r
}

impl Vault {
    /// A fresh record: the given identities, nothing locked, nothing minted.
    pub fn new(owner: Address, zbtc_mint: Address, zusd_mint: Address, zbtc_vault: Address) -> (r:
        Vault)
        ensures
            r.owner == owner,
            r.zbtc_mint == zbtc_mint,
            r.zusd_mint == zusd_mint,
            r.zbtc_vault == zbtc_vault,
            r.locked_zbtc_amount == 0,
            r.minted_zusd_amount == 0,
            r.ltv_ratio == DEFAULT_LTV_RATIO,
    {
        Vault {
            owner,
            zbtc_mint,
            zusd_mint,
            zbtc_vault,
            locked_zbtc_amount: 0,
            minted_zusd_amount: 0,
            ltv_ratio: DEFAULT_LTV_RATIO,
        }
    }

    /// The stored form of this record.
    pub fn encode(&self) -> (r: Vec<u8>)
        ensures
            r@ == spec_encode(*self),
            r@.len() == VAULT_LEN,
    {
        let mut out: Vec<u8> = Vec::new();
        push_all(&mut out, self.owner.as_slice());
        push_all(&mut out, self.zbtc_mint.as_slice());
        push_all(&mut out, self.zusd_mint.as_slice());
        push_all(&mut out, self.zbtc_vault.as_slice());
        let locked = u64_to_le_bytes(self.locked_zbtc_amount);
        push_all(&mut out, locked.as_slice());
        let minted = u64_to_le_bytes(self.minted_zusd_amount);
        push_all(&mut out, minted.as_slice());
        out.push(self.ltv_ratio);
        proof {
            vstd::bytes::lemma_auto_spec_u64_to_from_le_bytes();
        }
        out
    }

    /// Reads a record from the first `VAULT_LEN` bytes of `data`; bytes after
    /// them are not part of the record. `None` when `data` is shorter.
    pub fn decode(data: &[u8]) -> (r: Option<Vault>)
        ensures
            r == spec_decode(data@),
    {
        if data.len() < VAULT_LEN {
            return None;
        }
        let v = Vault {
            owner: read_address(data, 0),
            zbtc_mint: read_address(data, 32),
            zusd_mint: read_address(data, 64),
            zbtc_vault: read_address(data, 96),
            locked_zbtc_amount: read_amount(data, 128),
            minted_zusd_amount: read_amount(data, 136),
            ltv_ratio: data[144],
        };
        proof {
            vstd::bytes::lemma_auto_spec_u64_to_from_le_bytes();
            assert(spec_encode(v) =~= data@.subrange(0, VAULT_LEN as int));
            let w = choose|w: Vault| spec_encode(w) == data@.subrange(0, VAULT_LEN as int);
            lemma_encode_injective(v, w);
        }
        Some(v)
    }
}

} // verus!
