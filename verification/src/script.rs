//! Script byte forms: the script types, the rendering of keys and scripts
//! into each output category, and the byte-level classification of an
//! existing script-pubkey.

use vstd::prelude::*;
use crate::bytes::{bytes_eq, copy_bytes, push_all};
use crate::hashes::{hash160, hash160_of, sha256, sha256_of};
use crate::keys::Pubkey;

verus! {

/// An arbitrary script taking part in a commitment as source data.
#[derive(Debug)]
pub struct LockScript {
    bytes: Vec<u8>,
}

impl View for LockScript {
    type V = Seq<u8>;

    closed spec fn view(&self) -> Seq<u8> {
        self.bytes@
    }
}

impl LockScript {
    /// Wraps arbitrary script bytes.
    pub fn from_vec(bytes: Vec<u8>) -> (r: LockScript)
        ensures
            r@ == bytes@,
    {
        LockScript { bytes }
    }

    /// The raw script bytes.
    pub fn as_bytes(&self) -> (r: &Vec<u8>)
        ensures
            r@ == self@,
    {
        &self.bytes
    }
}

impl Clone for LockScript {
    fn clone(&self) -> (r: Self)
        ensures
            r@ == self@,
    {
        LockScript { bytes: copy_bytes(&self.bytes) }
    }
}

impl PartialEq for LockScript {
    fn eq(&self, other: &Self) -> (r: bool) {
        bytes_eq(&self.bytes, &other.bytes)
    }
}

impl vstd::std_specs::cmp::PartialEqSpecImpl for LockScript {
    open spec fn obeys_eq_spec() -> bool {
        true
    }

    open spec fn eq_spec(&self, other: &LockScript) -> bool {
        self@ == other@
    }
}

/// The locking script of a transaction output.
#[derive(Debug)]
pub struct PubkeyScript {
    bytes: Vec<u8>,
}

impl View for PubkeyScript {
    type V = Seq<u8>;

    closed spec fn view(&self) -> Seq<u8> {
        self.bytes@
    }
}

impl PubkeyScript {
    /// Wraps arbitrary script-pubkey bytes.
    pub fn from_vec(bytes: Vec<u8>) -> (r: PubkeyScript)
        ensures
            r@ == bytes@,
    {
        PubkeyScript { bytes }
    }

    /// The raw script bytes.
    pub fn as_bytes(&self) -> (r: &Vec<u8>)
        ensures
            r@ == self@,
    {
        &self.bytes
    }
}

impl Clone for PubkeyScript {
    fn clone(&self) -> (r: Self)
        ensures
            r@ == self@,
    {
        PubkeyScript { bytes: copy_bytes(&self.bytes) }
    }
}

impl PartialEq for PubkeyScript {
    fn eq(&self, other: &Self) -> (r: bool) {
        bytes_eq(&self.bytes, &other.bytes)
    }
}

impl vstd::std_specs::cmp::PartialEqSpecImpl for PubkeyScript {
    open spec fn obeys_eq_spec() -> bool {
        true
    }

    open spec fn eq_spec(&self, other: &PubkeyScript) -> bool {
        self@ == other@
    }
}

/// The rendering style that turns a key or a script into a script-pubkey.
#[derive(Clone, Copy, PartialEq, Eq, Structural, Debug)]
pub enum Category {
    /// The key or script stands in the script-pubkey itself.
    Bare,
    /// A pay-to-hash form: P2PKH for keys, P2SH for scripts.
    Hashed,
    /// A native version-0 witness program: P2WPKH for keys, P2WSH for scripts.
    SegWit,
    /// A version-0 witness program wrapped in P2SH.
    Nested,
}

/// P2SH: `OP_HASH160 <20-byte hash> OP_EQUAL`.
pub open spec fn p2sh_spec(inner: Seq<u8>) -> Seq<u8> {
    seq![0xa9u8, 0x14u8] + hash160_of(inner)@ + seq![0x87u8]
}

/// P2PK: a push of the compressed key followed by OP_CHECKSIG.
pub open spec fn pk_bare_spec(k: Seq<u8>) -> Seq<u8> {
    seq![0x21u8] + k + seq![0xacu8]
}

/// P2PKH: `OP_DUP OP_HASH160 <20-byte key hash> OP_EQUALVERIFY OP_CHECKSIG`.
pub open spec fn pk_hashed_spec(k: Seq<u8>) -> Seq<u8> {
    seq![0x76u8, 0xa9u8, 0x14u8] + hash160_of(k)@ + seq![0x88u8, 0xacu8]
}

/// P2WPKH: a version-0 witness program over the 20-byte key hash.
pub open spec fn pk_segwit_spec(k: Seq<u8>) -> Seq<u8> {
    seq![0x00u8, 0x14u8] + hash160_of(k)@
}

/// P2SH-wrapped P2WPKH.
pub open spec fn pk_nested_spec(k: Seq<u8>) -> Seq<u8> {
    p2sh_spec(pk_segwit_spec(k))
}

/// `OP_RETURN` followed by a push of the 33-byte compressed key.
pub open spec fn pk_opreturn_spec(k: Seq<u8>) -> Seq<u8> {
    seq![0x6au8, 0x21u8] + k
}

/// P2WSH: a version-0 witness program over the 32-byte script hash.
pub open spec fn script_segwit_spec(s: Seq<u8>) -> Seq<u8> {
    seq![0x00u8, 0x20u8] + sha256_of(s)@
}

/// P2SH-wrapped P2WSH.
pub open spec fn script_nested_spec(s: Seq<u8>) -> Seq<u8> {
    p2sh_spec(script_segwit_spec(s))
}

/// The script-pubkey that renders a public key in the given category.
pub open spec fn pubkey_script_spec(k: Seq<u8>, category: Category) -> Seq<u8> {
    match category {
        Category::Bare => pk_bare_spec(k),
        Category::Hashed => pk_hashed_spec(k),
        Category::SegWit => pk_segwit_spec(k),
        Category::Nested => pk_nested_spec(k),
    }
}

/// The script-pubkey that renders a script in the given category.
pub open spec fn lockscript_script_spec(s: Seq<u8>, category: Category) -> Seq<u8> {
    match category {
        Category::Bare => s,
        Category::Hashed => p2sh_spec(s),
        Category::SegWit => script_segwit_spec(s),
        Category::Nested => script_nested_spec(s),
    }
}

/// Renders a P2SH script-pubkey around the given redeem-script bytes.
fn render_p2sh(inner: &Vec<u8>) -> (r: Vec<u8>)
    ensures
        r@ == p2sh_spec(inner@),
{
    let mut v: Vec<u8> = Vec::new();
    v.push(0xa9);
    v.push(0x14);
    let h = hash160(inner.as_slice());
    push_all(&mut v, &h);
    v.push(0x87);
    proof {
        assert(v@ =~= p2sh_spec(inner@));
    }
    v
}

/// Renders a public key into a script-pubkey of the given category.
pub fn pubkey_to_script(pk: &Pubkey, category: Category) -> (r: PubkeyScript)
    ensures
        r@ == pubkey_script_spec(pk@, category),
{
    match category {
        Category::Bare => {
            let mut v: Vec<u8> = Vec::new();
            v.push(0x21);
            push_all(&mut v, pk.as_bytes());
            v.push(0xac);
            proof {
                assert(v@ =~= pk_bare_spec(pk@));
            }
            PubkeyScript { bytes: v }
        },
        Category::Hashed => {
            let mut v: Vec<u8> = Vec::new();
            v.push(0x76);
            v.push(0xa9);
            v.push(0x14);
            let h = hash160(pk.as_bytes().as_slice());
            push_all(&mut v, &h);
            v.push(0x88);
            v.push(0xac);
            proof {
                assert(v@ =~= pk_hashed_spec(pk@));
            }
            PubkeyScript { bytes: v }
        },
        Category::SegWit => {
            PubkeyScript { bytes: witness_program_for_key(pk) }
        },
        Category::Nested => {
            let program = witness_program_for_key(pk);
            PubkeyScript { bytes: render_p2sh(&program) }
        },
    }
}

/// The version-0 witness program of a key: `0x00 0x14 <hash160 of the key>`.
fn witness_program_for_key(pk: &Pubkey) -> (r: Vec<u8>)
    ensures
        r@ == pk_segwit_spec(pk@),
{
    let mut v: Vec<u8> = Vec::new();
    v.push(0x00);
    v.push(0x14);
    let h = hash160(pk.as_bytes().as_slice());
    push_all(&mut v, &h);
    proof {
        assert(v@ =~= pk_segwit_spec(pk@));
    }
    v
}

/// Renders a public key into an OP_RETURN script-pubkey.
pub fn pubkey_to_op_return(pk: &Pubkey) -> (r: PubkeyScript)
    ensures
        r@ == pk_opreturn_spec(pk@),
{
    let mut v: Vec<u8> = Vec::new();
    v.push(0x6a);
    v.push(0x21);
    push_all(&mut v, pk.as_bytes());
    proof {
        assert(v@ =~= pk_opreturn_spec(pk@));
    }
    PubkeyScript { bytes: v }
}

/// Renders a script into a script-pubkey of the given category.
pub fn lockscript_to_script(script: &LockScript, category: Category) -> (r: PubkeyScript)
    ensures
        r@ == lockscript_script_spec(script@, category),
{
    match category {
        Category::Bare => {
            PubkeyScript { bytes: copy_bytes(&script.bytes) }
        },
        Category::Hashed => {
            PubkeyScript { bytes: render_p2sh(&script.bytes) }
        },
        Category::SegWit => {
            PubkeyScript { bytes: witness_program_for_script(script) }
        },
        Category::Nested => {
            let program = witness_program_for_script(script);
            PubkeyScript { bytes: render_p2sh(&program) }
        },
    }
}

/// The version-0 witness program of a script: `0x00 0x20 <sha256 of it>`.
fn witness_program_for_script(script: &LockScript) -> (r: Vec<u8>)
    ensures
        r@ == script_segwit_spec(script@),
{
    let mut v: Vec<u8> = Vec::new();
    v.push(0x00);
    v.push(0x20);
    let h = sha256(script.bytes.as_slice());
    push_all(&mut v, &h);
    proof {
        assert(v@ =~= script_segwit_spec(script@));
    }
    v
}

/// The coarse shape of an existing script-pubkey.
#[derive(Clone, Copy, PartialEq, Eq, Structural, Debug)]
pub enum ScriptCategory {
    /// Any script not matching a standard form.
    Bare,
    /// Pay-to-script-hash.
    Sh,
    /// Pay-to-public-key.
    Pk,
    /// Pay-to-public-key-hash.
    Pkh,
    /// Version-0 witness program over a key hash.
    Wpkh,
    /// Version-0 witness program over a script hash.
    Wsh,
    /// Version-1 witness program (taproot).
    Taproot,
}

pub open spec fn is_p2sh_spec(s: Seq<u8>) -> bool {
    s.len() == 23 && s[0] == 0xa9 && s[1] == 0x14 && s[22] == 0x87
}

pub open spec fn is_p2pkh_spec(s: Seq<u8>) -> bool {
    s.len() == 25 && s[0] == 0x76 && s[1] == 0xa9 && s[2] == 0x14 && s[23] == 0x88 && s[24] == 0xac
}

pub open spec fn is_p2pk_spec(s: Seq<u8>) -> bool {
    (s.len() == 67 && s[0] == 0x41 && s[66] == 0xac) || (s.len() == 35 && s[0] == 0x21 && s[34]
        == 0xac)
}

pub open spec fn is_wpkh_spec(s: Seq<u8>) -> bool {
    s.len() == 22 && s[0] == 0x00 && s[1] == 0x14
}

pub open spec fn is_wsh_spec(s: Seq<u8>) -> bool {
    s.len() == 34 && s[0] == 0x00 && s[1] == 0x20
}

pub open spec fn is_taproot_spec(s: Seq<u8>) -> bool {
    s.len() == 34 && s[0] == 0x51 && s[1] == 0x20
}

/// Whether the script is an OP_RETURN output.
pub open spec fn is_op_return_spec(s: Seq<u8>) -> bool {
    s.len() > 0 && s[0] == 0x6a
}

/// The category of a script-pubkey, decided by its byte shape alone; any
/// script matching no standard form is bare.
pub open spec fn classify_spec(s: Seq<u8>) -> ScriptCategory {
    if is_p2sh_spec(s) {
        ScriptCategory::Sh
    } else if is_p2pkh_spec(s) {
        ScriptCategory::Pkh
    } else if is_p2pk_spec(s) {
        ScriptCategory::Pk
    } else if is_wpkh_spec(s) {
        ScriptCategory::Wpkh
    } else if is_wsh_spec(s) {
        ScriptCategory::Wsh
    } else if is_taproot_spec(s) {
        ScriptCategory::Taproot
    } else {
        ScriptCategory::Bare
    }
}

/// Classifies a script-pubkey by its byte shape.
pub fn classify(script: &PubkeyScript) -> (r: ScriptCategory)
    ensures
        r == classify_spec(script@),
{
    let s = &script.bytes;
    let n = s.len();
    if n == 23 && s[0] == 0xa9 && s[1] == 0x14 && s[22] == 0x87 {
        ScriptCategory::Sh
    } else if n == 25 && s[0] == 0x76 && s[1] == 0xa9 && s[2] == 0x14 && s[23] == 0x88 && s[24]
        == 0xac {
        ScriptCategory::Pkh
    } else if (n == 67 && s[0] == 0x41 && s[66] == 0xac) || (n == 35 && s[0] == 0x21 && s[34]
        == 0xac) {
        ScriptCategory::Pk
    } else if n == 22 && s[0] == 0x00 && s[1] == 0x14 {
        ScriptCategory::Wpkh
    } else if n == 34 && s[0] == 0x00 && s[1] == 0x20 {
        ScriptCategory::Wsh
    } else if n == 34 && s[0] == 0x51 && s[1] == 0x20 {
        ScriptCategory::Taproot
    } else {
        ScriptCategory::Bare
    }
}

/// Whether the script-pubkey is an OP_RETURN output.
pub fn is_op_return(script: &PubkeyScript) -> (r: bool)
    ensures
        r == is_op_return_spec(script@),
{
    script.bytes.len() > 0 && script.bytes[0] == 0x6a
}

} // verus!
