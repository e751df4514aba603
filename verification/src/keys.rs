//! Secp256k1 public keys as compressed 33-byte values, and deterministically
//! ordered sets of them. Elliptic-curve operations are consumed as black
//! boxes; ordering, membership and mutation of the key set are verified.

use vstd::prelude::*;
use crate::bytes::{bytes_eq, copy_bytes};

verus! {

/// Whether secp256k1 accepts these bytes as a public-key encoding.
pub uninterp spec fn parses_as_pubkey(b: Seq<u8>) -> bool;

/// The compressed serialization of the elliptic-curve sum of two public keys
/// (each given by its serialization), or `None` when the sum is the point at
/// infinity.
pub uninterp spec fn combine_of(a: Seq<u8>, b: Seq<u8>) -> Option<[u8; 33]>;

/// The compressed serialization of `k + f*G`, or `None` when `f` is not a
/// valid scalar or the shifted point is invalid.
pub uninterp spec fn tweak_of(k: Seq<u8>, f: Seq<u8>) -> Option<[u8; 33]>;

/// Strict lexicographic order on byte strings: the canonical order of a key
/// set, matching the ordering of compressed key serializations.
pub open spec fn lex_lt(a: Seq<u8>, b: Seq<u8>) -> bool
    decreases a.len(),
{
    if b.len() == 0 {
        false
    } else if a.len() == 0 {
        true
    } else if a[0] < b[0] {
        true
    } else if a[0] > b[0] {
        false
    } else {
        lex_lt(a.drop_first(), b.drop_first())
    }
}

proof fn lemma_lex_irrefl(a: Seq<u8>)
    ensures
        !lex_lt(a, a),
    decreases a.len(),
{
    if a.len() > 0 {
        lemma_lex_irrefl(a.drop_first());
    }
}

proof fn lemma_lex_asym(a: Seq<u8>, b: Seq<u8>)
    ensures
        !(lex_lt(a, b) && lex_lt(b, a)),
    decreases a.len(),
{
    if a.len() > 0 && b.len() > 0 && a[0] == b[0] {
        lemma_lex_asym(a.drop_first(), b.drop_first());
    }
}

proof fn lemma_lex_trichotomy(a: Seq<u8>, b: Seq<u8>)
    ensures
        lex_lt(a, b) || lex_lt(b, a) || a == b,
    decreases a.len(),
{
    if a.len() == 0 && b.len() == 0 {
        assert(a =~= b);
    } else if a.len() > 0 && b.len() > 0 && a[0] == b[0] {
        lemma_lex_trichotomy(a.drop_first(), b.drop_first());
        if a.drop_first() == b.drop_first() {
            assert(a.drop_first().len() == b.drop_first().len());
            assert(a.len() == b.len());
            assert forall|i: int| 0 <= i < a.len() implies a[i] == b[i] by {
                if i > 0 {
                    assert(a[i] == a.drop_first()[i - 1]);
                    assert(b[i] == b.drop_first()[i - 1]);
                }
            }
            assert(a =~= b);
        }
    }
}

proof fn lemma_lex_trans(a: Seq<u8>, b: Seq<u8>, c: Seq<u8>)
    requires
        lex_lt(a, b),
        lex_lt(b, c),
    ensures
        lex_lt(a, c),
    decreases a.len(),
{
    if a.len() > 0 && b.len() > 0 && c.len() > 0 && a[0] == b[0] && b[0] == c[0] {
        lemma_lex_trans(a.drop_first(), b.drop_first(), c.drop_first());
    }
}

/// Compares two byte vectors in lexicographic order.
pub(crate) fn lex_cmp_lt(a: &Vec<u8>, b: &Vec<u8>) -> (r: bool)
    ensures
        r == lex_lt(a@, b@),
{
    proof {
        assert(a@.skip(0) =~= a@);
        assert(b@.skip(0) =~= b@);
    }
    let mut i: usize = 0;
    while i < a.len() && i < b.len()
        invariant
            i <= a@.len(),
            i <= b@.len(),
            lex_lt(a@, b@) == lex_lt(a@.skip(i as int), b@.skip(i as int)),
        decreases a@.len() - i,
    {
        if a[i] < b[i] {
            proof {
                assert(a@.skip(i as int)[0] == a@[i as int]);
                assert(b@.skip(i as int)[0] == b@[i as int]);
            }
            return true;
        }
        if a[i] > b[i] {
            proof {
                assert(a@.skip(i as int)[0] == a@[i as int]);
                assert(b@.skip(i as int)[0] == b@[i as int]);
            }
            return false;
        }
        proof {
            assert(a@.skip(i as int)[0] == a@[i as int]);
            assert(b@.skip(i as int)[0] == b@[i as int]);
            assert(a@.skip(i as int).drop_first() =~= a@.skip(i as int + 1));
            assert(b@.skip(i as int).drop_first() =~= b@.skip(i as int + 1));
        }
        i = i + 1;
    }
    if i < b.len() {
        proof {
            assert(a@.skip(i as int).len() == 0);
            assert(b@.skip(i as int).len() > 0);
        }
        true
    } else {
        proof {
            assert(b@.skip(i as int).len() == 0);
        }
        false
    }
}

/// A secp256k1 public key, held as its compressed 33-byte serialization.
#[derive(Debug)]
pub struct Pubkey {
    bytes: Vec<u8>,
}

impl View for Pubkey {
    type V = Seq<u8>;

    closed spec fn view(&self) -> Seq<u8> {
        self.bytes@
    }
}

impl Pubkey {
    #[verifier::type_invariant]
    spec fn inv(self) -> bool {
        self.bytes@.len() == 33 && parses_as_pubkey(self.bytes@)
    }

    /// Wraps a compressed public-key serialization; rejects bytes that are
    /// not 33 bytes long or do not decode as a point on the curve.
    pub fn from_bytes(bytes: Vec<u8>) -> (r: Option<Pubkey>)
        ensures
            match r {
                Some(k) => k@ == bytes@ && bytes@.len() == 33 && parses_as_pubkey(bytes@),
                None => !(bytes@.len() == 33 && parses_as_pubkey(bytes@)),
            },
    {
        if bytes.len() == 33 && pubkey_decodes(&bytes) {
            Some(Pubkey { bytes })
        } else {
            None
        }
    }

    /// The compressed 33-byte serialization.
    pub fn as_bytes(&self) -> (r: &Vec<u8>)
        ensures
            r@ == self@,
            self@.len() == 33,
    {
        proof {
            use_type_invariant(self);
        }
        &self.bytes
    }
}

impl Clone for Pubkey {
    fn clone(&self) -> (r: Self)
        ensures
            r@ == self@,
    {
        proof {
            use_type_invariant(self);
        }
        Pubkey { bytes: copy_bytes(&self.bytes) }
    }
}

impl PartialEq for Pubkey {
    fn eq(&self, other: &Self) -> (r: bool) {
        bytes_eq(&self.bytes, &other.bytes)
    }
}

impl vstd::std_specs::cmp::PartialEqSpecImpl for Pubkey {
    open spec fn obeys_eq_spec() -> bool {
        true
    }

    open spec fn eq_spec(&self, other: &Pubkey) -> bool {
        self@ == other@
    }
}

/// Relies on secp256k1::PublicKey::from_slice: whether the bytes decode as a
/// public key depends on the bytes alone.
#[verifier::external_body]
fn pubkey_decodes(b: &Vec<u8>) -> (r: bool)
    ensures
        r == parses_as_pubkey(b@),
{
    bitcoin::secp256k1::PublicKey::from_slice(b.as_slice()).is_ok()
}

/// Relies on secp256k1::PublicKey::combine (elliptic-curve point addition):
/// it fails exactly when the sum is the point at infinity, and its result
/// depends on the two points alone.
#[verifier::external_body]
pub(crate) fn combine_pubkeys(a: &Pubkey, b: &Pubkey) -> (r: Option<Pubkey>)
    ensures
        match r {
            Some(k) => combine_of(a@, b@) matches Some(c) && c@ == k@,
            None => combine_of(a@, b@) is None,
        },
{
    let ka = bitcoin::secp256k1::PublicKey::from_slice(a.bytes.as_slice()).unwrap();
    let kb = bitcoin::secp256k1::PublicKey::from_slice(b.bytes.as_slice()).unwrap();
    match ka.combine(&kb) {
        Ok(k) => Some(Pubkey { bytes: k.serialize().to_vec() }),
        Err(_) => None,
    }
}

/// Relies on secp256k1::PublicKey::add_exp_assign: it shifts the point by
/// `f*G`, failing exactly when `f` is not a valid scalar or the result is an
/// invalid point; the outcome depends on the point and the factor alone.
#[verifier::external_body]
pub(crate) fn tweak_pubkey(k: &Pubkey, f: &Vec<u8>) -> (r: Option<Pubkey>)
    ensures
        match r {
            Some(t) => tweak_of(k@, f@) matches Some(c) && c@ == t@,
            None => tweak_of(k@, f@) is None,
        },
{
    let mut pk = bitcoin::secp256k1::PublicKey::from_slice(k.bytes.as_slice()).unwrap();
    match pk.add_exp_assign(bitcoin::secp256k1::SECP256K1, f.as_slice()) {
        Ok(()) => Some(Pubkey { bytes: pk.serialize().to_vec() }),
        Err(_) => None,
    }
}

/// The sorted set of keys with `k` inserted (unchanged when `k` is present).
pub open spec fn insert_sorted(s: Seq<Seq<u8>>, k: Seq<u8>) -> Seq<Seq<u8>>
    decreases s.len(),
{
    if s.len() == 0 {
        seq![k]
    } else if lex_lt(k, s[0]) {
        seq![k] + s
    } else if k == s[0] {
        s
    } else {
        seq![s[0]] + insert_sorted(s.drop_first(), k)
    }
}

/// The sorted set of keys with the first occurrence of `k` removed.
pub open spec fn remove_sorted(s: Seq<Seq<u8>>, k: Seq<u8>) -> Seq<Seq<u8>>
    decreases s.len(),
{
    if s.len() == 0 {
        s
    } else if s[0] == k {
        s.drop_first()
    } else {
        seq![s[0]] + remove_sorted(s.drop_first(), k)
    }
}

spec fn sorted_views(s: Seq<Seq<u8>>) -> bool {
    forall|i: int, j: int| 0 <= i < j < s.len() ==> lex_lt(#[trigger] s[i], #[trigger] s[j])
}

proof fn lemma_remove_sorted_at(s: Seq<Seq<u8>>, k: Seq<u8>, i: int)
    requires
        0 <= i < s.len(),
        s[i] == k,
        forall|j: int| 0 <= j < i ==> s[j] != k,
    ensures
        remove_sorted(s, k) == s.remove(i),
    decreases i,
{
    if i == 0 {
        assert(s.drop_first() =~= s.remove(0));
    } else {
        assert forall|j: int| 0 <= j < i - 1 implies s.drop_first()[j] != k by {
            assert(s.drop_first()[j] == s[j + 1]);
        }
        lemma_remove_sorted_at(s.drop_first(), k, i - 1);
        assert(seq![s[0]] + s.drop_first().remove(i - 1) =~= s.remove(i));
    }
}

proof fn lemma_remove_sorted_absent(s: Seq<Seq<u8>>, k: Seq<u8>)
    requires
        forall|j: int| 0 <= j < s.len() ==> s[j] != k,
    ensures
        remove_sorted(s, k) == s,
    decreases s.len(),
{
    if s.len() > 0 {
        assert forall|j: int| 0 <= j < s.drop_first().len() implies s.drop_first()[j] != k by {
            assert(s.drop_first()[j] == s[j + 1]);
        }
        lemma_remove_sorted_absent(s.drop_first(), k);
        assert(seq![s[0]] + s.drop_first() =~= s);
    }
}

proof fn lemma_sorted_tail(s: Seq<Seq<u8>>)
    requires
        sorted_views(s),
        s.len() > 0,
    ensures
        sorted_views(s.drop_first()),
{
    assert forall|x: int, y: int|
        0 <= x < y < s.drop_first().len() implies lex_lt(
        s.drop_first()[x],
        s.drop_first()[y],
    ) by {
        assert(s.drop_first()[x] == s[x + 1]);
        assert(s.drop_first()[y] == s[y + 1]);
        assert(lex_lt(s[x + 1], s[y + 1]));
    }
}

proof fn lemma_insert_sorted_at(s: Seq<Seq<u8>>, k: Seq<u8>, i: int)
    requires
        sorted_views(s),
        0 <= i <= s.len(),
        forall|j: int| 0 <= j < i ==> lex_lt(s[j], k),
        i < s.len() ==> !lex_lt(s[i], k),
    ensures
        insert_sorted(s, k) == if i < s.len() && s[i] == k {
            s
        } else {
            s.insert(i, k)
        },
    decreases i,
{
    if i == 0 {
        if s.len() == 0 {
            assert(insert_sorted(s, k) =~= s.insert(0, k));
        } else if s[0] == k {
        } else {
            lemma_lex_trichotomy(k, s[0]);
            assert(lex_lt(k, s[0]));
            assert(seq![k] + s =~= s.insert(0, k));
        }
    } else {
        assert(lex_lt(s[0], k));
        lemma_lex_irrefl(s[0]);
        lemma_lex_asym(s[0], k);
        assert(k != s[0] && !lex_lt(k, s[0]));
        lemma_sorted_tail(s);
        assert forall|j: int| 0 <= j < i - 1 implies lex_lt(s.drop_first()[j], k) by {
            assert(s.drop_first()[j] == s[j + 1]);
        }
        assert(i - 1 < s.drop_first().len() ==> !lex_lt(s.drop_first()[i - 1], k)) by {
            if i < s.len() {
                assert(s.drop_first()[i - 1] == s[i]);
            }
        }
        lemma_insert_sorted_at(s.drop_first(), k, i - 1);
        if i < s.len() && s[i] == k {
            assert(s.drop_first()[i - 1] == k);
            assert(seq![s[0]] + s.drop_first() =~= s);
        } else {
            assert(seq![s[0]] + s.drop_first().insert(i - 1, k) =~= s.insert(i, k));
        }
    }
}

proof fn lemma_ins_front(s: Seq<Seq<u8>>, k: Seq<u8>)
    requires
        s.len() == 0 || lex_lt(k, s[0]),
    ensures
        insert_sorted(s, k) == seq![k] + s,
{
    if s.len() == 0 {
        assert(seq![k] + s =~= seq![k]);
    }
}

proof fn lemma_ins_same(s: Seq<Seq<u8>>, k: Seq<u8>)
    requires
        s.len() > 0,
        k == s[0],
    ensures
        insert_sorted(s, k) == s,
{
    lemma_lex_irrefl(k);
}

proof fn lemma_ins_skip(s: Seq<Seq<u8>>, k: Seq<u8>)
    requires
        s.len() > 0,
        lex_lt(s[0], k),
    ensures
        insert_sorted(s, k) == seq![s[0]] + insert_sorted(s.drop_first(), k),
{
    lemma_lex_asym(s[0], k);
    lemma_lex_irrefl(k);
}

/// Law: the canonical order of a key set does not depend on insertion
/// order — inserting two keys in either order yields the same sequence, so
/// the elliptic-curve sum taken over it is reproducible however the set was
/// built.
pub proof fn lemma_insert_sorted_comm(s: Seq<Seq<u8>>, a: Seq<u8>, b: Seq<u8>)
    ensures
        insert_sorted(insert_sorted(s, a), b) == insert_sorted(insert_sorted(s, b), a),
    decreases s.len(),
{
    lemma_lex_irrefl(a);
    lemma_lex_irrefl(b);
    lemma_lex_trichotomy(a, b);
    lemma_lex_asym(a, b);
    let ia = insert_sorted(s, a);
    let ib = insert_sorted(s, b);
    if a == b {
    } else if s.len() == 0 {
        lemma_ins_front(s, a);
        lemma_ins_front(s, b);
        assert(ia[0] == a && ib[0] == b);
        assert(ia.drop_first() =~= s);
        assert(ib.drop_first() =~= s);
        if lex_lt(a, b) {
            lemma_ins_skip(ia, b);
            lemma_ins_front(ia.drop_first(), b);
            lemma_ins_front(ib, a);
            assert(seq![a] + (seq![b] + s) =~= seq![a] + ib);
            assert(insert_sorted(ia, b) =~= seq![a] + ib);
        } else {
            lemma_ins_skip(ib, a);
            lemma_ins_front(ib.drop_first(), a);
            lemma_ins_front(ia, b);
            assert(seq![b] + (seq![a] + s) =~= seq![b] + ia);
            assert(insert_sorted(ib, a) =~= seq![b] + ia);
        }
    } else {
        let h = s[0];
        let t = s.drop_first();
        lemma_lex_irrefl(h);
        lemma_lex_trichotomy(a, h);
        lemma_lex_asym(a, h);
        lemma_lex_trichotomy(b, h);
        lemma_lex_asym(b, h);
        if lex_lt(h, a) && lex_lt(h, b) {
            // Both keys land in the tail: the heads agree and the tails
            // commute by induction.
            lemma_ins_skip(s, a);
            lemma_ins_skip(s, b);
            assert(ia[0] == h && ib[0] == h);
            assert(ia.len() > 0 && ib.len() > 0);
            assert(ia.drop_first() =~= insert_sorted(t, a));
            assert(ib.drop_first() =~= insert_sorted(t, b));
            lemma_ins_skip(ia, b);
            lemma_ins_skip(ib, a);
            lemma_insert_sorted_comm(t, a, b);
        } else if lex_lt(a, h) && lex_lt(b, h) {
            lemma_ins_front(s, a);
            lemma_ins_front(s, b);
            assert(ia[0] == a && ib[0] == b);
            assert(ia.drop_first() =~= s);
            assert(ib.drop_first() =~= s);
            if lex_lt(a, b) {
                lemma_ins_skip(ia, b);
                lemma_ins_front(ia.drop_first(), b);
                lemma_ins_front(ib, a);
                assert(insert_sorted(ia, b) =~= seq![a] + ib);
            } else {
                lemma_ins_skip(ib, a);
                lemma_ins_front(ib.drop_first(), a);
                lemma_ins_front(ia, b);
                assert(insert_sorted(ib, a) =~= seq![b] + ia);
            }
        } else if lex_lt(a, h) && b == h {
            lemma_ins_front(s, a);
            lemma_ins_same(s, b);
            assert(ia[0] == a);
            assert(ia.drop_first() =~= s);
            lemma_ins_skip(ia, b);
            lemma_ins_front(ib, a);
            assert(insert_sorted(ia, b) =~= seq![a] + s);
            assert(insert_sorted(ib, a) =~= seq![a] + s);
        } else if b == h && lex_lt(h, a) {
            lemma_ins_same(s, b);
            lemma_ins_skip(s, a);
            assert(ia[0] == h);
            assert(ia.drop_first() =~= insert_sorted(t, a));
            lemma_ins_same(ia, b);
        } else if a == h && lex_lt(b, h) {
            lemma_ins_same(s, a);
            lemma_ins_front(s, b);
            assert(ib[0] == b);
            assert(ib.drop_first() =~= s);
            lemma_ins_skip(ib, a);
            lemma_ins_front(ia, b);
            assert(insert_sorted(ib, a) =~= seq![b] + s);
            assert(insert_sorted(ia, b) =~= seq![b] + s);
        } else if a == h && lex_lt(h, b) {
            lemma_ins_same(s, a);
            lemma_ins_skip(s, b);
            assert(ib[0] == h);
            assert(ib.drop_first() =~= insert_sorted(t, b));
            lemma_ins_same(ib, a);
        } else if lex_lt(a, h) && lex_lt(h, b) {
            lemma_lex_trans(a, h, b);
            lemma_ins_front(s, a);
            lemma_ins_skip(s, b);
            assert(ia[0] == a && ib[0] == h);
            assert(ia.drop_first() =~= s);
            lemma_ins_skip(ia, b);
            lemma_ins_front(ib, a);
            assert(insert_sorted(ia, b) =~= seq![a] + ib);
        } else {
            assert(lex_lt(b, h) && lex_lt(h, a));
            lemma_lex_trans(b, h, a);
            lemma_ins_front(s, b);
            lemma_ins_skip(s, a);
            assert(ib[0] == b && ia[0] == h);
            assert(ib.drop_first() =~= s);
            lemma_ins_skip(ib, a);
            lemma_ins_front(ia, b);
            assert(insert_sorted(ib, a) =~= seq![b] + ia);
        }
    }
}

/// A deterministically ordered set of public keys: the keys participating in
/// one commitment, kept sorted by their compressed serializations and free of
/// duplicates, so that the elliptic-curve sum is reproducible regardless of
/// insertion order.
#[derive(Debug)]
pub struct Keyset {
    keys: Vec<Pubkey>,
}

impl View for Keyset {
    type V = Seq<Seq<u8>>;

    closed spec fn view(&self) -> Seq<Seq<u8>> {
        self.keys@.map_values(|k: Pubkey| k@)
    }
}

impl Keyset {
    #[verifier::type_invariant]
    spec fn inv(self) -> bool {
        sorted_views(self.keys@.map_values(|k: Pubkey| k@))
    }

    /// The empty key set.
    pub fn new() -> (r: Keyset)
        ensures
            r@ == Seq::<Seq<u8>>::empty(),
    {
        let r = Keyset { keys: Vec::new() };
        proof {
            assert(r@ =~= Seq::<Seq<u8>>::empty());
        }
        r
    }

    /// The number of keys in the set.
    pub fn len(&self) -> (r: usize)
        ensures
            r == self@.len(),
    {
        self.keys.len()
    }

    /// The key at a position in the canonical order.
    pub fn key_at(&self, i: usize) -> (r: &Pubkey)
        requires
            i < self@.len(),
        ensures
            r@ == self@[i as int],
    {
        &self.keys[i]
    }

    /// Whether the set holds this key.
    pub fn contains(&self, pk: &Pubkey) -> (r: bool)
        ensures
            r == self@.contains(pk@),
    {
        let mut i: usize = 0;
        while i < self.keys.len()
            invariant
                i <= self@.len(),
                forall|j: int| 0 <= j < i ==> self@[j] != pk@,
            decreases self@.len() - i,
        {
            if bytes_eq(self.keys[i].as_bytes(), pk.as_bytes()) {
                proof {
                    assert(self@[i as int] == pk@);
                }
                return true;
            }
            i = i + 1;
        }
        proof {
            assert(forall|j: int| 0 <= j < self@.len() ==> self@[j] != pk@);
        }
        false
    }

    /// Inserts a key at its canonical position; returns whether the key was
    /// new to the set.
    pub fn insert(&mut self, pk: Pubkey) -> (r: bool)
        ensures
            final(self)@ == insert_sorted(old(self)@, pk@),
            r == !old(self)@.contains(pk@),
    {
        proof {
            use_type_invariant(&*self);
        }
        let ghost s: Seq<Seq<u8>> = self@;
        let mut keys: Vec<Pubkey> = Vec::new();
        core::mem::swap(&mut keys, &mut self.keys);
        let mut i: usize = 0;
        while i < keys.len()
            invariant
                i <= keys@.len(),
                forall|j: int| 0 <= j < i ==> lex_lt(#[trigger] keys@[j]@, pk@),
                keys@.map_values(|k: Pubkey| k@) == s,
            ensures
                i <= keys@.len(),
                forall|j: int| 0 <= j < i ==> lex_lt(#[trigger] keys@[j]@, pk@),
                i < keys@.len() ==> !lex_lt(keys@[i as int]@, pk@),
                keys@.map_values(|k: Pubkey| k@) == s,
            decreases keys@.len() - i,
        {
            if !lex_cmp_lt(keys[i].as_bytes(), pk.as_bytes()) {
                break;
            }
            i = i + 1;
        }
        proof {
            assert(forall|j: int| 0 <= j < i ==> lex_lt(#[trigger] s[j], pk@));
            assert(i < s.len() ==> !lex_lt(s[i as int], pk@));
        }
        if i < keys.len() && bytes_eq(keys[i].as_bytes(), pk.as_bytes()) {
            proof {
                assert(s[i as int] == pk@);
                lemma_insert_sorted_at(s, pk@, i as int);
                assert(s.contains(pk@));
            }
            self.keys = keys;
            proof {
                assert(self@ =~= s);
            }
            false
        } else {
            proof {
                if i < s.len() {
                    assert(s[i as int] != pk@);
                    lemma_lex_trichotomy(pk@, s[i as int]);
                    assert(lex_lt(pk@, s[i as int]));
                }
                lemma_insert_sorted_at(s, pk@, i as int);
                assert forall|j: int| 0 <= j < s.len() implies s[j] != pk@ by {
                    lemma_lex_irrefl(pk@);
                    if j < i {
                        assert(lex_lt(s[j], pk@));
                    } else if j > i {
                        assert(lex_lt(s[i as int], s[j]));
                        lemma_lex_trans(pk@, s[i as int], s[j]);
                    }
                }
                assert(!s.contains(pk@));
            }
            keys.insert(i, pk);
            proof {
                let t = keys@.map_values(|k: Pubkey| k@);
                assert(t =~= s.insert(i as int, pk@));
                assert forall|x: int, y: int| 0 <= x < y < t.len() implies lex_lt(
                    t[x],
                    t[y],
                ) by {
                    lemma_lex_irrefl(pk@);
                    if y < i {
                        assert(lex_lt(s[x], s[y]));
                    } else if y == i {
                        assert(lex_lt(s[x], pk@));
                    } else if x < i {
                        assert(t[y] == s[y - 1]);
                        if x == y - 1 {
                        } else {
                            assert(lex_lt(s[x], s[y - 1]));
                        }
                        if i < s.len() && x == i {
                        }
                        if x < y - 1 {
                            assert(lex_lt(s[x], s[y - 1]));
                        } else {
                            assert(x == y - 1 && x < i && y > i);
                            assert(false);
                        }
                    } else if x == i {
                        assert(t[x] == pk@);
                        assert(t[y] == s[y - 1]);
                        assert(lex_lt(pk@, s[i as int]));
                        if y - 1 == i {
                        } else {
                            assert(lex_lt(s[i as int], s[y - 1]));
                            lemma_lex_trans(pk@, s[i as int], s[y - 1]);
                        }
                    } else {
                        assert(t[x] == s[x - 1]);
                        assert(t[y] == s[y - 1]);
                        assert(lex_lt(s[x - 1], s[y - 1]));
                    }
                }
            }
            self.keys = keys;
            true
        }
    }

    /// Removes a key from the set; returns whether it was present.
    pub fn remove(&mut self, pk: &Pubkey) -> (r: bool)
        ensures
            final(self)@ == remove_sorted(old(self)@, pk@),
            r == old(self)@.contains(pk@),
            !r ==> final(self)@ == old(self)@,
    {
        proof {
            use_type_invariant(&*self);
        }
        let ghost s: Seq<Seq<u8>> = self@;
        let mut keys: Vec<Pubkey> = Vec::new();
        core::mem::swap(&mut keys, &mut self.keys);
        let mut i: usize = 0;
        while i < keys.len()
            invariant
                i <= keys@.len(),
                forall|j: int| 0 <= j < i ==> #[trigger] keys@[j]@ != pk@,
                keys@.map_values(|k: Pubkey| k@) == s,
            ensures
                i <= keys@.len(),
                forall|j: int| 0 <= j < i ==> #[trigger] keys@[j]@ != pk@,
                i < keys@.len() ==> keys@[i as int]@ == pk@,
                keys@.map_values(|k: Pubkey| k@) == s,
            decreases keys@.len() - i,
        {
            if bytes_eq(keys[i].as_bytes(), pk.as_bytes()) {
                break;
            }
            i = i + 1;
        }
        proof {
            assert(forall|j: int| 0 <= j < i ==> #[trigger] s[j] != pk@);
        }
        if i < keys.len() {
            proof {
                assert(s[i as int] == pk@);
                assert(s.contains(pk@));
                lemma_remove_sorted_at(s, pk@, i as int);
            }
            let _removed = keys.remove(i);
            proof {
                let t = keys@.map_values(|k: Pubkey| k@);
                assert(t =~= s.remove(i as int));
                assert forall|x: int, y: int| 0 <= x < y < t.len() implies lex_lt(
                    t[x],
                    t[y],
                ) by {
                    if y < i {
                        assert(t[x] == s[x] && t[y] == s[y]);
                        assert(lex_lt(s[x], s[y]));
                    } else if x < i {
                        assert(t[x] == s[x] && t[y] == s[y + 1]);
                        assert(lex_lt(s[x], s[y + 1]));
                    } else {
                        assert(t[x] == s[x + 1] && t[y] == s[y + 1]);
                        assert(lex_lt(s[x + 1], s[y + 1]));
                    }
                }
            }
            self.keys = keys;
            true
        } else {
            proof {
                assert(forall|j: int| 0 <= j < s.len() ==> #[trigger] s[j] != pk@);
                assert(!s.contains(pk@));
                lemma_remove_sorted_absent(s, pk@);
            }
            self.keys = keys;
            proof {
                assert(self@ =~= s);
            }
            false
        }
    }
}

impl Clone for Keyset {
    fn clone(&self) -> (r: Self)
        ensures
            r@ == self@,
    {
        proof {
            use_type_invariant(self);
        }
        let mut keys: Vec<Pubkey> = Vec::new();
        let mut i: usize = 0;
        while i < self.keys.len()
            invariant
                i <= self.keys@.len(),
                keys@.len() == i,
                forall|j: int| 0 <= j < i ==> #[trigger] keys@[j]@ == self.keys@[j]@,
                sorted_views(self.keys@.map_values(|k: Pubkey| k@)),
            decreases self.keys@.len() - i,
        {
            keys.push(self.keys[i].clone());
            i = i + 1;
        }
        proof {
            let t = keys@.map_values(|k: Pubkey| k@);
            let s = self.keys@.map_values(|k: Pubkey| k@);
            assert(t =~= s);
        }
        let r = Keyset { keys };
        proof {
            assert(r@ =~= self@);
        }
        r
    }
}

impl PartialEq for Keyset {
    fn eq(&self, other: &Self) -> (r: bool) {
        if self.keys.len() != other.keys.len() {
            proof {
                assert(self@.len() == self.keys@.len());
                assert(other@.len() == other.keys@.len());
            }
            return false;
        }
        let mut i: usize = 0;
        while i < self.keys.len()
            invariant
                i <= self.keys@.len(),
                self.keys@.len() == other.keys@.len(),
                forall|j: int| 0 <= j < i ==> #[trigger] self.keys@[j]@ == other.keys@[j]@,
            decreases self.keys@.len() - i,
        {
            if !bytes_eq(self.keys[i].as_bytes(), other.keys[i].as_bytes()) {
                proof {
                    assert(self@[i as int] != other@[i as int]);
                }
                return false;
            }
            i = i + 1;
        }
        proof {
            assert(self@ =~= other@);
        }
        true
    }
}

impl vstd::std_specs::cmp::PartialEqSpecImpl for Keyset {
    open spec fn obeys_eq_spec() -> bool {
        true
    }

    open spec fn eq_spec(&self, other: &Keyset) -> bool {
        self@ == other@
    }
}

} // verus!
