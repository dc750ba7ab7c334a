//! The integer handles patches hold to methods and classes. Each location
//! packs into one word; keys allocated in increasing order (a full-app
//! enumeration) form a sorted prefix found by binary search, so only
//! out-of-order allocations pay for a hash entry.

use vstd::prelude::*;
use rustc_hash::{FxBuildHasher, FxHashMap};
use crate::context::{ClassLocation, FingerprintLocation, InstructionLocation, MethodLocation, SiteHit};

verus! {

#[verifier::external_type_specification]
#[verifier::external_body]
pub struct ExFxBuildHasher(FxBuildHasher);

/// `HashMap::get` (std), on a map hashed by rustc-hash's `FxBuildHasher`:
/// the value stored under `key`.
#[verifier::external_body]
fn index_get(index: &FxHashMap<u64, u32>, key: u64) -> (r: Option<u32>)
    ensures
        match r {
            Some(h) => index@.contains_key(key) && index@[key] == h,
            None => !index@.contains_key(key),
        },
{
    index.get(&key).copied()
}

/// `HashMap::insert` (std), on a map hashed by rustc-hash's
/// `FxBuildHasher`: stores `h` under `key`.
#[verifier::external_body]
fn index_insert(index: &mut FxHashMap<u64, u32>, key: u64, h: u32)
    ensures
        final(index)@ == old(index)@.insert(key, h),
{
    index.insert(key, h);
}

/// `HashMap::is_empty` (std), on a map hashed by rustc-hash's
/// `FxBuildHasher`: whether no key is stored.
#[verifier::external_body]
fn index_is_empty(index: &FxHashMap<u64, u32>) -> (r: bool)
    ensures
        r == (index@ == Map::<u64, u32>::empty()),
{
    index.is_empty()
}

/// The outcome of allocating a handle for `key` when `keys` are handed out:
/// the key's existing handle, or the next one with the key appended.
pub open spec fn alloc_outcome(keys: Seq<u64>, key: u64) -> (Seq<u64>, u32) {
    if keys.contains(key) {
        (keys, keys.index_of(key) as u32)
    } else {
        (keys.push(key), keys.len() as u32)
    }
}

/// How long the sorted prefix of `keys` is after allocating `key`: a key
/// not handed out before extends it when every key so far lies in it and
/// the new key is greater than the last; otherwise it stays as it was.
pub open spec fn sorted_after(keys: Seq<u64>, sorted: nat, key: u64) -> nat {
    if !keys.contains(key) && sorted == keys.len() && (keys.len() == 0 || keys.last() < key) {
        sorted + 1
    } else {
        sorted
    }
}

/// Once a key has arrived out of order, the sorted prefix stops growing:
/// when it is shorter than the keys, no allocation lengthens it, and it
/// stays shorter than the keys.
pub proof fn lemma_sorted_prefix_stops(keys: Seq<u64>, sorted: nat, key: u64)
    requires
        sorted < keys.len(),
    ensures
        sorted_after(keys, sorted, key) == sorted,
        sorted < alloc_outcome(keys, key).0.len(),
{
}

/// A new key not greater than the last ends the sorted prefix: the prefix
/// keeps its length and is from then on shorter than the keys.
pub proof fn lemma_out_of_order_key_ends_prefix(keys: Seq<u64>, sorted: nat, key: u64)
    requires
        sorted <= keys.len(),
        keys.len() > 0,
        !keys.contains(key),
        key <= keys.last(),
    ensures
        sorted_after(keys, sorted, key) == sorted,
        sorted < alloc_outcome(keys, key).0.len(),
{
}

/// Handles for one kind of location.
struct Handles {
    keys: Vec<u64>,
    sorted_len: usize,
    index: FxHashMap<u64, u32>,
}

impl Handles {
    /// The keys, by handle.
    closed spec fn keys_view(&self) -> Seq<u64> {
        self.keys@
    }

    /// How many keys form the sorted prefix.
    closed spec fn sorted_view(&self) -> nat {
        self.sorted_len as nat
    }

    /// The sorted prefix is sorted, every later key is in the hash index
    /// under its handle, and no key is handed out twice.
    closed spec fn wf(&self) -> bool {
        &&& self.sorted_len <= self.keys@.len()
        &&& self.keys@.len() <= u32::MAX
        &&& forall|i: int, j: int| 0 <= i < j < self.sorted_len ==> self.keys@[i] < self.keys@[j]
        &&& self.keys@.no_duplicates()
        &&& forall|k: u64| #[trigger] self.index@.contains_key(k) ==> self.keys@.contains(k)
        &&& forall|i: int|
            self.sorted_len <= i < self.keys@.len() ==> #[trigger] self.index@.contains_key(self.keys@[i])
                && self.index@[self.keys@[i]] == i
        &&& forall|i: int| 0 <= i < self.sorted_len ==> !#[trigger] self.index@.contains_key(self.keys@[i])
    }

    fn new() -> (r: Self)
        ensures
            r.wf(),
            r.keys_view().len() == 0,
            r.sorted_view() == 0,
    {
        Handles { keys: Vec::new(), sorted_len: 0, index: FxHashMap::default() }
    }

    fn search_sorted(&self, key: u64) -> (r: Option<usize>)
        requires
            self.wf(),
        ensures
            match r {
                Some(i) => i < self.sorted_len && self.keys@[i as int] == key,
                None => forall|i: int| 0 <= i < self.sorted_len ==> self.keys@[i] != key,
            },
    {
        let mut lo: usize = 0;
        let mut hi: usize = self.sorted_len;
        while lo < hi
            invariant
                self.wf(),
                lo <= hi <= self.sorted_len,
                forall|i: int| 0 <= i < lo ==> self.keys@[i] < key,
                forall|i: int| hi <= i < self.sorted_len ==> self.keys@[i] > key,
            decreases hi - lo,
        {
            let mid = lo + (hi - lo) / 2;
            let k = self.keys[mid];
            if k == key {
                return Some(mid);
            }
            if k < key {
                lo = mid + 1;
            } else {
                hi = mid;
            }
        }
        None
    }

    fn handle_for(&mut self, key: u64) -> (h: u32)
        requires
            old(self).wf(),
            old(self).keys_view().len() < u32::MAX,
        ensures
            final(self).wf(),
            (final(self).keys_view(), h) == alloc_outcome(old(self).keys_view(), key),
            final(self).sorted_view() == sorted_after(old(self).keys_view(), old(self).sorted_view(), key),
    {
        let ghost keys = self.keys@;
        if let Some(i) = self.search_sorted(key) {
            proof {
                assert(keys.contains(key));
                lemma_index_of_unique(keys, i as int);
            }
            return i as u32;
        }
        if let Some(h) = index_get(&self.index, key) {
            proof {
                let i = keys.index_of(key);
                assert(keys.contains(key));
                lemma_index_of_unique(keys, keys.index_of(key));
                assert(self.sorted_len <= i);
            }
            return h;
        }
        proof {
            assert(!keys.contains(key)) by {
                if keys.contains(key) {
                    let i = choose|i: int| 0 <= i < keys.len() && keys[i] == key;
                    if i >= self.sorted_len {
                        assert(self.index@.contains_key(keys[i]));
                    }
                }
            }
        }
        let h = self.keys.len() as u32;
        let in_order = self.sorted_len == self.keys.len() && (self.keys.len() == 0 || self.keys[self.keys.len() - 1] < key);
        if in_order {
            self.sorted_len = self.sorted_len + 1;
        } else {
            index_insert(&mut self.index, key, h);
        }
        self.keys.push(key);
        proof {
            assert(self.keys@ == keys.push(key));
            assert forall|i: int, j: int| 0 <= i < j < self.keys@.len() implies self.keys@[i] != self.keys@[j] by {
                if j == keys.len() {
                    assert(keys.contains(keys[i]));
                }
            }
            assert forall|k: u64| #[trigger] self.index@.contains_key(k) implies self.keys@.contains(k) by {
                if k == key {
                    assert(self.keys@[keys.len() as int] == key);
                } else {
                    assert(old(self).index@.contains_key(k));
                    let i = choose|i: int| 0 <= i < keys.len() && keys[i] == k;
                    assert(self.keys@[i] == k);
                }
            }
            assert forall|i: int| 0 <= i < self.sorted_len implies !#[trigger] self.index@.contains_key(self.keys@[i]) by {
                if i < keys.len() {
                    assert(self.keys@[i] != key);
                }
            }
        }
        h
    }

    fn get(&self, handle: u32) -> (r: Option<u64>)
        ensures
            match r {
                Some(k) => handle < self.keys_view().len() && self.keys_view()[handle as int] == k,
                None => handle >= self.keys_view().len(),
            },
    {
        if (handle as usize) < self.keys.len() {
            Some(self.keys[handle as usize])
        } else {
            None
        }
    }
}

/// Asking again for a key already handed out gives its handle back and
/// changes nothing.
pub proof fn lemma_known_key_keeps_handle(keys: Seq<u64>, i: int)
    requires
        keys.no_duplicates(),
        0 <= i < keys.len(),
    ensures
        alloc_outcome(keys, keys[i]) == (keys, i as u32),
{
    lemma_index_of_unique(keys, i);
    assert(keys.contains(keys[i]));
}

proof fn lemma_index_of_unique(keys: Seq<u64>, i: int)
    requires
        keys.no_duplicates(),
        0 <= i < keys.len(),
    ensures
        keys.index_of(keys[i]) == i,
{
    let j = keys.index_of(keys[i]);
    if j != i {
        assert(keys[j] == keys[i]);
    }
}


/// The word a method location packs into: DEX index in the top byte, then
/// the class index, the virtual flag, and the method index in the low half.
pub open spec fn method_key(m: MethodLocation) -> u64 {
    ((m.dex_idx as u64) << 56u64) | ((m.class_idx as u64) << 24u64) | ((if m.is_virtual { 1u64 } else { 0u64 }) << 16u64)
        | (m.method_idx as u64)
}

/// The method location a word unpacks to.
pub open spec fn method_of_key(key: u64) -> MethodLocation {
    MethodLocation {
        dex_idx: (key >> 56u64) as usize,
        class_idx: ((key >> 24u64) & 0xffff_ffffu64) as usize,
        method_idx: (key & 0xffffu64) as usize,
        is_virtual: (key >> 16u64) & 1u64 == 1u64,
    }
}

/// The word a class location packs into: DEX index in the top byte, class
/// index in the low half.
pub open spec fn class_key(c: ClassLocation) -> u64 {
    ((c.dex_idx as u64) << 56u64) | (c.class_idx as u64)
}

/// The class location a word unpacks to.
pub open spec fn class_of_key(key: u64) -> ClassLocation {
    ClassLocation { dex_idx: (key >> 56u64) as usize, class_idx: (key & 0xffff_ffffu64) as usize }
}

/// A method location fits its word.
pub open spec fn method_packable(m: MethodLocation) -> bool {
    m.dex_idx < 256 && m.class_idx < 0x1_0000_0000 && m.method_idx < 0x1_0000
}

/// A class location fits its word.
pub open spec fn class_packable(c: ClassLocation) -> bool {
    c.dex_idx < 256 && c.class_idx < 0x1_0000_0000
}

proof fn lemma_method_bits(d: u64, c: u64, v: u64, i: u64)
    requires
        d < 256,
        c < 0x1_0000_0000,
        v < 2,
        i < 0x1_0000,
    ensures
        ((d << 56u64) | (c << 24u64) | (v << 16u64) | i) >> 56u64 == d,
        (((d << 56u64) | (c << 24u64) | (v << 16u64) | i) >> 24u64) & 0xffff_ffffu64 == c,
        (((d << 56u64) | (c << 24u64) | (v << 16u64) | i) >> 16u64) & 1u64 == v,
        ((d << 56u64) | (c << 24u64) | (v << 16u64) | i) & 0xffffu64 == i,
{
    assert(((d << 56u64) | (c << 24u64) | (v << 16u64) | i) >> 56u64 == d) by (bit_vector)
        requires
            d < 256,
            c < 0x1_0000_0000,
            v < 2,
            i < 0x1_0000,
    ;
    assert((((d << 56u64) | (c << 24u64) | (v << 16u64) | i) >> 24u64) & 0xffff_ffffu64 == c) by (bit_vector)
        requires
            d < 256,
            c < 0x1_0000_0000,
            v < 2,
            i < 0x1_0000,
    ;
    assert((((d << 56u64) | (c << 24u64) | (v << 16u64) | i) >> 16u64) & 1u64 == v) by (bit_vector)
        requires
            d < 256,
            c < 0x1_0000_0000,
            v < 2,
            i < 0x1_0000,
    ;
    assert(((d << 56u64) | (c << 24u64) | (v << 16u64) | i) & 0xffffu64 == i) by (bit_vector)
        requires
            d < 256,
            c < 0x1_0000_0000,
            v < 2,
            i < 0x1_0000,
    ;
}

/// A packed method location unpacks to itself.
pub proof fn lemma_method_key_roundtrip(m: MethodLocation)
    requires
        method_packable(m),
    ensures
        method_of_key(method_key(m)) == m,
{
    let v: u64 = if m.is_virtual { 1u64 } else { 0u64 };
    lemma_method_bits(m.dex_idx as u64, m.class_idx as u64, v, m.method_idx as u64);
}

/// A packed class location unpacks to itself.
pub proof fn lemma_class_key_roundtrip(c: ClassLocation)
    requires
        class_packable(c),
    ensures
        class_of_key(class_key(c)) == c,
{
    let d = c.dex_idx as u64;
    let k = c.class_idx as u64;
    assert(((d << 56u64) | k) >> 56u64 == d) by (bit_vector)
        requires
            d < 256,
            k < 0x1_0000_0000,
    ;
    assert(((d << 56u64) | k) & 0xffff_ffffu64 == k) by (bit_vector)
        requires
            d < 256,
            k < 0x1_0000_0000,
    ;
}

/// Handles to methods and classes, one table each.
pub struct HandleTable {
    methods: Handles,
    classes: Handles,
}

impl HandleTable {
    /// The method keys, by handle.
    pub closed spec fn method_keys(&self) -> Seq<u64> {
        self.methods.keys_view()
    }

    /// The class keys, by handle.
    pub closed spec fn class_keys(&self) -> Seq<u64> {
        self.classes.keys_view()
    }

    /// The tables are consistent.
    pub closed spec fn wf(&self) -> bool {
        self.methods.wf() && self.classes.wf()
    }

    /// No handles yet.
    pub fn new() -> (r: Self)
        ensures
            r.wf(),
            r.method_keys().len() == 0,
            r.class_keys().len() == 0,
            r.method_sorted() == 0,
            r.class_sorted() == 0,
    {
        HandleTable { methods: Handles::new(), classes: Handles::new() }
    }

    /// The handle of method `m`: the one it already has, or the next one.
    pub fn alloc_method(&mut self, m: MethodLocation) -> (h: u32)
        requires
            old(self).wf(),
            method_packable(m),
            old(self).method_keys().len() < u32::MAX,
        ensures
            final(self).wf(),
            (final(self).method_keys(), h) == alloc_outcome(old(self).method_keys(), method_key(m)),
            final(self).method_sorted() == sorted_after(old(self).method_keys(), old(self).method_sorted(), method_key(m)),
            final(self).class_keys() == old(self).class_keys(),
            final(self).class_sorted() == old(self).class_sorted(),
    {
        let key = ((m.dex_idx as u64) << 56u64) | ((m.class_idx as u64) << 24u64) | ((if m.is_virtual { 1u64 } else { 0u64 }) << 16u64)
            | (m.method_idx as u64);
        self.methods.handle_for(key)
    }

    /// The method behind `handle`.
    pub fn get_method(&self, handle: u32) -> (r: Option<MethodLocation>)
        ensures
            match r {
                Some(m) => handle < self.method_keys().len() && m == method_of_key(self.method_keys()[handle as int]),
                None => handle >= self.method_keys().len(),
            },
    {
        let key = match self.methods.get(handle) {
            Some(k) => k,
            None => return None,
        };
        Some(MethodLocation {
            dex_idx: (key >> 56u64) as usize,
            class_idx: ((key >> 24u64) & 0xffff_ffffu64) as usize,
            method_idx: (key & 0xffffu64) as usize,
            is_virtual: (key >> 16u64) & 1u64 == 1u64,
        })
    }

    /// The handle of class `c`: the one it already has, or the next one.
    pub fn alloc_class(&mut self, c: ClassLocation) -> (h: u32)
        requires
            old(self).wf(),
            class_packable(c),
            old(self).class_keys().len() < u32::MAX,
        ensures
            final(self).wf(),
            (final(self).class_keys(), h) == alloc_outcome(old(self).class_keys(), class_key(c)),
            final(self).class_sorted() == sorted_after(old(self).class_keys(), old(self).class_sorted(), class_key(c)),
            final(self).method_keys() == old(self).method_keys(),
            final(self).method_sorted() == old(self).method_sorted(),
    {
        let key = ((c.dex_idx as u64) << 56u64) | (c.class_idx as u64);
        self.classes.handle_for(key)
    }

    /// The class behind `handle`.
    pub fn get_class(&self, handle: u32) -> (r: Option<ClassLocation>)
        ensures
            match r {
                Some(c) => handle < self.class_keys().len() && c == class_of_key(self.class_keys()[handle as int]),
                None => handle >= self.class_keys().len(),
            },
    {
        let key = match self.classes.get(handle) {
            Some(k) => k,
            None => return None,
        };
        Some(ClassLocation { dex_idx: (key >> 56u64) as usize, class_idx: (key & 0xffff_ffffu64) as usize })
    }

    /// How many method keys form the sorted prefix.
    pub closed spec fn method_sorted(&self) -> nat {
        self.methods.sorted_view()
    }

    /// How many class keys form the sorted prefix.
    pub closed spec fn class_sorted(&self) -> nat {
        self.classes.sorted_view()
    }

    /// A consistent table hands out no key twice, and its sorted prefixes
    /// lie within its keys.
    pub proof fn lemma_table_keys_distinct(&self)
        requires
            self.wf(),
        ensures
            self.method_keys().no_duplicates(),
            self.class_keys().no_duplicates(),
            self.method_sorted() <= self.method_keys().len(),
            self.class_sorted() <= self.class_keys().len(),
    {
    }

    /// How many method keys form the sorted prefix found by binary search.
    pub fn method_sorted_len(&self) -> (r: usize)
        requires
            self.wf(),
        ensures
            r == self.method_sorted(),
            r <= self.method_keys().len(),
    {
        self.methods.sorted_len
    }

    /// Whether no method key needed a hash entry: every key lies in the
    /// sorted prefix.
    pub fn method_index_is_empty(&self) -> (r: bool)
        requires
            self.wf(),
        ensures
            r == (self.method_sorted() == self.method_keys().len()),
    {
        let r = index_is_empty(&self.methods.index);
        proof {
            let h = &self.methods;
            if h.sorted_len < h.keys@.len() {
                assert(h.index@.contains_key(h.keys@[h.sorted_len as int]));
            } else {
                assert forall|k: u64| !h.index@.contains_key(k) by {
                    if h.index@.contains_key(k) {
                        assert(h.keys@.contains(k));
                        let i = choose|i: int| 0 <= i < h.keys@.len() && h.keys@[i] == k;
                        assert(!h.index@.contains_key(h.keys@[i]));
                    }
                }
                assert(h.index@ =~= Map::<u64, u32>::empty());
            }
        }
        r
    }
}

impl Default for HandleTable {
    fn default() -> (r: Self)
        ensures
            r.wf(),
            r.method_keys().len() == 0,
            r.class_keys().len() == 0,
            r.method_sorted() == 0,
            r.class_sorted() == 0,
    {
        HandleTable::new()
    }
}

/// A handle handed out for a method gives that method back, and asking
/// again for the same method gives the same handle.
pub proof fn lemma_method_handle_roundtrip(keys: Seq<u64>, m: MethodLocation)
    requires
        method_packable(m),
        keys.len() < u32::MAX,
    ensures
        ({
            let (after, h) = alloc_outcome(keys, method_key(m));
            &&& h < after.len()
            &&& method_of_key(after[h as int]) == m
            &&& alloc_outcome(after, method_key(m)) == (after, h)
        }),
{
    lemma_method_key_roundtrip(m);
    lemma_alloc_outcome(keys, method_key(m));
}

/// Handles are dense and tell methods apart: a method not handed out before
/// gets the next handle, the number of methods so far, and two methods get
/// the same handle only when they are the same method.
pub proof fn lemma_method_handles_distinct(keys: Seq<u64>, m: MethodLocation, m2: MethodLocation)
    requires
        keys.no_duplicates(),
        method_packable(m),
        method_packable(m2),
        keys.len() + 1 < u32::MAX,
    ensures
        ({
            let (after, h) = alloc_outcome(keys, method_key(m));
            &&& !keys.contains(method_key(m)) ==> h == keys.len()
            &&& after.no_duplicates()
            &&& (alloc_outcome(after, method_key(m2)).1 == h <==> m2 == m)
        }),
{
    lemma_method_key_roundtrip(m);
    lemma_method_key_roundtrip(m2);
    lemma_alloc_outcome(keys, method_key(m));
    let (after, h) = alloc_outcome(keys, method_key(m));
    let k = method_key(m);
    let k2 = method_key(m2);
    if !keys.contains(k) {
        assert forall|i: int, j: int| 0 <= i < j < after.len() implies after[i] != after[j] by {
            if j == keys.len() {
                assert(keys.contains(keys[i]));
            }
        }
    }
    assert(after.no_duplicates());
    let (after2, h2) = alloc_outcome(after, k2);
    if after.contains(k2) {
        let j = after.index_of(k2);
        assert(after[j] == k2);
        if h2 == h {
            assert(after[h as int] == k);
            assert(k2 == k);
        }
    } else {
        assert(h2 == after.len());
    }
}

/// A handle handed out for a class gives that class back, and asking again
/// for the same class gives the same handle.
pub proof fn lemma_class_handle_roundtrip(keys: Seq<u64>, c: ClassLocation)
    requires
        class_packable(c),
        keys.len() < u32::MAX,
    ensures
        ({
            let (after, h) = alloc_outcome(keys, class_key(c));
            &&& h < after.len()
            &&& class_of_key(after[h as int]) == c
            &&& alloc_outcome(after, class_key(c)) == (after, h)
        }),
{
    lemma_class_key_roundtrip(c);
    lemma_alloc_outcome(keys, class_key(c));
}

/// Allocating a key hands out a handle holding it, and allocating it again
/// changes nothing.
pub proof fn lemma_alloc_outcome(keys: Seq<u64>, key: u64)
    requires
        keys.len() < u32::MAX,
    ensures
        ({
            let (after, h) = alloc_outcome(keys, key);
            &&& h < after.len()
            &&& after[h as int] == key
            &&& alloc_outcome(after, key) == (after, h)
        }),
{
    let (after, h) = alloc_outcome(keys, key);
    if keys.contains(key) {
        assert(after[h as int] == key);
    } else {
        assert(after[keys.len() as int] == key);
        assert(after.contains(key));
        let j = after.index_of(key);
        assert(after[j] == key);
        if j < keys.len() {
            assert(keys[j] == key);
        }
    }
}


/// An instruction a search found: the method's handle and the index.
#[derive(Debug, Clone, Copy)]
pub struct InstructionHit {
    pub method: u32,
    pub index: u32,
}

/// A call site a search found, with which of the searched-for targets it
/// calls.
#[derive(Debug, Clone, Copy)]
pub struct MethodCallSiteResult {
    pub method: u32,
    pub index: u32,
    pub target_index: u32,
}

/// A method a fingerprint matched, and how many instructions matched.
#[derive(Debug, Clone, Copy)]
pub struct FingerprintResult {
    pub method: u32,
    pub matched_count: u32,
}

/// The handles handed out, one after another, for `methods`.
pub open spec fn handles_for(keys: Seq<u64>, methods: Seq<MethodLocation>) -> (Seq<u64>, Seq<u32>)
    decreases methods.len(),
{
    if methods.len() == 0 {
        (keys, Seq::empty())
    } else {
        let (before, hs) = handles_for(keys, methods.drop_last());
        let (after, h) = alloc_outcome(before, method_key(methods.last()));
        (after, hs.push(h))
    }
}

proof fn lemma_handles_for_len(keys: Seq<u64>, methods: Seq<MethodLocation>)
    ensures
        handles_for(keys, methods).0.len() <= keys.len() + methods.len(),
        handles_for(keys, methods).1.len() == methods.len(),
    decreases methods.len(),
{
    if methods.len() > 0 {
        lemma_handles_for_len(keys, methods.drop_last());
    }
}

impl HandleTable {
    /// Handles for `locations`, in order.
    pub fn alloc_methods(&mut self, locations: &Vec<MethodLocation>) -> (r: Vec<u32>)
        requires
            old(self).wf(),
            forall|k: int| 0 <= k < locations@.len() ==> method_packable(#[trigger] locations@[k]),
            old(self).method_keys().len() + locations@.len() < u32::MAX,
        ensures
            final(self).wf(),
            (final(self).method_keys(), r@) == handles_for(old(self).method_keys(), locations@),
            final(self).class_keys() == old(self).class_keys(),
    {
        let mut out: Vec<u32> = Vec::new();
        let n = locations.len();
        let ghost start = self.method_keys();
        for i in 0..n
            invariant
                n == locations@.len(),
                self.wf(),
                forall|k: int| 0 <= k < locations@.len() ==> method_packable(#[trigger] locations@[k]),
                start.len() + n < u32::MAX,
                (self.method_keys(), out@) == handles_for(start, locations@.take(i as int)),
                self.class_keys() == old(self).class_keys(),
        {
            proof {
                lemma_handles_for_len(start, locations@.take(i as int));
                assert(locations@.take(i + 1).drop_last() =~= locations@.take(i as int));
            }
            let h = self.alloc_method(locations[i]);
            out.push(h);
        }
        assert(locations@.take(n as int) =~= locations@);
        out
    }

    /// Handles for the first `count` direct or virtual methods of the class
    /// behind handle `c`; none when `c` is no class handle.
    pub fn method_handles(&mut self, c: u32, is_virtual: bool, count: u32) -> (r: Vec<u32>)
        requires
            old(self).wf(),
            old(self).method_keys().len() + count < u32::MAX,
            c < old(self).class_keys().len() ==> method_packable(
                MethodLocation {
                    dex_idx: class_of_key(old(self).class_keys()[c as int]).dex_idx,
                    class_idx: class_of_key(old(self).class_keys()[c as int]).class_idx,
                    method_idx: 0,
                    is_virtual,
                },
            ) && count <= 0x1_0000,
        ensures
            final(self).wf(),
            c >= old(self).class_keys().len() ==> r@.len() == 0 && final(self).method_keys() == old(self).method_keys(),
            c < old(self).class_keys().len() ==> (final(self).method_keys(), r@) == handles_for(
                old(self).method_keys(),
                Seq::new(
                    count as nat,
                    |i: int|
                        MethodLocation {
                            dex_idx: class_of_key(old(self).class_keys()[c as int]).dex_idx,
                            class_idx: class_of_key(old(self).class_keys()[c as int]).class_idx,
                            method_idx: i as usize,
                            is_virtual,
                        },
                ),
            ),
    {
        let class = match self.get_class(c) {
            Some(class) => class,
            None => return Vec::new(),
        };
        let mut locations: Vec<MethodLocation> = Vec::new();
        for i in 0..count
            invariant
                locations@.len() == i,
                forall|k: int| 0 <= k < i ==> #[trigger] locations@[k] == (MethodLocation {
                    dex_idx: class.dex_idx,
                    class_idx: class.class_idx,
                    method_idx: k as usize,
                    is_virtual,
                }),
        {
            locations.push(MethodLocation { dex_idx: class.dex_idx, class_idx: class.class_idx, method_idx: i as usize, is_virtual });
        }
        let ghost want = Seq::new(
            count as nat,
            |i: int|
                MethodLocation {
                    dex_idx: class_of_key(self.class_keys()[c as int]).dex_idx,
                    class_idx: class_of_key(self.class_keys()[c as int]).class_idx,
                    method_idx: i as usize,
                    is_virtual,
                },
        );
        assert(locations@ =~= want);
        self.alloc_methods(&locations)
    }

    /// Hits for instruction locations: each method's handle and the index.
    pub fn hits(&mut self, locations: &Vec<InstructionLocation>) -> (r: Vec<InstructionHit>)
        requires
            old(self).wf(),
            forall|k: int| 0 <= k < locations@.len() ==> method_packable(#[trigger] locations@[k].method),
            old(self).method_keys().len() + locations@.len() < u32::MAX,
        ensures
            final(self).wf(),
            r@.len() == locations@.len(),
            (final(self).method_keys(), r@.map_values(|h: InstructionHit| h.method)) == handles_for(
                old(self).method_keys(),
                locations@.map_values(|l: InstructionLocation| l.method),
            ),
            forall|k: int| 0 <= k < r@.len() ==> (#[trigger] r@[k]).index == locations@[k].insn_idx as u32,
    {
        let mut methods: Vec<MethodLocation> = Vec::new();
        let n = locations.len();
        for i in 0..n
            invariant
                n == locations@.len(),
                methods@ == locations@.take(i as int).map_values(|l: InstructionLocation| l.method),
        {
            methods.push(locations[i].method);
            assert(locations@.take(i + 1).map_values(|l: InstructionLocation| l.method) =~= locations@.take(i as int).map_values(|l: InstructionLocation| l.method).push(locations@[i as int].method));
        }
        assert(locations@.take(n as int) =~= locations@);
        let handles = self.alloc_methods(&methods);
        proof {
            lemma_handles_for_len(old(self).method_keys(), methods@);
        }
        let mut out: Vec<InstructionHit> = Vec::new();
        for i in 0..n
            invariant
                n == locations@.len(),
                handles@.len() == n,
                out@.len() == i,
                forall|k: int| 0 <= k < i ==> (#[trigger] out@[k]).method == handles@[k] && out@[k].index == locations@[k].insn_idx as u32,
        {
            out.push(InstructionHit { method: handles[i], index: locations[i].insn_idx as u32 });
        }
        assert(out@.map_values(|h: InstructionHit| h.method) =~= handles@);
        out
    }

    /// Call-site results for site hits: each method's handle, the index, and
    /// the target called.
    pub fn site_results(&mut self, sites: &Vec<SiteHit>) -> (r: Vec<MethodCallSiteResult>)
        requires
            old(self).wf(),
            forall|k: int| 0 <= k < sites@.len() ==> method_packable(#[trigger] sites@[k].loc.method),
            old(self).method_keys().len() + sites@.len() < u32::MAX,
        ensures
            final(self).wf(),
            r@.len() == sites@.len(),
            (final(self).method_keys(), r@.map_values(|h: MethodCallSiteResult| h.method)) == handles_for(
                old(self).method_keys(),
                sites@.map_values(|s: SiteHit| s.loc.method),
            ),
            forall|k: int| 0 <= k < r@.len() ==> (#[trigger] r@[k]).index == sites@[k].loc.insn_idx as u32
                && r@[k].target_index == sites@[k].target_index as u32,
    {
        let mut methods: Vec<MethodLocation> = Vec::new();
        let n = sites.len();
        for i in 0..n
            invariant
                n == sites@.len(),
                methods@ == sites@.take(i as int).map_values(|s: SiteHit| s.loc.method),
        {
            methods.push(sites[i].loc.method);
            assert(sites@.take(i + 1).map_values(|s: SiteHit| s.loc.method) =~= sites@.take(i as int).map_values(|s: SiteHit| s.loc.method).push(sites@[i as int].loc.method));
        }
        assert(sites@.take(n as int) =~= sites@);
        let handles = self.alloc_methods(&methods);
        proof {
            lemma_handles_for_len(old(self).method_keys(), methods@);
        }
        let mut out: Vec<MethodCallSiteResult> = Vec::new();
        for i in 0..n
            invariant
                n == sites@.len(),
                handles@.len() == n,
                out@.len() == i,
                forall|k: int| 0 <= k < i ==> (#[trigger] out@[k]).method == handles@[k] && out@[k].index == sites@[k].loc.insn_idx as u32
                    && out@[k].target_index == sites@[k].target_index as u32,
        {
            out.push(MethodCallSiteResult {
                method: handles[i],
                index: sites[i].loc.insn_idx as u32,
                target_index: sites[i].target_index as u32,
            });
        }
        assert(out@.map_values(|h: MethodCallSiteResult| h.method) =~= handles@);
        out
    }

    /// The result for a fingerprint match: the method's handle and how many
    /// instructions matched.
    pub fn fingerprint_result(&mut self, hit: &FingerprintLocation) -> (r: FingerprintResult)
        requires
            old(self).wf(),
            method_packable(hit.method),
            old(self).method_keys().len() < u32::MAX,
        ensures
            final(self).wf(),
            (final(self).method_keys(), r.method) == alloc_outcome(old(self).method_keys(), method_key(hit.method)),
            r.matched_count == hit.matched_indices@.len() as u32,
    {
        let method = self.alloc_method(hit.method);
        FingerprintResult { method, matched_count: hit.matched_indices.len() as u32 }
    }
}

} // verus!
