use vstd::prelude::*;

use core::marker::PhantomData;
use crate::claim::{claim_grants, pool_after_claim, pool_after_release};
use crate::error::EspError;

verus! {

/// Longest value a namespace accepts, in bytes.
pub const MAX_VALUE_LEN: usize = 4000;

/// The physical storage partition, as the unclaimed pool it rests in.  Its
/// view is `true` exactly while a claim is live.
pub struct NvsFlash {
    claimed: bool,
}

impl View for NvsFlash {
    type V = bool;

    closed spec fn view(&self) -> bool {
        self.claimed
    }
}

impl NvsFlash {
    /// The partition's pool at process start: unclaimed.
    pub fn new() -> (r: Self)
        ensures
            !r@,
    {
        NvsFlash { claimed: false }
    }
}

/// Marker for the default partition.
pub struct NvsDefault;

/// Exclusive claim over a storage partition; at most one is live at a time.
pub struct EspNvsPartition<T> {
    marker: PhantomData<T>,
}

/// The claim over the default partition.
pub type EspDefaultNvsPartition = EspNvsPartition<NvsDefault>;

impl EspNvsPartition<NvsDefault> {
    /// Claim the default partition.  Refused with `ResourceUnavailable`
    /// exactly while an earlier claim is live.
    pub fn take(flash: &mut NvsFlash) -> (r: Result<Self, EspError>)
        ensures
            final(flash)@ == pool_after_claim(old(flash)@),
            r is Ok <==> claim_grants(old(flash)@),
            !claim_grants(old(flash)@) ==> r == Err::<Self, EspError>(
                EspError::ResourceUnavailable,
            ),
    {
        if flash.claimed {
            Err(EspError::ResourceUnavailable)
        } else {
            flash.claimed = true;
            Ok(EspNvsPartition { marker: PhantomData })
        }
    }

    /// Return the claim to the pool; afterwards a new `take` succeeds.
    pub fn release(self, flash: &mut NvsFlash)
        ensures
            final(flash)@ == pool_after_release(old(flash)@),
    {
        flash.claimed = false;
    }
}

struct NvsEntry {
    key: String,
    value: Vec<u8>,
}

/// Mathematical image of an [`EspNvs`] namespace.
#[verifier::ext_equal]
pub ghost struct NvsView {
    pub namespace: Seq<char>,
    pub read_write: bool,
    pub map: Map<Seq<char>, Seq<u8>>,
}

spec fn entries_map(s: Seq<NvsEntry>) -> Map<Seq<char>, Seq<u8>>
    decreases s.len(),
{
    if s.len() == 0 {
        Map::empty()
    } else {
        entries_map(s.drop_last()).insert(s.last().key@, s.last().value@)
    }
}

spec fn keys_distinct(s: Seq<NvsEntry>) -> bool {
    forall|i: int, j: int| 0 <= i < j < s.len() ==> s[i].key@ != s[j].key@
}

proof fn lemma_entries_map_absent(s: Seq<NvsEntry>, k: Seq<char>)
    requires
        forall|i: int| 0 <= i < s.len() ==> s[i].key@ != k,
    ensures
        !entries_map(s).contains_key(k),
    decreases s.len(),
{
    if s.len() > 0 {
        lemma_entries_map_absent(s.drop_last(), k);
    }
}

proof fn lemma_entries_map_found(s: Seq<NvsEntry>, i: int)
    requires
        0 <= i < s.len(),
        forall|j: int| i < j < s.len() ==> s[j].key@ != s[i].key@,
    ensures
        entries_map(s).contains_key(s[i].key@),
        entries_map(s)[s[i].key@] == s[i].value@,
    decreases s.len(),
{
    if i == s.len() - 1 {
    } else {
        lemma_entries_map_found(s.drop_last(), i);
    }
}

proof fn lemma_entries_map_remove(s: Seq<NvsEntry>, i: int)
    requires
        0 <= i < s.len(),
        keys_distinct(s),
    ensures
        entries_map(s.remove(i)) =~= entries_map(s).remove(s[i].key@),
    decreases s.len(),
{
    let k = s[i].key@;
    if i == s.len() - 1 {
        assert(s.remove(i) =~= s.drop_last());
        assert(forall|j: int| 0 <= j < s.drop_last().len() ==> s.drop_last()[j].key@ != k);
        lemma_entries_map_absent(s.drop_last(), k);
        assert(entries_map(s) == entries_map(s.drop_last()).insert(k, s[i].value@));
        assert(entries_map(s).remove(k) =~= entries_map(s.drop_last()));
    } else {
        let t = s.drop_last();
        assert(keys_distinct(t));
        lemma_entries_map_remove(t, i);
        assert(s.remove(i).last() == s.last());
        assert(s.remove(i).drop_last() =~= t.remove(i));
        assert(entries_map(s.remove(i)) == entries_map(t.remove(i)).insert(
            s.last().key@,
            s.last().value@,
        ));
        assert(s.last().key@ != k);
        assert(entries_map(t.remove(i)).insert(s.last().key@, s.last().value@) =~= entries_map(
            t,
        ).insert(s.last().key@, s.last().value@).remove(k));
    }
}

/// A named sub-store of a partition: unique string keys mapped to raw byte
/// strings of bounded length.  All operations are synchronous.
pub struct EspNvs<T> {
    namespace: String,
    read_write: bool,
    entries: Vec<NvsEntry>,
    marker: PhantomData<T>,
}

impl<T> View for EspNvs<T> {
    type V = NvsView;

    closed spec fn view(&self) -> NvsView {
        NvsView {
            namespace: self.namespace@,
            read_write: self.read_write,
            map: entries_map(self.entries@),
        }
    }
}

impl<T> EspNvs<T> {
    /// The store's internal well-formedness: one entry per key.
    pub closed spec fn wf(&self) -> bool {
        keys_distinct(self.entries@)
    }

    /// Open the namespace `namespace` against a claimed partition, empty at
    /// first.  `read_write` grants write access; a read-only handle refuses
    /// `set_raw` and `remove`.
    pub fn new(partition: &EspNvsPartition<T>, namespace: &str, read_write: bool) -> (r: Result<
        Self,
        EspError,
    >)
        ensures
            r is Ok,
            r is Ok ==> (r->Ok_0).wf() && (r->Ok_0)@ == (NvsView {
                namespace: namespace@,
                read_write: read_write,
                map: Map::<Seq<char>, Seq<u8>>::empty(),
            }),
    {
        let _ = partition;
        let store = EspNvs {
            namespace: namespace.to_owned(),
            read_write,
            entries: Vec::new(),
            marker: PhantomData,
        };
        Ok(store)
    }

    /// The index of the entry holding `key`, if any.
    fn find_index(&self, key: &str) -> (r: Option<usize>)
        ensures
            match r {
                Some(i) => i < self.entries@.len() && self.entries@[i as int].key@ == key@,
                None => forall|j: int|
                    0 <= j < self.entries@.len() ==> self.entries@[j].key@ != key@,
            },
    {
        let wanted: String = key.to_owned();
        let mut i: usize = 0;
        while i < self.entries.len()
            invariant
                i <= self.entries@.len(),
                wanted@ == key@,
                forall|j: int| 0 <= j < i ==> self.entries@[j].key@ != key@,
            decreases self.entries@.len() - i,
        {
            if self.entries[i].key == wanted {
                return Some(i);
            }
            i += 1;
        }
        None
    }

    /// Whether `key` holds a value.  Never fails.
    pub fn contains(&self, key: &str) -> (r: Result<bool, EspError>)
        requires
            self.wf(),
        ensures
            r == Ok::<bool, EspError>(self@.map.contains_key(key@)),
    {
        match self.find_index(key) {
            Some(i) => {
                proof {
                    lemma_entries_map_found(self.entries@, i as int);
                }
                Ok(true)
            },
            None => {
                proof {
                    lemma_entries_map_absent(self.entries@, key@);
                }
                Ok(false)
            },
        }
    }

    /// The length of the value under `key`, or `None` if the key is absent.
    /// Never fails.
    pub fn len(&self, key: &str) -> (r: Result<Option<usize>, EspError>)
        requires
            self.wf(),
        ensures
            r is Ok,
            self@.map.contains_key(key@) ==> (r->Ok_0 is Some && r->Ok_0->0
                == self@.map[key@].len()),
            !self@.map.contains_key(key@) ==> r->Ok_0 is None,
    {
        match self.find_index(key) {
            Some(i) => {
                proof {
                    lemma_entries_map_found(self.entries@, i as int);
                }
                Ok(Some(self.entries[i].value.len()))
            },
            None => {
                proof {
                    lemma_entries_map_absent(self.entries@, key@);
                }
                Ok(None)
            },
        }
    }

    /// Read the value under `key` into `buf`, whose length is the caller's
    /// buffer size.  An absent key gives `Ok(None)`; a buffer shorter than
    /// the stored value gives `StorageError` and leaves `buf` as it was (the
    /// caller retries with a buffer sized to what [`EspNvs::len`] reports).
    /// On success `buf` holds exactly the stored value, whose length is
    /// returned.
    pub fn get_raw(&self, key: &str, buf: &mut Vec<u8>) -> (r: Result<Option<usize>, EspError>)
        requires
            self.wf(),
        ensures
            !self@.map.contains_key(key@) ==> r == Ok::<Option<usize>, EspError>(None) && final(buf)@ == old(buf)@,
            self@.map.contains_key(key@) && self@.map[key@].len() <= old(buf)@.len() ==> (r
                == Ok::<Option<usize>, EspError>(Some(self@.map[key@].len() as usize)) && final(buf)@ == self@.map[key@]),
            self@.map.contains_key(key@) && self@.map[key@].len() > old(buf)@.len() ==> (r
                == Err::<Option<usize>, EspError>(EspError::StorageError) && final(buf)@ == old(buf)@),
    {
        match self.find_index(key) {
            Some(i) => {
                proof {
                    lemma_entries_map_found(self.entries@, i as int);
                }
                let stored = &self.entries[i].value;
                if stored.len() > buf.len() {
                    Err(EspError::StorageError)
                } else {
                    buf.truncate(0);
                    let mut j: usize = 0;
                    while j < stored.len()
                        invariant
                            j <= stored@.len(),
                            buf@ == stored@.subrange(0, j as int),
                        decreases stored@.len() - j,
                    {
                        buf.push(stored[j]);
                        assert(buf@ =~= stored@.subrange(0, j + 1 as int));
                        j += 1;
                    }
                    proof {
                        assert(buf@ =~= stored@) by {
                            assert(stored@.subrange(0, stored@.len() as int) =~= stored@);
                        }
                    }
                    Ok(Some(stored.len()))
                }
            },
            None => {
                proof {
                    lemma_entries_map_absent(self.entries@, key@);
                }
                Ok(None)
            },
        }
    }

    /// Whether a write of a value of `value_len` bytes is accepted by a store
    /// in state `v`.
    pub open spec fn write_accepted(v: NvsView, value_len: int) -> bool {
        v.read_write && value_len <= MAX_VALUE_LEN
    }

    /// Store `value` under `key`.  Returns `Ok(true)` on a fresh insert and
    /// `Ok(false)` on an overwrite; refused with `StorageError`, leaving the
    /// store unchanged, exactly when the handle is read-only or the value is
    /// over-long.
    pub fn set_raw(&mut self, key: &str, value: &[u8]) -> (r: Result<bool, EspError>)
        requires
            old(self).wf(),
        ensures
            final(self).wf(),
            Self::write_accepted(old(self)@, value@.len() as int) ==> (r == Ok::<bool, EspError>(
                !old(self)@.map.contains_key(key@),
            ) && final(self)@ == (NvsView { map: old(self)@.map.insert(key@, value@), ..old(self)@ })),
            !Self::write_accepted(old(self)@, value@.len() as int) ==> (r == Err::<bool, EspError>(
                EspError::StorageError,
            ) && final(self)@ == old(self)@),
    {
        if !self.read_write || value.len() > MAX_VALUE_LEN {
            return Err(EspError::StorageError);
        }
        let mut copied: Vec<u8> = Vec::new();
        let mut j: usize = 0;
        while j < value.len()
            invariant
                j <= value@.len(),
                copied@ == value@.subrange(0, j as int),
            decreases value@.len() - j,
        {
            copied.push(value[j]);
            assert(copied@ =~= value@.subrange(0, j + 1 as int));
            j += 1;
        }
        proof {
            assert(copied@ =~= value@) by {
                assert(value@.subrange(0, value@.len() as int) =~= value@);
            }
        }
        let ghost pre = self.entries@;
        let found = self.find_index(key);
        let fresh: bool;
        match found {
            Some(i) => {
                proof {
                    lemma_entries_map_found(pre, i as int);
                    lemma_entries_map_remove(pre, i as int);
                }
                let _ = self.entries.remove(i);
                fresh = false;
                proof {
                    let rem = pre.remove(i as int);
                    assert(self.entries@ =~= rem);
                    assert forall|a: int, b: int| 0 <= a < b < rem.len() implies rem[a].key@
                        != rem[b].key@ by {
                        assert(rem[a] == if a < i { pre[a] } else { pre[a + 1] });
                        assert(rem[b] == if b < i { pre[b] } else { pre[b + 1] });
                    }
                    assert forall|a: int| 0 <= a < rem.len() implies rem[a].key@ != key@ by {
                        assert(rem[a] == if a < i { pre[a] } else { pre[a + 1] });
                    }
                }
            },
            None => {
                fresh = true;
                proof {
                    lemma_entries_map_absent(pre, key@);
                }
            },
        }
        let ghost base = self.entries@;
        let entry = NvsEntry { key: key.to_owned(), value: copied };
        self.entries.push(entry);
        proof {
            assert(self.entries@.drop_last() =~= base);
            assert(entries_map(self.entries@) == entries_map(base).insert(key@, copied@));
            assert forall|a: int, b: int|
                0 <= a < b < self.entries@.len() implies self.entries@[a].key@
                != self.entries@[b].key@ by {
                if b < self.entries@.len() - 1 {
                    assert(self.entries@[a] == base[a] && self.entries@[b] == base[b]);
                } else {
                    assert(self.entries@[a] == base[a]);
                    assert(self.entries@[b].key@ == key@);
                }
            }
            if fresh {
                assert(entries_map(base).insert(key@, copied@) =~= old(self)@.map.insert(
                    key@,
                    value@,
                ));
            } else {
                assert(entries_map(base) =~= old(self)@.map.remove(key@));
                assert(entries_map(base).insert(key@, copied@) =~= old(self)@.map.insert(
                    key@,
                    value@,
                ));
            }
        }
        if fresh {
            Ok(true)
        } else {
            Ok(false)
        }
    }

    /// Delete the value under `key`.  Returns whether a value existed and was
    /// removed; refused with `StorageError`, leaving the store unchanged,
    /// exactly when the handle is read-only.
    pub fn remove(&mut self, key: &str) -> (r: Result<bool, EspError>)
        requires
            old(self).wf(),
        ensures
            final(self).wf(),
            old(self)@.read_write ==> (r == Ok::<bool, EspError>(
                old(self)@.map.contains_key(key@),
            ) && final(self)@ == (NvsView { map: old(self)@.map.remove(key@), ..old(self)@ })),
            !old(self)@.read_write ==> (r == Err::<bool, EspError>(EspError::StorageError) && final(self)@ == old(self)@),
    {
        if !self.read_write {
            return Err(EspError::StorageError);
        }
        let ghost pre = self.entries@;
        match self.find_index(key) {
            Some(i) => {
                proof {
                    lemma_entries_map_found(pre, i as int);
                    lemma_entries_map_remove(pre, i as int);
                }
                let _ = self.entries.remove(i);
                proof {
                    let rem = pre.remove(i as int);
                    assert(self.entries@ =~= rem);
                    assert forall|a: int, b: int| 0 <= a < b < rem.len() implies rem[a].key@
                        != rem[b].key@ by {
                        assert(rem[a] == if a < i { pre[a] } else { pre[a + 1] });
                        assert(rem[b] == if b < i { pre[b] } else { pre[b + 1] });
                    }
                }
                Ok(true)
            },
            None => {
                proof {
                    lemma_entries_map_absent(pre, key@);
                    assert(entries_map(pre).remove(key@) =~= entries_map(pre));
                }
                Ok(false)
            },
        }
    }
}

/// Law: a value just stored is read back exactly, and a removed key is gone.
///
/// Together with the contracts of [`EspNvs::set_raw`], [`EspNvs::get_raw`],
/// [`EspNvs::remove`] and [`EspNvs::contains`], which speak of the same map,
/// this gives the storage round trip: `set_raw(k, v)` then `get_raw(k, buf)`
/// with a large enough buffer yields exactly `v`, and `remove(k)` then
/// `contains(k)` yields `false`.
pub proof fn lemma_storage_round_trip(m: Map<Seq<char>, Seq<u8>>, k: Seq<char>, v: Seq<u8>)
    ensures
        m.insert(k, v).contains_key(k),
        m.insert(k, v)[k] == v,
        !m.remove(k).contains_key(k),
{
}

} // verus!
