use vstd::prelude::*;
use std::time::Instant;
use crate::media::MediaInfo;
use crate::text::same_text;

verus! {

/// How long fetched media information stays usable, in milliseconds (ten minutes).
pub const INFO_CACHE_TTL_MS: u128 = 600_000;

/// Above this many entries, inserting also drops the stale ones.
pub const INFO_CACHE_PRUNE_ABOVE: usize = 50;

/// Media information fetched for one address, and when.
pub struct CachedInfo {
    pub url: String,
    pub info: MediaInfo,
    pub cached_at: Instant,
}

/// No two entries are for the same address.
pub open spec fn urls_distinct(entries: Seq<CachedInfo>) -> bool {
    forall|a: int, b: int|
        0 <= a < entries.len() && 0 <= b < entries.len() && a != b ==> (#[trigger] entries[a]).url@
            != (#[trigger] entries[b]).url@
}

/// The position of the entry for this address, if there is one.
pub open spec fn entry_index(entries: Seq<CachedInfo>, url: Seq<char>) -> Option<int> {
    if exists|i: int| 0 <= i < entries.len() && (#[trigger] entries[i]).url@ == url {
        Some(choose|i: int| 0 <= i < entries.len() && (#[trigger] entries[i]).url@ == url)
    } else {
        None
    }
}

/// With distinct addresses, the entry for an address is the one that carries it.
pub proof fn lemma_entry_index_unique(entries: Seq<CachedInfo>, i: int)
    requires
        urls_distinct(entries),
        0 <= i < entries.len(),
    ensures
        entry_index(entries, entries[i].url@) == Some(i),
{
    let k = choose|k: int| 0 <= k < entries.len() && (#[trigger] entries[k]).url@ == entries[i].url@;
    assert(0 <= k < entries.len() && entries[k].url@ == entries[i].url@);
}

/// Inserting for this address leaves more entries than the bound, so stale
/// entries are dropped.
pub open spec fn insert_prunes(entries: Seq<CachedInfo>, url: Seq<char>) -> bool {
    if entry_index(entries, url) is Some {
        entries.len() > INFO_CACHE_PRUNE_ABOVE
    } else {
        entries.len() >= INFO_CACHE_PRUNE_ABOVE
    }
}

/// The entries among the first `n` that stay when inserting for `url`: not
/// the entry for `url` itself and, when pruning, none aged the time to live
/// or more.
pub open spec fn survivors(
    entries: Seq<CachedInfo>,
    ages: Seq<u128>,
    url: Seq<char>,
    prune: bool,
    n: nat,
) -> Seq<CachedInfo>
    decreases n,
{
    if n == 0 {
        Seq::empty()
    } else {
        let rest = survivors(entries, ages, url, prune, (n - 1) as nat);
        let e = entries[n - 1];
        if e.url@ != url && (!prune || ages[n - 1] < INFO_CACHE_TTL_MS) {
            rest.push(e)
        } else {
            rest
        }
    }
}

/// The entries after inserting `info` for `url` at `now`, given the entries'
/// ages at that moment.
pub open spec fn after_insert(
    entries: Seq<CachedInfo>,
    ages: Seq<u128>,
    url: String,
    info: MediaInfo,
    now: Instant,
) -> Seq<CachedInfo> {
    survivors(entries, ages, url@, insert_prunes(entries, url@), entries.len()).push(
        CachedInfo { url, info, cached_at: now },
    )
}

/// Media information per address, each entry stamped with when it was fetched.
pub struct InfoCache {
    entries: Vec<CachedInfo>,
}

impl InfoCache {
    #[verifier::type_invariant]
    spec fn wf(&self) -> bool {
        urls_distinct(self.entries@)
    }

    /// The entries, in insertion order.
    pub closed spec fn spec_entries(&self) -> Seq<CachedInfo> {
        self.entries@
    }

    /// An empty cache.
    pub fn new() -> (c: Self)
        ensures
            c.spec_entries() == Seq::<CachedInfo>::empty(),
    {
        InfoCache { entries: Vec::new() }
    }

    /// How many addresses have an entry.
    pub fn len(&self) -> (n: usize)
        ensures
            n == self.spec_entries().len(),
    {
        self.entries.len()
    }

    /// The position of the entry for this address.
    pub fn find(&self, url: &str) -> (r: Option<usize>)
        ensures
            urls_distinct(self.spec_entries()),
            match r {
                Some(i) => i < self.spec_entries().len() && self.spec_entries()[i as int].url@ == url@
                    && entry_index(self.spec_entries(), url@) == Some(i as int),
                None => entry_index(self.spec_entries(), url@) is None,
            },
    {
        proof {
            use_type_invariant(self);
        }
        let mut i: usize = 0;
        while i < self.entries.len()
            invariant
                i <= self.entries@.len(),
                urls_distinct(self.entries@),
                forall|j: int| 0 <= j < i ==> (#[trigger] self.entries@[j]).url@ != url@,
            decreases self.entries@.len() - i,
        {
            if same_text(self.entries[i].url.as_str(), url) {
                proof {
                    lemma_entry_index_unique(self.entries@, i as int);
                }
                return Some(i);
            }
            i = i + 1;
        }
        None
    }

    /// The media information cached for this address, if it is younger than
    /// the time to live; what comes back is a copy of the stored entry.
    pub fn fresh_info(&self, url: &str) -> (r: Option<MediaInfo>)
        ensures
            r matches Some(m) ==> (entry_index(self.spec_entries(), url@) matches Some(i) && m@
                == self.spec_entries()[i].info@),
            entry_index(self.spec_entries(), url@) is None ==> r is None,
    {
        match self.find(url) {
            Some(i) => {
                let now = Instant::now();
                let age_ms = now.duration_since(self.entries[i].cached_at).as_millis();
                self.info_if_fresh(i, age_ms)
            },
            None => None,
        }
    }

    /// A copy of the information at position `i`, if its age is below the
    /// time to live.
    pub fn info_if_fresh(&self, i: usize, age_ms: u128) -> (r: Option<MediaInfo>)
        requires
            i < self.spec_entries().len(),
        ensures
            r is Some <==> age_ms < INFO_CACHE_TTL_MS,
            r matches Some(m) ==> m@ == self.spec_entries()[i as int].info@,
    {
        if age_ms < INFO_CACHE_TTL_MS {
            Some(self.entries[i].info.duplicate())
        } else {
            None
        }
    }

    /// Whether inserting for this address calls for dropping stale entries.
    pub fn prunes_on_insert(&self, url: &str) -> (p: bool)
        ensures
            p == insert_prunes(self.spec_entries(), url@),
    {
        match self.find(url) {
            Some(_) => self.entries.len() > INFO_CACHE_PRUNE_ABOVE,
            None => self.entries.len() >= INFO_CACHE_PRUNE_ABOVE,
        }
    }

    /// The age of every entry at `now`, in whole milliseconds.
    fn entry_ages(&self, now: &Instant) -> (ages: Vec<u128>)
        ensures
            ages@.len() == self.spec_entries().len(),
    {
        let mut ages: Vec<u128> = Vec::new();
        let mut i: usize = 0;
        while i < self.entries.len()
            invariant
                i <= self.entries@.len(),
                ages@.len() == i,
            decreases self.entries@.len() - i,
        {
            ages.push(now.duration_since(self.entries[i].cached_at).as_millis());
            i = i + 1;
        }
        ages
    }

    /// Stores freshly fetched information for an address, replacing what was
    /// there. When the cache then holds more than its bound, the other entries
    /// that have outlived the time to live are dropped first.
    pub fn insert(&mut self, url: String, info: MediaInfo)
        ensures
            urls_distinct(final(self).spec_entries()),
            entry_index(final(self).spec_entries(), url@) matches Some(i)
                && final(self).spec_entries()[i].info == info,
            exists|ages: Seq<u128>, now: Instant|
                final(self).spec_entries() == #[trigger] after_insert(old(self).spec_entries(), ages, url, info, now),
            !insert_prunes(old(self).spec_entries(), url@) ==> forall|k: int|
                0 <= k < old(self).spec_entries().len() && (#[trigger] old(self).spec_entries()[k]).url@
                    != url@ ==> final(self).spec_entries().contains(old(self).spec_entries()[k]),
    {
        let now = Instant::now();
        let ages = if self.prunes_on_insert(url.as_str()) {
            self.entry_ages(&now)
        } else {
            Vec::new()
        };
        let ghost old_entries = self.spec_entries();
        let ghost now_spec = now;
        let ghost url_spec = url;
        let ghost info_spec = info;
        self.insert_with_ages(url, info, now, &ages);
        proof {
            assert(self.spec_entries() == after_insert(old_entries, ages@, url_spec, info_spec, now_spec));
        }
    }

    /// Stores information fetched at `now` for an address, given the age of
    /// every entry at that moment (needed only when the insert prunes): the
    /// entry for the address is replaced by the new one, at the end, and when
    /// pruning, the other entries aged the time to live or more are dropped.
    pub fn insert_with_ages(&mut self, url: String, info: MediaInfo, now: Instant, ages: &Vec<u128>)
        requires
            insert_prunes(old(self).spec_entries(), url@) ==> ages@.len() == old(self).spec_entries().len(),
        ensures
            urls_distinct(final(self).spec_entries()),
            final(self).spec_entries() == after_insert(old(self).spec_entries(), ages@, url, info, now),
            entry_index(final(self).spec_entries(), url@) matches Some(i)
                && final(self).spec_entries()[i].info == info,
            !insert_prunes(old(self).spec_entries(), url@) ==> forall|k: int|
                0 <= k < old(self).spec_entries().len() && (#[trigger] old(self).spec_entries()[k]).url@
                    != url@ ==> final(self).spec_entries().contains(old(self).spec_entries()[k]),
    {
        proof {
            use_type_invariant(&*self);
        }
        let prune = self.prunes_on_insert(url.as_str());
        let mut rest: Vec<CachedInfo> = Vec::new();
        std::mem::swap(&mut self.entries, &mut rest);
        let ghost orig = rest@;
        let mut kept: Vec<CachedInfo> = Vec::new();
        let n = rest.len();
        let mut k: usize = 0;
        while k < n
            invariant
                n == orig.len(),
                k <= n,
                prune ==> ages@.len() == n,
                rest@ == orig.subrange(k as int, n as int),
                urls_distinct(orig),
                urls_distinct(kept@),
                kept@ == survivors(orig, ages@, url@, prune, k as nat),
                forall|m: int| 0 <= m < kept@.len() ==> (#[trigger] kept@[m]).url@ != url@,
                forall|m: int|
                    0 <= m < kept@.len() ==> exists|j: int|
                        0 <= j < k && orig[j] == #[trigger] kept@[m],
                !prune ==> forall|j: int|
                    0 <= j < k && (#[trigger] orig[j]).url@ != url@ ==> kept@.contains(orig[j]),
            decreases n - k,
        {
            let e = rest.remove(0);
            let ghost e_spec = e;
            assert(e_spec == orig[k as int]);
            let keep = !same_text(e.url.as_str(), url.as_str()) && (!prune || ages[k] < INFO_CACHE_TTL_MS);
            if keep {
                let ghost before = kept@;
                proof {
                    assert forall|m: int| 0 <= m < before.len() implies before[m].url@ != e_spec.url@ by {
                        let j = choose|j: int| 0 <= j < k && orig[j] == #[trigger] before[m];
                        assert(j != k);
                    }
                }
                kept.push(e);
                proof {
                    assert(kept@[before.len() as int] == orig[k as int]);
                    assert forall|m: int|
                        0 <= m < kept@.len() implies exists|j: int|
                            0 <= j < k + 1 && orig[j] == #[trigger] kept@[m] by {
                        if m < before.len() {
                            assert(kept@[m] == before[m]);
                            let j = choose|j: int| 0 <= j < k && orig[j] == #[trigger] before[m];
                            assert(orig[j] == kept@[m]);
                        } else {
                            assert(orig[k as int] == kept@[m]);
                        }
                    }
                    assert forall|j: int|
                        0 <= j < k + 1 && !prune && (#[trigger] orig[j]).url@
                            != url@ implies kept@.contains(orig[j]) by {
                        if j < k {
                            assert(before.contains(orig[j]));
                            let m = choose|m: int| 0 <= m < before.len() && before[m] == orig[j];
                            assert(kept@[m] == before[m]);
                        } else {
                            assert(kept@[before.len() as int] == orig[j]);
                        }
                    }
                }
            }
            k = k + 1;
            assert(rest@ =~= orig.subrange(k as int, n as int));
        }
        let ghost before = kept@;
        kept.push(CachedInfo { url, info, cached_at: now });
        proof {
            let last = kept@.len() - 1;
            assert(urls_distinct(kept@));
            lemma_entry_index_unique(kept@, last);
            assert forall|j: int|
                0 <= j < orig.len() && !prune && (#[trigger] orig[j]).url@
                    != url@ implies kept@.contains(orig[j]) by {
                assert(before.contains(orig[j]));
                let m = choose|m: int| 0 <= m < before.len() && before[m] == orig[j];
                assert(kept@[m] == before[m]);
            }
        }
        self.entries = kept;
    }
}

} // verus!
