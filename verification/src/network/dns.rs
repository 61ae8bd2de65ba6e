//! A cache of DNS answers with a time to live. The lookup itself is network
//! I/O and stays with the caller; the cache decides when an answer may be
//! reused and records fresh ones. Times are milliseconds of a monotonic
//! clock.
use vstd::prelude::*;
use crate::assoc::{assoc_find, assoc_insert, assoc_view, has_key, keys_unique, lemma_key_index, lemma_push};
use crate::text_util::{concat_str, decimal, u64_to_string};

verus! {

/// Abstract content of a DNS cache: the time to live, and for each name the
/// address text and when it was cached.
pub struct DnsCacheView {
    pub ttl_ms: u64,
    pub entries: Map<Seq<char>, (String, u64)>,
}

/// An entry cached at `cached_at` is still fresh at `now`.
pub open spec fn is_fresh(cached_at: u64, now: u64, ttl: u64) -> bool {
    (if now >= cached_at { now - cached_at } else { 0 }) < ttl
}

/// The entries a cleanup at `now` keeps: the fresh ones.
pub open spec fn fresh_entries(
    m: Map<Seq<char>, (String, u64)>,
    now: u64,
    ttl: u64,
) -> Map<Seq<char>, (String, u64)> {
    Map::new(|k: Seq<char>| m.contains_key(k) && is_fresh(m[k].1, now, ttl), |k: Seq<char>| m[k])
}

/// The cached address for `name` that may be used at `now`, if any.
pub open spec fn cached_for(v: DnsCacheView, name: Seq<char>, now: u64) -> Option<Seq<char>> {
    if v.entries.contains_key(name) && is_fresh(v.entries[name].1, now, v.ttl_ms) {
        Some(v.entries[name].0@)
    } else {
        None
    }
}

/// The text describing one cached entry: its address and age in whole
/// seconds.
pub open spec fn cache_entry_text(ip: Seq<char>, cached_at: u64, now: u64) -> Seq<char> {
    ip + " (cached "@ + decimal(((if now >= cached_at { now - cached_at } else { 0 }) / 1000) as nat)
        + "s ago)"@
}

/// DNS answers by name, each reusable for the time to live.
#[derive(Debug)]
pub struct DnsCache {
    cache: Vec<(String, (String, u64))>,
    ttl_ms: u64,
}

impl View for DnsCache {
    type V = DnsCacheView;

    closed spec fn view(&self) -> DnsCacheView {
        DnsCacheView { ttl_ms: self.ttl_ms, entries: assoc_view(self.cache@) }
    }
}

impl DnsCache {
    /// Well-formedness: one entry per name.
    pub closed spec fn wf(&self) -> bool {
        keys_unique(self.cache@)
    }

    /// An empty cache whose answers live `ttl_secs` seconds.
    pub fn new(ttl_secs: u64) -> (r: Self)
        requires
            ttl_secs * 1000 <= u64::MAX,
        ensures
            r.wf(),
            r@.ttl_ms == ttl_secs * 1000,
            r@.entries == Map::<Seq<char>, (String, u64)>::empty(),
    {
        let r = DnsCache { cache: Vec::new(), ttl_ms: ttl_secs * 1000 };
        proof {
            assert(assoc_view(r.cache@) =~= Map::empty());
        }
        r
    }

    /// The cache lookup of `resolve_hostname` and `resolve_domain`: the
    /// address cached for `name`, when it is younger than the time to live.
    pub fn cached_address(&self, name: &str, now: u64) -> (r: Option<String>)
        requires
            self.wf(),
        ensures
            opt_text(r) == cached_for(self@, name@, now),
    {
        match assoc_find(&self.cache, name) {
            Some(i) => {
                proof {
                    lemma_key_index(self.cache@, i as int);
                }
                let cached_at = self.cache[i].1.1;
                let age = if now >= cached_at { now - cached_at } else { 0 };
                if age < self.ttl_ms {
                    Some(self.cache[i].1.0.clone())
                } else {
                    None
                }
            },
            None => None,
        }
    }

    /// Records the address resolved for `name` at `now`.
    pub fn store(&mut self, name: String, address: String, now: u64)
        requires
            old(self).wf(),
        ensures
            final(self).wf(),
            final(self)@.ttl_ms == old(self)@.ttl_ms,
            final(self)@.entries.dom() == old(self)@.entries.dom().insert(name@),
            final(self)@.entries[name@].0@ == address@,
            final(self)@.entries[name@].1 == now,
            forall|k: Seq<char>| k != name@ && #[trigger] old(self)@.entries.contains_key(k)
                ==> final(self)@.entries[k] == old(self)@.entries[k],
    {
        assoc_insert(&mut self.cache, name, (address, now));
    }

    /// Drops the entries that are no longer fresh at `now`.
    pub fn cleanup_dns_cache(&mut self, now: u64)
        requires
            old(self).wf(),
        ensures
            final(self).wf(),
            final(self)@.ttl_ms == old(self)@.ttl_ms,
            final(self)@.entries == fresh_entries(old(self)@.entries, now, old(self)@.ttl_ms),
    {
        let mut old_cache: Vec<(String, (String, u64))> = Vec::new();
        std::mem::swap(&mut old_cache, &mut self.cache);
        let ghost src = old_cache@;
        assert(src.len() == old_cache.len());
        let ttl = self.ttl_ms;
        let mut kept: Vec<(String, (String, u64))> = Vec::new();
        let mut i: usize = 0;
        proof {
            assert(assoc_view(kept@) =~= fresh_entries(assoc_view(src.take(0)), now, ttl));
        }
        while old_cache.len() > 0
            invariant
                old_cache@ == src.skip(i as int),
                src.len() <= usize::MAX,
                keys_unique(src),
                i <= src.len(),
                keys_unique(kept@),
                forall|j: int| 0 <= j < kept@.len() ==> has_key(src.take(i as int), #[trigger] kept@[j].0@),
                assoc_view(kept@) == fresh_entries(assoc_view(src.take(i as int)), now, ttl),
            decreases old_cache@.len(),
        {
            let ghost before = src.take(i as int);
            proof {
                assert(i < src.len());
                assert(src.skip(i as int)[0] == src[i as int]);
                assert(src.take(i as int + 1) =~= before.push(src[i as int]));
                assert(keys_unique(before));
                if has_key(before, src[i as int].0@) {
                    let j = choose|j: int| 0 <= j < before.len() && #[trigger] before[j].0@ == src[i as int].0@;
                    assert(src[j].0@ != src[i as int].0@);
                }
                lemma_push(before, src[i as int].0, src[i as int].1);
            }
            let (key, entry) = old_cache.remove(0);
            proof {
                assert(old_cache@ =~= src.skip(i as int + 1));
            }
            let age = if now >= entry.1 { now - entry.1 } else { 0 };
            if age < ttl {
                proof {
                    assert(!has_key(kept@, key@)) by {
                        if has_key(kept@, key@) {
                            let j = choose|j: int| 0 <= j < kept@.len() && #[trigger] kept@[j].0@ == key@;
                            assert(has_key(before, kept@[j].0@));
                        }
                    }
                    lemma_push(kept@, key, entry);
                }
                kept.push((key, entry));
                proof {
                    assert(assoc_view(kept@) =~= fresh_entries(assoc_view(src.take(i as int + 1)), now, ttl));
                    assert forall|j: int| 0 <= j < kept@.len() implies has_key(src.take(i as int + 1), #[trigger] kept@[j].0@) by {
                        if j < kept@.len() - 1 {
                            let w = choose|w: int| 0 <= w < before.len() && #[trigger] before[w].0@ == kept@[j].0@;
                            assert(src.take(i as int + 1)[w] == before[w]);
                        } else {
                            assert(src.take(i as int + 1)[i as int] == src[i as int]);
                        }
                    }
                }
            } else {
                proof {
                    assert(assoc_view(kept@) =~= fresh_entries(assoc_view(src.take(i as int + 1)), now, ttl));
                    assert forall|j: int| 0 <= j < kept@.len() implies has_key(src.take(i as int + 1), #[trigger] kept@[j].0@) by {
                        let w = choose|w: int| 0 <= w < before.len() && #[trigger] before[w].0@ == kept@[j].0@;
                        assert(src.take(i as int + 1)[w] == before[w]);
                    }
                }
            }
            i = i + 1;
        }
        proof {
            assert(src.take(src.len() as int) =~= src);
        }
        self.cache = kept;
    }

    /// For each cached name, its address and age: `<ip> (cached <n>s ago)`.
    pub fn get_dns_cache_stats(&self, now: u64) -> (r: Vec<(String, String)>)
        requires
            self.wf(),
        ensures
            r@.len() == self@.entries.len(),
            forall|i: int| 0 <= i < r@.len() ==> {
                let k = #[trigger] r@[i].0@;
                &&& self@.entries.contains_key(k)
                &&& r@[i].1@ == cache_entry_text(self@.entries[k].0@, self@.entries[k].1, now)
            },
            forall|k: Seq<char>| #[trigger] self@.entries.contains_key(k) ==> exists|i: int|
                0 <= i < r@.len() && r@[i].0@ == k,
    {
        let mut r: Vec<(String, String)> = Vec::new();
        let mut i: usize = 0;
        while i < self.cache.len()
            invariant
                keys_unique(self.cache@),
                i <= self.cache@.len(),
                r@.len() == i,
                forall|j: int| 0 <= j < i ==> #[trigger] r@[j].0@ == self.cache@[j].0@,
                forall|j: int| 0 <= j < i ==> #[trigger] r@[j].1@ == cache_entry_text(
                    self.cache@[j].1.0@,
                    self.cache@[j].1.1,
                    now,
                ),
            decreases self.cache@.len() - i,
        {
            let cached_at = self.cache[i].1.1;
            let age = if now >= cached_at { now - cached_at } else { 0 };
            let mut text = concat_str(self.cache[i].1.0.as_str(), " (cached ");
            text.append(u64_to_string(age / 1000).as_str());
            text.append("s ago)");
            proof {
                reveal_strlit(" (cached ");
                reveal_strlit("s ago)");
            }
            r.push((self.cache[i].0.clone(), text));
            i = i + 1;
        }
        proof {
            crate::assoc::lemma_assoc_len(self.cache@);
            assert forall|j: int| 0 <= j < r@.len() implies {
                let k = #[trigger] r@[j].0@;
                &&& self@.entries.contains_key(k)
                &&& r@[j].1@ == cache_entry_text(self@.entries[k].0@, self@.entries[k].1, now)
            } by {
                lemma_key_index(self.cache@, j);
            }
            assert forall|k: Seq<char>| #[trigger] self@.entries.contains_key(k) implies exists|j: int|
                0 <= j < r@.len() && r@[j].0@ == k by {
                let j = crate::assoc::key_index(self.cache@, k);
                assert(r@[j].0@ == k);
            }
        }
        r
    }
}

/// Text of an optional string.
pub open spec fn opt_text(o: Option<String>) -> Option<Seq<char>> {
    match o {
        Some(s) => Some(s@),
        None => None,
    }
}

/// The error text when the system resolver fails.
pub fn dns_failure_message(detail: &str) -> (r: String)
    ensures
        r@ == "DNS resolution failed: "@ + detail@,
{
    proof {
        reveal_strlit("DNS resolution failed: ");
    }
    concat_str("DNS resolution failed: ", detail)
}

/// The error text when the resolver answers with no address.
pub fn no_address_message(domain: &str) -> (r: String)
    ensures
        r@ == "No IP address found for domain: "@ + domain@,
{
    proof {
        reveal_strlit("No IP address found for domain: ");
    }
    concat_str("No IP address found for domain: ", domain)
}

/// The host and port handed to the system resolver: the name on port 80.
pub fn resolver_target(name: &str) -> (r: String)
    ensures
        r@ == name@ + ":80"@,
{
    proof {
        reveal_strlit(":80");
    }
    concat_str(name, ":80")
}

/// A cached answer is reused until the time to live has passed, and never
/// after.
pub proof fn lemma_cache_answer_lifetime(v: DnsCacheView, name: Seq<char>, now: u64)
    requires
        v.entries.contains_key(name),
        v.entries[name].1 <= now,
    ensures
        now - v.entries[name].1 < v.ttl_ms ==> cached_for(v, name, now) == Some(v.entries[name].0@),
        now - v.entries[name].1 >= v.ttl_ms ==> cached_for(v, name, now) is None,
{
}

} // verus!
