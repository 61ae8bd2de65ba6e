//! Proxy rotation: which requests a proxy serves, its health under a
//! circuit breaker (three failures in a row take it out of use, a success
//! brings it back), and round-robin selection among healthy proxies.
//! Times are milliseconds since the Unix epoch.
use vstd::prelude::*;
use crate::common::now_millis;
use crate::text_util::{concat_str, has_prefix, starts_with, str_eq, strings_view};

verus! {

/// Which kind of request a proxy is not used for.
#[derive(Clone, Copy, Debug, PartialEq, Eq, Structural)]
pub enum ProxyIgnore {
    /// Not used for browser (Chrome) requests.
    Chrome,
    /// Not used for HTTP requests.
    Http,
    /// Used for every request.
    No,
}

impl Default for ProxyIgnore {
    fn default() -> (r: Self)
        ensures
            r == ProxyIgnore::No,
    {
        ProxyIgnore::No
    }
}

/// One proxy with its health.
#[derive(Debug)]
pub struct RequestProxy {
    pub addr: String,
    pub ignore: ProxyIgnore,
    pub healthy: bool,
    pub last_success: Option<u64>,
    pub failure_count: u32,
}

/// Health and failure count after one more failure: the third failure in a
/// row marks the proxy unhealthy.
pub open spec fn failure_step(healthy: bool, failures: u32) -> (bool, u32) {
    (healthy && failures + 1 < 3, (failures + 1) as u32)
}

/// The address handed to the HTTP client by a Linux build: the client has
/// no SOCKS support there, so a leading `socks://` becomes `http://`.
pub open spec fn reqwest_url(addr: Seq<char>) -> Seq<char> {
    if has_prefix(addr, "socks://"@) { "http://"@ + addr.skip(8) } else { addr }
}

/// The address handed to the HTTP client on a Linux target (`linux`) or on
/// another one, where the address is kept as it is.
pub open spec fn reqwest_url_on(addr: Seq<char>, linux: bool) -> Seq<char> {
    if linux { reqwest_url(addr) } else { addr }
}

impl Clone for RequestProxy {
    fn clone(&self) -> (r: Self)
        ensures
            r.addr@ == self.addr@,
            r.ignore == self.ignore,
            r.healthy == self.healthy,
            r.last_success == self.last_success,
            r.failure_count == self.failure_count,
    {
        RequestProxy { addr: self.addr.clone(), ..*self }
    }
}

impl RequestProxy {
    /// A healthy proxy used for every request, with no failures.
    pub fn new(addr: String) -> (r: Self)
        ensures
            r.addr@ == addr@,
            r.ignore == ProxyIgnore::No,
            r.healthy,
            r.last_success is None,
            r.failure_count == 0,
    {
        RequestProxy { addr, ignore: ProxyIgnore::No, healthy: true, last_success: None, failure_count: 0 }
    }

    pub fn with_ignore(self, ignore: ProxyIgnore) -> (r: Self)
        ensures
            r.addr@ == self.addr@,
            r.ignore == ignore,
            r.healthy == self.healthy,
            r.last_success == self.last_success,
            r.failure_count == self.failure_count,
    {
        RequestProxy { ignore, ..self }
    }

    /// Healthy and not ignored for HTTP requests.
    pub fn should_use_for_http(&self) -> (r: bool)
        ensures
            r == (self.healthy && self.ignore != ProxyIgnore::Http),
    {
        self.healthy && self.ignore != ProxyIgnore::Http
    }

    /// Healthy and not ignored for browser requests.
    pub fn should_use_for_chrome(&self) -> (r: bool)
        ensures
            r == (self.healthy && self.ignore != ProxyIgnore::Chrome),
    {
        self.healthy && self.ignore != ProxyIgnore::Chrome
    }

    /// Counts a failure; the third failure in a row marks the proxy
    /// unhealthy.
    pub fn mark_failure(&mut self)
        requires
            old(self).failure_count < u32::MAX,
        ensures
            (final(self).healthy, final(self).failure_count) == failure_step(
                old(self).healthy,
                old(self).failure_count,
            ),
            final(self).addr@ == old(self).addr@,
            final(self).ignore == old(self).ignore,
            final(self).last_success == old(self).last_success,
    {
        self.failure_count = self.failure_count + 1;
        if self.failure_count >= 3 {
            self.healthy = false;
        }
    }

    /// Records a success now: the failures are forgotten and the proxy is
    /// healthy again.
    pub fn mark_success(&mut self)
        ensures
            final(self).failure_count == 0,
            final(self).healthy,
            final(self).last_success is Some,
            final(self).addr@ == old(self).addr@,
            final(self).ignore == old(self).ignore,
    {
        self.mark_success_at(now_millis());
    }

    /// Records a success at `now`.
    pub fn mark_success_at(&mut self, now: u64)
        ensures
            final(self).failure_count == 0,
            final(self).healthy,
            final(self).last_success == Some(now),
            final(self).addr@ == old(self).addr@,
            final(self).ignore == old(self).ignore,
    {
        self.failure_count = 0;
        self.healthy = true;
        self.last_success = Some(now);
    }

    /// The address for the HTTP client on the given kind of target: only
    /// a Linux build rewrites `socks://`. The caller, which knows the target
    /// it was built for, says which.
    pub fn get_reqwest_url_on(&self, linux: bool) -> (r: String)
        ensures
            r@ == reqwest_url_on(self.addr@, linux),
    {
        if linux {
            self.get_reqwest_url()
        } else {
            self.addr.clone()
        }
    }

    /// The address for the HTTP client as a Linux build hands it over (see
    /// `get_reqwest_url_on` for other targets).
    pub fn get_reqwest_url(&self) -> (r: String)
        ensures
            r@ == reqwest_url(self.addr@),
    {
        proof {
            reveal_strlit("socks://");
            reveal_strlit("http://");
        }
        if starts_with(self.addr.as_str(), "socks://") {
            let rest = self.addr.as_str().substring_char(8, self.addr.as_str().unicode_len());
            concat_str("http://", rest)
        } else {
            self.addr.clone()
        }
    }
}

/// Some proxy in the list has this address.
pub open spec fn has_addr(v: Seq<RequestProxy>, a: Seq<char>) -> bool {
    exists|j: int| 0 <= j < v.len() && #[trigger] v[j].addr@ == a
}

/// Position `j` holds the first proxy in the list with address `a`.
pub open spec fn is_first_with_addr(v: Seq<RequestProxy>, a: Seq<char>, j: int) -> bool {
    &&& 0 <= j < v.len()
    &&& v[j].addr@ == a
    &&& forall|k: int| 0 <= k < j ==> #[trigger] v[k].addr@ != a
}

/// Usable for HTTP requests.
pub open spec fn http_usable(p: RequestProxy) -> bool {
    p.healthy && p.ignore != ProxyIgnore::Http
}

/// Usable for browser requests.
pub open spec fn chrome_usable(p: RequestProxy) -> bool {
    p.healthy && p.ignore != ProxyIgnore::Chrome
}

/// The healthy proxies, in order.
pub open spec fn healthy_of(v: Seq<RequestProxy>) -> Seq<RequestProxy> {
    v.filter(|p: RequestProxy| p.healthy)
}

/// Rotates through a list of proxies.
#[derive(Debug)]
pub struct ProxyRotationManager {
    proxies: Vec<RequestProxy>,
    current_index: usize,
}

/// Abstract content of a rotation manager.
pub struct ProxyRotationManagerView {
    pub proxies: Seq<RequestProxy>,
    pub current_index: usize,
}

impl View for ProxyRotationManager {
    type V = ProxyRotationManagerView;

    closed spec fn view(&self) -> ProxyRotationManagerView {
        ProxyRotationManagerView { proxies: self.proxies@, current_index: self.current_index }
    }
}

impl ProxyRotationManager {
    pub fn new(proxies: Vec<RequestProxy>) -> (r: Self)
        ensures
            r@.proxies == proxies@,
            r@.current_index == 0,
    {
        ProxyRotationManager { proxies, current_index: 0 }
    }

    /// The client addresses of the proxies usable for HTTP, in order, as a
    /// Linux build hands them over (see `get_http_proxies_on`).
    pub fn get_http_proxies(&self) -> (r: Vec<String>)
        ensures
            strings_view(r@) == self@.proxies.filter(|p: RequestProxy| http_usable(p)).map_values(
                |p: RequestProxy| reqwest_url(p.addr@),
            ),
    {
        let r = self.get_http_proxies_on(true);
        proof {
            assert(self@.proxies.filter(|p: RequestProxy| http_usable(p)).map_values(
                |p: RequestProxy| reqwest_url_on(p.addr@, true),
            ) =~= self@.proxies.filter(|p: RequestProxy| http_usable(p)).map_values(
                |p: RequestProxy| reqwest_url(p.addr@),
            ));
        }
        r
    }

    /// The client addresses of the proxies usable for HTTP, in order, on a
    /// Linux target (`linux`) or another one (see `reqwest_url_on`).
    pub fn get_http_proxies_on(&self, linux: bool) -> (r: Vec<String>)
        ensures
            strings_view(r@) == self@.proxies.filter(|p: RequestProxy| http_usable(p)).map_values(
                |p: RequestProxy| reqwest_url_on(p.addr@, linux),
            ),
    {
        let mut r: Vec<String> = Vec::new();
        let mut i: usize = 0;
        while i < self.proxies.len()
            invariant
                i <= self@.proxies.len(),
                strings_view(r@) == self@.proxies.take(i as int).filter(|p: RequestProxy| http_usable(p)).map_values(
                    |p: RequestProxy| reqwest_url_on(p.addr@, linux),
                ),
            decreases self@.proxies.len() - i,
        {
            let ghost before = r@;
            proof {
                let t = self@.proxies.take(i as int + 1);
                assert(t.drop_last() =~= self@.proxies.take(i as int));
                reveal(Seq::filter);
            }
            if self.proxies[i].should_use_for_http() {
                let u = self.proxies[i].get_reqwest_url_on(linux);
                r.push(u);
                proof {
                    assert(strings_view(r@) =~= strings_view(before).push(u@));
                }
            }
            i = i + 1;
        }
        proof {
            assert(self@.proxies.take(self@.proxies.len() as int) =~= self@.proxies);
        }
        r
    }

    /// The addresses of the proxies usable for browser requests, in order.
    pub fn get_chrome_proxies(&self) -> (r: Vec<String>)
        ensures
            strings_view(r@) == self@.proxies.filter(|p: RequestProxy| chrome_usable(p)).map_values(
                |p: RequestProxy| p.addr@,
            ),
    {
        let mut r: Vec<String> = Vec::new();
        let mut i: usize = 0;
        while i < self.proxies.len()
            invariant
                i <= self@.proxies.len(),
                strings_view(r@) == self@.proxies.take(i as int).filter(|p: RequestProxy| chrome_usable(p)).map_values(
                    |p: RequestProxy| p.addr@,
                ),
            decreases self@.proxies.len() - i,
        {
            let ghost before = r@;
            proof {
                let t = self@.proxies.take(i as int + 1);
                assert(t.drop_last() =~= self@.proxies.take(i as int));
                reveal(Seq::filter);
            }
            if self.proxies[i].should_use_for_chrome() {
                let a = self.proxies[i].addr.clone();
                r.push(a);
                proof {
                    assert(strings_view(r@) =~= strings_view(before).push(a@));
                }
            }
            i = i + 1;
        }
        proof {
            assert(self@.proxies.take(self@.proxies.len() as int) =~= self@.proxies);
        }
        r
    }

    /// The next healthy proxy in round-robin order: the counter (which
    /// wraps around at the top) taken modulo the number of healthy proxies
    /// picks it; `None` when no proxy is healthy.
    pub fn get_next_proxy(&mut self) -> (r: Option<RequestProxy>)
        ensures
            final(self)@.proxies == old(self)@.proxies,
            final(self)@.current_index == old(self)@.current_index.wrapping_add(1),
            healthy_of(old(self)@.proxies).len() == 0 ==> r is None,
            healthy_of(old(self)@.proxies).len() > 0 ==> (r matches Some(p) && {
                let h = healthy_of(old(self)@.proxies);
                let q = h[old(self)@.current_index as int % h.len() as int];
                &&& p.addr@ == q.addr@
                &&& p.healthy == q.healthy
                &&& p.ignore == q.ignore
                &&& p.failure_count == q.failure_count
                &&& p.last_success == q.last_success
            }),
    {
        let mut healthy: Vec<usize> = Vec::new();
        let mut i: usize = 0;
        while i < self.proxies.len()
            invariant
                i <= self@.proxies.len(),
                healthy@.len() == healthy_of(self@.proxies.take(i as int)).len(),
                forall|k: int| 0 <= k < healthy@.len() ==> #[trigger] healthy@[k] < self@.proxies.len()
                    && self@.proxies[healthy@[k] as int] == healthy_of(self@.proxies.take(i as int))[k],
            decreases self@.proxies.len() - i,
        {
            proof {
                let t = self@.proxies.take(i as int + 1);
                assert(t.drop_last() =~= self@.proxies.take(i as int));
                reveal(Seq::filter);
                assert(healthy_of(t) == if t.last().healthy {
                    healthy_of(t.drop_last()).push(t.last())
                } else {
                    healthy_of(t.drop_last())
                });
            }
            if self.proxies[i].healthy {
                healthy.push(i);
            }
            i = i + 1;
        }
        proof {
            assert(self@.proxies.take(self@.proxies.len() as int) =~= self@.proxies);
        }
        let idx = self.current_index;
        self.current_index = self.current_index.wrapping_add(1);
        if healthy.len() == 0 {
            None
        } else {
            let k = idx % healthy.len();
            Some(self.proxies[healthy[k]].clone())
        }
    }

    fn find_proxy(&self, addr: &str) -> (r: Option<usize>)
        ensures
            match r {
                Some(i) => i < self@.proxies.len() && self@.proxies[i as int].addr@ == addr@ && forall|j: int|
                    0 <= j < i ==> #[trigger] self@.proxies[j].addr@ != addr@,
                None => forall|j: int| 0 <= j < self@.proxies.len() ==> #[trigger] self@.proxies[j].addr@
                    != addr@,
            },
    {
        let mut i: usize = 0;
        while i < self.proxies.len()
            invariant
                i <= self@.proxies.len(),
                forall|j: int| 0 <= j < i ==> #[trigger] self@.proxies[j].addr@ != addr@,
            decreases self@.proxies.len() - i,
        {
            if str_eq(self.proxies[i].addr.as_str(), addr) {
                return Some(i);
            }
            i = i + 1;
        }
        None
    }

    /// Counts a failure for the first proxy with this address.
    pub fn mark_proxy_failed(&mut self, addr: &str)
        requires
            forall|j: int| 0 <= j < old(self)@.proxies.len() ==> #[trigger] old(self)@.proxies[j].failure_count
                < u32::MAX,
        ensures
            final(self)@.proxies.len() == old(self)@.proxies.len(),
            final(self)@.current_index == old(self)@.current_index,
            forall|j: int| 0 <= j < old(self)@.proxies.len() && !is_first_with_addr(old(self)@.proxies, addr@, j)
                ==> #[trigger] final(self)@.proxies[j] == old(self)@.proxies[j],
            forall|j: int| #[trigger] is_first_with_addr(old(self)@.proxies, addr@, j) ==> {
                let p = old(self)@.proxies[j];
                let q = final(self)@.proxies[j];
                &&& (q.healthy, q.failure_count) == failure_step(p.healthy, p.failure_count)
                &&& q.addr@ == p.addr@
                &&& q.ignore == p.ignore
                &&& q.last_success == p.last_success
            },
    {
        match self.find_proxy(addr) {
            Some(i) => {
                let mut p = self.proxies[i].clone();
                p.mark_failure();
                self.proxies.set(i, p);
            },
            None => {},
        }
    }

    /// Records a success for the first proxy with this address.
    pub fn mark_proxy_success(&mut self, addr: &str)
        ensures
            final(self)@.proxies.len() == old(self)@.proxies.len(),
            final(self)@.current_index == old(self)@.current_index,
            forall|j: int| 0 <= j < old(self)@.proxies.len() && #[trigger] old(self)@.proxies[j].addr@ != addr@
                ==> final(self)@.proxies[j] == old(self)@.proxies[j],
            forall|j: int| 0 <= j < old(self)@.proxies.len() && #[trigger] old(self)@.proxies[j].addr@ == addr@
                && (forall|k: int| 0 <= k < j ==> old(self)@.proxies[k].addr@ != addr@) ==> final(self)@.proxies[j].healthy
                && final(self)@.proxies[j].failure_count == 0,
    {
        match self.find_proxy(addr) {
            Some(i) => {
                let mut p = self.proxies[i].clone();
                p.mark_success();
                self.proxies.set(i, p);
            },
            None => {},
        }
    }

    /// Adds the proxies whose address is not already present.
    pub fn add_proxies(&mut self, new_proxies: Vec<RequestProxy>)
        ensures
            final(self)@.current_index == old(self)@.current_index,
            final(self)@.proxies.len() >= old(self)@.proxies.len(),
            final(self)@.proxies.take(old(self)@.proxies.len() as int) == old(self)@.proxies,
            forall|i: int| 0 <= i < new_proxies@.len() ==> has_addr(final(self)@.proxies, #[trigger] new_proxies@[i].addr@),
    {
        let ghost start = self@.proxies;
        let ghost src = new_proxies@;
        let mut rest = new_proxies;
        let mut n: usize = 0;
        assert(src.len() == rest.len());
        while rest.len() > 0
            invariant
                rest@ == src.skip(n as int),
                src.len() <= usize::MAX,
                n <= src.len(),
                self@.current_index == old(self)@.current_index,
                self@.proxies.len() >= start.len(),
                self@.proxies.take(start.len() as int) == start,
                forall|i: int| 0 <= i < n ==> has_addr(self@.proxies, #[trigger] src[i].addr@),
            decreases rest@.len(),
        {
            proof {
                assert(n < src.len());
                assert(src.skip(n as int)[0] == src[n as int]);
            }
            let p = rest.remove(0);
            proof {
                assert(rest@ =~= src.skip(n as int + 1));
            }
            match self.find_proxy(p.addr.as_str()) {
                Some(_) => {
                    proof {
                        assert(has_addr(self@.proxies, src[n as int].addr@));
                    }
                },
                None => {
                    let ghost before = self@.proxies;
                    self.proxies.push(p);
                    proof {
                        assert(self@.proxies.take(start.len() as int) =~= before.take(start.len() as int));
                        assert forall|i: int| 0 <= i < n implies has_addr(self@.proxies, #[trigger] src[i].addr@) by {
                            let j = choose|j: int| 0 <= j < before.len() && #[trigger] before[j].addr@ == src[i].addr@;
                            assert(self@.proxies[j] == before[j]);
                        }
                        assert(self@.proxies[self@.proxies.len() - 1].addr@ == src[n as int].addr@);
                    }
                },
            }
            n = n + 1;
        }
        proof {
            assert(n == src.len());

        }
    }

    /// Each proxy's address, health and failure count, in order.
    pub fn get_health_status(&self) -> (r: Vec<(String, bool, u32)>)
        ensures
            r@.len() == self@.proxies.len(),
            forall|i: int| 0 <= i < r@.len() ==> (#[trigger] r@[i]).0@ == self@.proxies[i].addr@
                && r@[i].1 == self@.proxies[i].healthy && r@[i].2 == self@.proxies[i].failure_count,
    {
        let mut r: Vec<(String, bool, u32)> = Vec::new();
        let mut i: usize = 0;
        while i < self.proxies.len()
            invariant
                i <= self@.proxies.len(),
                r@.len() == i,
                forall|k: int| 0 <= k < i ==> (#[trigger] r@[k]).0@ == self@.proxies[k].addr@ && r@[k].1
                    == self@.proxies[k].healthy && r@[k].2 == self@.proxies[k].failure_count,
            decreases self@.proxies.len() - i,
        {
            r.push((self.proxies[i].addr.clone(), self.proxies[i].healthy, self.proxies[i].failure_count));
            i = i + 1;
        }
        r
    }

    /// Drops the proxies that are unhealthy with five failures or more.
    pub fn cleanup_unhealthy(&mut self)
        ensures
            final(self)@.current_index == old(self)@.current_index,
            final(self)@.proxies == old(self)@.proxies.filter(
                |p: RequestProxy| p.healthy || p.failure_count < 5,
            ),
    {
        let ghost src = self@.proxies;
        let mut old_list: Vec<RequestProxy> = Vec::new();
        std::mem::swap(&mut old_list, &mut self.proxies);
        assert(old_list@ == src);
        assert(src.len() == old_list.len());
        let mut kept: Vec<RequestProxy> = Vec::new();
        let mut n: usize = 0;
        while old_list.len() > 0
            invariant
                old_list@ == src.skip(n as int),
                src.len() <= usize::MAX,
                n <= src.len(),
                kept@ == src.take(n as int).filter(|p: RequestProxy| p.healthy || p.failure_count < 5),
            decreases old_list@.len(),
        {
            proof {
                assert(n < src.len());
                assert(src.skip(n as int)[0] == src[n as int]);
                let t = src.take(n as int + 1);
                assert(t.drop_last() =~= src.take(n as int));
                reveal(Seq::filter);
            }
            let p = old_list.remove(0);
            proof {
                assert(old_list@ =~= src.skip(n as int + 1));
            }
            if p.healthy || p.failure_count < 5 {
                kept.push(p);
            }
            n = n + 1;
        }
        proof {
            assert(src.take(src.len() as int) =~= src);
        }
        self.proxies = kept;
    }
}

/// The circuit breaker: three failures in a row after a success take a
/// proxy out of use, and fewer do not.
pub proof fn lemma_three_failures_trip()
    ensures
        ({
            let s1 = failure_step(true, 0);
            let s2 = failure_step(s1.0, s1.1);
            let s3 = failure_step(s2.0, s2.1);
            s1.0 && s2.0 && !s3.0 && s3.1 == 3
        }),
{
}

/// Once out of use, further failures keep a proxy out of use.
pub proof fn lemma_unhealthy_stays(failures: u32)
    requires
        failures < u32::MAX,
    ensures
        !failure_step(false, failures).0,
{
}

} // verus!
