//! The replay-nonce pool: every signed request takes a fresh nonce from here,
//! and every response's `Replay-Nonce` header is deposited back.

use vstd::prelude::*;
use crate::text::str_eq;

verus! {

/// Soft cap on buffered nonces; the oldest is dropped beyond it.
pub const NONCE_CAP: usize = 10;

/// A queue of unused nonces for one server, keyed by its `newNonce` URL.
pub struct NoncePool {
    /// The server's `newNonce` endpoint, where the caller HEADs for a fresh
    /// nonce when the pool runs dry.
    pub url: String,
    pub queue: Vec<String>,
}

impl NoncePool {
    /// The buffered nonces, oldest first.
    pub closed spec fn nonces(&self) -> Seq<Seq<char>> {
        self.queue.deep_view()
    }

    /// No nonce is buffered twice, and the buffer respects the cap.
    pub open spec fn wf(&self) -> bool {
        &&& forall|i: int, j: int|
            0 <= i < j < self.nonces().len() ==> self.nonces()[i] != self.nonces()[j]
        &&& self.nonces().len() <= NONCE_CAP as int
    }

    /// An empty pool for the given `newNonce` URL.
    pub fn new(url: String) -> (r: NoncePool)
        ensures
            r.wf(),
            r.nonces().len() == 0,
            r.url == url,
    {
        NoncePool { url, queue: Vec::new() }
    }

    /// Whether `n` is already buffered.
    fn holds(&self, n: &str) -> (r: bool)
        ensures
            r == self.nonces().contains(n@),
    {
        let m = self.queue.len();
        let mut i: usize = 0;
        proof {
            assert(self.nonces().len() == m);
        }
        while i < m
            invariant
                m == self.queue@.len(),
                self.nonces().len() == m,
                forall|j: int| 0 <= j < m ==> self.nonces()[j] == self.queue@[j]@,
                0 <= i <= m,
                forall|j: int| 0 <= j < i ==> self.nonces()[j] != n@,
            decreases m - i,
        {
            if str_eq(self.queue[i].as_str(), n) {
                proof {
                    assert(self.nonces()[i as int] == n@);
                }
                return true;
            }
            i = i + 1;
        }
        proof {
            if self.nonces().contains(n@) {
                let j = choose|j: int| 0 <= j < self.nonces().len() && self.nonces()[j] == n@;
                assert(self.nonces()[j] != n@);
            }
        }
        false
    }

    /// Take the oldest buffered nonce, if any. A dispensed nonce is removed,
    /// so no later fetch can hand it out again.
    pub fn fetch(&mut self) -> (r: Option<String>)
        requires
            old(self).wf(),
        ensures
            final(self).wf(),
            final(self).url == old(self).url,
            old(self).nonces().len() == 0 ==> r is None && final(self).nonces()
                == old(self).nonces(),
            old(self).nonces().len() > 0 ==> (r matches Some(n) && n@ == old(self).nonces()[0]
                && final(self).nonces() == old(self).nonces().skip(1)),
            r matches Some(n) ==> !final(self).nonces().contains(n@),
    {
        if self.queue.len() == 0 {
            return None;
        }
        let n = self.queue.remove(0);
        proof {
            assert(self.nonces() =~= old(self).nonces().skip(1));
            assert(n@ == old(self).queue@[0]@);
            assert(old(self).nonces()[0] == old(self).queue@[0]@);
            assert forall|j: int| 0 <= j < self.nonces().len() implies self.nonces()[j] != n@ by {
                assert(self.nonces()[j] == old(self).nonces()[j + 1]);
                assert(old(self).nonces()[j + 1] != old(self).nonces()[0]);
            }
            if self.nonces().contains(n@) {
                let j = choose|j: int| 0 <= j < self.nonces().len() && self.nonces()[j] == n@;
                assert(false);
            }
        }
        Some(n)
    }

    /// Buffer a nonce from a response. A nonce already buffered is dropped,
    /// so no nonce can be dispensed twice; past the cap the oldest leaves.
    pub fn deposit(&mut self, n: String)
        requires
            old(self).wf(),
        ensures
            final(self).wf(),
            final(self).url == old(self).url,
            old(self).nonces().contains(n@) ==> final(self).nonces() == old(self).nonces(),
            !old(self).nonces().contains(n@) && old(self).nonces().len() < NONCE_CAP as int
                ==> final(self).nonces() == old(self).nonces().push(n@),
            !old(self).nonces().contains(n@) && old(self).nonces().len() == NONCE_CAP as int
                ==> final(self).nonces() == old(self).nonces().skip(1).push(n@),
    {
        if self.holds(n.as_str()) {
            return;
        }
        proof {
            assert forall|i: int| 0 <= i < old(self).nonces().len() implies old(self).nonces()[i]
                != n@ by {
                if old(self).nonces()[i] == n@ {
                    assert(old(self).nonces().contains(n@));
                }
            }
        }
        if self.queue.len() == NONCE_CAP {
            let _ = self.queue.remove(0);
            self.queue.push(n);
            proof {
                assert(self.nonces() =~= old(self).nonces().skip(1).push(n@));
                assert forall|i: int, j: int|
                    0 <= i < j < self.nonces().len() implies self.nonces()[i]
                    != self.nonces()[j] by {
                    let f = self.nonces();
                    let o = old(self).nonces();
                    if j < f.len() - 1 {
                        assert(f[i] == o[i + 1] && f[j] == o[j + 1]);
                    } else {
                        assert(f[j] == n@);
                        assert(f[i] == o[i + 1]);
                    }
                }
            }
        } else {
            self.queue.push(n);
            proof {
                assert(self.nonces() =~= old(self).nonces().push(n@));
                assert forall|i: int, j: int|
                    0 <= i < j < self.nonces().len() implies self.nonces()[i]
                    != self.nonces()[j] by {
                    let f = self.nonces();
                    let o = old(self).nonces();
                    if j < f.len() - 1 {
                        assert(f[i] == o[i] && f[j] == o[j]);
                    } else {
                        assert(f[j] == n@ && f[i] == o[i]);
                    }
                }
            }
        }
    }
}

/// Law: the nonce at the head of a well-formed pool occurs nowhere else in
/// it, so once `fetch` dispenses it, no later `fetch` can return it again.
pub proof fn lemma_nonce_single_use(p: NoncePool)
    requires
        p.wf(),
        p.nonces().len() > 0,
    ensures
        !p.nonces().skip(1).contains(p.nonces()[0]),
{
    let rest = p.nonces().skip(1);
    if rest.contains(p.nonces()[0]) {
        let j = choose|j: int| 0 <= j < rest.len() && rest[j] == p.nonces()[0];
        assert(p.nonces()[j + 1] == p.nonces()[0]);
        assert(false);
    }
}

} // verus!
