//! The idempotency guard: a client nonce is accepted once inside the
//! dedup window, which holds the nonces accepted last.

use crate::error::Error;
use crate::ident::fresh_id;
use crate::ident::is_id_text;
use crate::idlist::contains_id;
use vstd::prelude::*;

verus! {

/// `seen` after `nonce` was accepted: `nonce` comes last, and of the older
/// ones only as many stay as the window has room for.
pub open spec fn remembered(seen: Seq<Seq<char>>, nonce: Seq<char>, window: nat) -> Seq<Seq<char>> {
    let all = seen.push(nonce);
    if all.len() > window {
        all.subrange(all.len() - window, all.len() as int)
    } else {
        all
    }
}

/// What the guard remembers after it was asked to consume `nonce`.
pub open spec fn seen_after(seen: Seq<Seq<char>>, window: nat, nonce: Option<Seq<char>>) -> Seq<
    Seq<char>,
> {
    match nonce {
        Some(n) if !seen.contains(n) => remembered(seen, n, window),
        _ => seen,
    }
}

/// What the guard answers when it is asked to consume `nonce`: the key to
/// echo, which is the nonce itself or, without one, `fresh`; or
/// `DuplicateRequest` for a nonce that it remembers.
pub open spec fn answer(seen: Seq<Seq<char>>, nonce: Option<Seq<char>>, fresh: Seq<char>) -> Result<
    Seq<char>,
    Error,
> {
    match nonce {
        None => Ok(fresh),
        Some(n) => if seen.contains(n) {
            Err(Error::DuplicateRequest)
        } else {
            Ok(n)
        },
    }
}

/// The nonces accepted last, oldest first, and the size of the window.
pub struct IdempotencyGuard {
    seen: Vec<String>,
    window: usize,
}

impl IdempotencyGuard {
    #[verifier::type_invariant]
    spec fn inv(self) -> bool {
        self.seen.len() <= self.window
    }

    /// The nonces that the guard remembers, oldest first.
    pub closed spec fn seen(&self) -> Seq<Seq<char>> {
        self.seen.deep_view()
    }

    /// How many nonces the guard remembers at most.
    pub closed spec fn window(&self) -> nat {
        self.window as nat
    }

    /// A guard that remembers nothing yet and at most `window` nonces later.
    pub fn new(window: usize) -> (r: Self)
        ensures
            r.seen() == Seq::<Seq<char>>::empty(),
            r.window() == window,
    {
        let r = IdempotencyGuard { seen: Vec::new(), window };
        assert(r.seen() =~= Seq::<Seq<char>>::empty());
        r
    }

    /// Whether the guard remembers `nonce`.
    pub fn has_seen(&self, nonce: &String) -> (r: bool)
        ensures
            r == self.seen().contains(nonce@),
    {
        contains_id(&self.seen, nonce)
    }

    /// Consumes `nonce`, with `fresh` as the key to hand out where the
    /// client gave none. A nonce that is remembered fails with
    /// `DuplicateRequest` and changes nothing; a new one is remembered and
    /// echoed. Without a nonce the call succeeds and nothing is remembered.
    pub fn consume_with(&mut self, nonce: Option<String>, fresh: String) -> (r: Result<String, Error>)
        ensures
            final(self).window() == old(self).window(),
            final(self).seen() == seen_after(old(self).seen(), old(self).window(), nonce.deep_view()),
            answer(old(self).seen(), nonce.deep_view(), fresh@) matches Ok(key) ==> (r matches Ok(k)
                && k@ == key),
            answer(old(self).seen(), nonce.deep_view(), fresh@) matches Err(e) ==> (r matches Err(x)
                && x == e),
    {
        proof {
            use_type_invariant(&*self);
        }
        match nonce {
            None => Ok(fresh),
            Some(n) => {
                if contains_id(&self.seen, &n) {
                    return Err(Error::DuplicateRequest);
                }
                let ghost before = self.seen.deep_view();
                let mut seen: Vec<String> = Vec::new();
                std::mem::swap(&mut seen, &mut self.seen);
                seen.push(n.clone());
                assert(seen.deep_view() =~= before.push(n@));
                if seen.len() > self.window {
                    let ghost all = seen.deep_view();
                    seen.remove(0);
                    assert(seen.deep_view() =~= all.subrange(1, all.len() as int));
                }
                self.seen = seen;
                Ok(n)
            },
        }
    }

    /// Consumes `nonce`. Where the client gave none, a new identifier is
    /// made and handed out as the key: that call always succeeds.
    pub fn consume(&mut self, nonce: Option<String>) -> (r: Result<String, Error>)
        ensures
            final(self).window() == old(self).window(),
            final(self).seen() == seen_after(old(self).seen(), old(self).window(), nonce.deep_view()),
            nonce matches Some(n) ==> (answer(old(self).seen(), Some(n@), n@) matches Ok(key) ==> (
            r matches Ok(k) && k@ == key)),
            nonce matches Some(n) ==> (answer(old(self).seen(), Some(n@), n@) matches Err(e) ==> (
            r matches Err(x) && x == e)),
            nonce is None ==> (r matches Ok(k) && is_id_text(k@)),
    {
        match nonce {
            None => self.consume_with(None, fresh_id()),
            Some(n) => {
                let unused = String::new();
                self.consume_with(Some(n), unused)
            },
        }
    }
}

/// A nonce that was just accepted is remembered, so that submitting it
/// again at once fails, whatever else the guard remembers.
pub proof fn lemma_resubmission_fails(seen: Seq<Seq<char>>, window: nat, nonce: Seq<char>, fresh: Seq<char>)
    requires
        window >= 1,
        answer(seen, Some(nonce), fresh) is Ok,
    ensures
        answer(seen_after(seen, window, Some(nonce)), Some(nonce), fresh) == Err::<Seq<char>, Error>(
            Error::DuplicateRequest,
        ),
        seen_after(seen_after(seen, window, Some(nonce)), window, Some(nonce)) == seen_after(
            seen,
            window,
            Some(nonce),
        ),
{
    let after = remembered(seen, nonce, window);
    assert(after[after.len() - 1] == nonce);
}

/// A remembered nonce stays remembered while another is accepted, unless
/// it is the oldest of a full window.
pub proof fn lemma_stays_in_window(seen: Seq<Seq<char>>, window: nat, nonce: Seq<char>, other: Seq<char>)
    requires
        seen.len() <= window,
        seen.contains(nonce),
        seen.len() < window || seen[0] != nonce,
    ensures
        seen_after(seen, window, Some(other)).contains(nonce),
{
    let i = choose|i: int| 0 <= i < seen.len() && seen[i] == nonce;
    if !seen.contains(other) {
        let all = seen.push(other);
        let after = remembered(seen, other, window);
        assert(all[i] == nonce);
        if all.len() > window {
            assert(i >= 1);
            assert(after[i - 1] == nonce);
        }
    }
}

/// The guard never remembers more nonces than its window has room for.
pub proof fn lemma_window_bound(seen: Seq<Seq<char>>, window: nat, nonce: Option<Seq<char>>)
    requires
        seen.len() <= window,
    ensures
        seen_after(seen, window, nonce).len() <= window,
{
}

} // verus!
