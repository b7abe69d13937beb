//! Per-account nonce sequencing. Submissions from one funding account are
//! numbered in the order the orchestrator accepts them, so the chain
//! client sees them in that order; different accounts are independent.
use vstd::prelude::*;
use crate::opportunity::Address;

verus! {

/// The next nonce of each account in `s`, later entries taking precedence.
pub open spec fn book_map(s: Seq<(Address, u64)>) -> Map<Address, nat>
    decreases s.len(),
{
    if s.len() == 0 {
        Map::empty()
    } else {
        book_map(s.drop_last()).insert(s.last().0, s.last().1 as nat)
    }
}

pub open spec fn keys_unique(s: Seq<(Address, u64)>) -> bool {
    forall|i: int, j: int| 0 <= i < j < s.len() ==> (#[trigger] s[i]).0 != (#[trigger] s[j]).0
}

/// The nonce that accepting a submission from `account` takes: the next
/// one on record, or the chain's transaction count for an account not seen
/// before.
pub open spec fn nonce_for(m: Map<Address, nat>, account: Address, chain_count: u64) -> nat {
    if m.contains_key(account) {
        m[account]
    } else {
        chain_count as nat
    }
}

/// Accepting the submissions `reqs` (account, chain count) in order from
/// the book `m`: the final book and the nonce each submission took.
pub open spec fn run(m: Map<Address, nat>, reqs: Seq<(Address, u64)>) -> (Map<Address, nat>, Seq<nat>)
    decreases reqs.len(),
{
    if reqs.len() == 0 {
        (m, Seq::empty())
    } else {
        let (m1, ns) = run(m, reqs.drop_last());
        let (a, c) = reqs.last();
        let n = nonce_for(m1, a, c);
        (m1.insert(a, n + 1), ns.push(n))
    }
}

proof fn lemma_run_len(m: Map<Address, nat>, reqs: Seq<(Address, u64)>)
    ensures
        run(m, reqs).1.len() == reqs.len(),
    decreases reqs.len(),
{
    if reqs.len() > 0 {
        lemma_run_len(m, reqs.drop_last());
    }
}

/// Running a prefix gives a prefix of the nonces.
proof fn lemma_run_prefix(m: Map<Address, nat>, reqs: Seq<(Address, u64)>, k: int)
    requires
        0 <= k <= reqs.len(),
    ensures
        run(m, reqs.subrange(0, k)).1 == run(m, reqs).1.subrange(0, k),
    decreases reqs.len(),
{
    lemma_run_len(m, reqs);
    if k == reqs.len() {
        assert(reqs.subrange(0, k) =~= reqs);
        assert(run(m, reqs).1.subrange(0, k) =~= run(m, reqs).1);
    } else {
        let init = reqs.drop_last();
        assert(reqs.subrange(0, k) =~= init.subrange(0, k));
        lemma_run_prefix(m, init, k);
        lemma_run_len(m, init);
        assert(run(m, reqs).1.subrange(0, k) =~= run(m, init).1.subrange(0, k));
    }
}

/// Books only grow: a key once present stays, with a value no smaller.
proof fn lemma_run_grows(m: Map<Address, nat>, reqs: Seq<(Address, u64)>, p: int, q: int, a: Address)
    requires
        0 <= p <= q <= reqs.len(),
        run(m, reqs.subrange(0, p)).0.contains_key(a),
    ensures
        run(m, reqs.subrange(0, q)).0.contains_key(a),
        run(m, reqs.subrange(0, q)).0[a] >= run(m, reqs.subrange(0, p)).0[a],
    decreases q - p,
{
    if p < q {
        lemma_run_grows(m, reqs, p, q - 1, a);
        let sq = reqs.subrange(0, q);
        assert(sq.drop_last() =~= reqs.subrange(0, q - 1));
    }
}

/// Nonces of one account rise strictly in the order its submissions were
/// accepted, whatever is accepted for other accounts in between.
pub proof fn lemma_same_account_in_order(m: Map<Address, nat>, reqs: Seq<(Address, u64)>, i: int, j: int)
    requires
        0 <= i < j < reqs.len(),
        reqs[i].0 == reqs[j].0,
    ensures
        run(m, reqs).1[i] < run(m, reqs).1[j],
{
    let a = reqs[i].0;
    let ns = run(m, reqs).1;
    lemma_run_len(m, reqs);
    // After the i-th submission the book holds `a` at ns[i] + 1.
    let pi = reqs.subrange(0, i + 1);
    assert(pi.drop_last() =~= reqs.subrange(0, i));
    assert(pi.last() == reqs[i]);
    lemma_run_prefix(m, reqs, i + 1);
    lemma_run_prefix(m, reqs, i);
    lemma_run_len(m, reqs.subrange(0, i));
    assert(run(m, pi).1[i] == ns[i]);
    assert(run(m, pi).0[a] == ns[i] + 1);
    // By the j-th submission it holds `a` at no less, and hands that out.
    lemma_run_grows(m, reqs, i + 1, j, a);
    let pj = reqs.subrange(0, j + 1);
    assert(pj.drop_last() =~= reqs.subrange(0, j));
    assert(pj.last() == reqs[j]);
    lemma_run_prefix(m, reqs, j + 1);
    lemma_run_len(m, reqs.subrange(0, j));
    assert(run(m, pj).1[j] == ns[j]);
}

/// Accepting one more submission extends the run by exactly what
/// `NonceBook::accept` does: the nonce it returns and the book it leaves.
/// A book driven by `accept` from `m` therefore hands out the nonces of
/// `run`, and `lemma_same_account_in_order` holds of them.
pub proof fn lemma_accept_extends_run(m: Map<Address, nat>, reqs: Seq<(Address, u64)>, account: Address, chain_count: u64)
    ensures
        ({
            let (book, ns) = run(m, reqs);
            let n = nonce_for(book, account, chain_count);
            run(m, reqs.push((account, chain_count))) == (book.insert(account, n + 1), ns.push(n))
        }),
{
    assert(reqs.push((account, chain_count)).drop_last() =~= reqs);
}

proof fn lemma_book_lookup(s: Seq<(Address, u64)>, i: int)
    requires
        keys_unique(s),
        0 <= i < s.len(),
    ensures
        book_map(s).contains_key(s[i].0),
        book_map(s)[s[i].0] == s[i].1 as nat,
    decreases s.len(),
{
    if i < s.len() - 1 {
        let init = s.drop_last();
        assert(init[i] == s[i]);
        assert(s[i].0 != s[s.len() - 1].0);
        lemma_book_lookup(init, i);
    }
}

proof fn lemma_book_absent(s: Seq<(Address, u64)>, a: Address)
    requires
        forall|i: int| 0 <= i < s.len() ==> (#[trigger] s[i]).0 != a,
    ensures
        !book_map(s).contains_key(a),
    decreases s.len(),
{
    if s.len() > 0 {
        let init = s.drop_last();
        assert forall|i: int| 0 <= i < init.len() implies (#[trigger] init[i]).0 != a by {
            assert(init[i] == s[i]);
        }
        lemma_book_absent(init, a);
    }
}

proof fn lemma_book_update(s: Seq<(Address, u64)>, i: int, v: u64)
    requires
        keys_unique(s),
        0 <= i < s.len(),
    ensures
        book_map(s.update(i, (s[i].0, v))) == book_map(s).insert(s[i].0, v as nat),
    decreases s.len(),
{
    let a = s[i].0;
    let t = s.update(i, (a, v));
    let init = s.drop_last();
    assert(t.drop_last() =~= if i == s.len() - 1 {
        init
    } else {
        init.update(i, (a, v))
    });
    if i < s.len() - 1 {
        assert(init[i] == s[i]);
        assert(s[i].0 != s[s.len() - 1].0);
        lemma_book_update(init, i, v);
        assert(book_map(t) =~= book_map(s).insert(a, v as nat));
    } else {
        assert(book_map(t) =~= book_map(s).insert(a, v as nat));
    }
}

/// The next nonce of every funding account the orchestrator has used.
#[derive(Clone, Debug)]
pub struct NonceBook {
    entries: Vec<(Address, u64)>,
}

impl View for NonceBook {
    type V = Map<Address, nat>;

    closed spec fn view(&self) -> Map<Address, nat> {
        book_map(self.entries@)
    }
}

impl NonceBook {
    /// One entry per account.
    pub closed spec fn wf(&self) -> bool {
        keys_unique(self.entries@)
    }

    pub fn new() -> (r: NonceBook)
        ensures
            r.wf(),
            r@ == Map::<Address, nat>::empty(),
    {
        NonceBook { entries: Vec::new() }
    }

    /// Numbers the next submission from `account`. `chain_count` is the
    /// account's transaction count on chain, used the first time the
    /// account is seen. `None`, with the book unchanged, once the account's
    /// nonces are exhausted.
    pub fn accept(&mut self, account: Address, chain_count: u64) -> (r: Option<u64>)
        requires
            old(self).wf(),
        ensures
            final(self).wf(),
            r.is_some() <==> nonce_for(old(self)@, account, chain_count) < u64::MAX,
            r.is_some() ==> r.unwrap() as nat == nonce_for(old(self)@, account, chain_count)
                && final(self)@ == old(self)@.insert(account, r.unwrap() as nat + 1),
            r.is_none() ==> final(self)@ == old(self)@,
    {
        let mut i: usize = 0;
        while i < self.entries.len()
            invariant
                i <= self.entries@.len(),
                self.entries@ == old(self).entries@,
                keys_unique(self.entries@),
                forall|j: int| 0 <= j < i ==> (#[trigger] self.entries@[j]).0 != account,
            decreases self.entries@.len() - i,
        {
            let (a, n) = self.entries[i];
            if a == account {
                proof {
                    lemma_book_lookup(self.entries@, i as int);
                }
                if n == u64::MAX {
                    return None;
                }
                proof {
                    lemma_book_update(self.entries@, i as int, (n + 1) as u64);
                }
                let ghost before = self.entries@;
                self.entries[i] = (account, n + 1);
                assert(self.entries@ == before.update(i as int, (account, (n + 1) as u64)));
                assert(keys_unique(self.entries@)) by {
                    assert forall|p: int, q: int| 0 <= p < q < self.entries@.len() implies (
                    #[trigger] self.entries@[p]).0 != (#[trigger] self.entries@[q]).0 by {
                        assert(self.entries@[p].0 == before[p].0);
                        assert(self.entries@[q].0 == before[q].0);
                    }
                }
                return Some(n);
            }
            i += 1;
        }
        proof {
            lemma_book_absent(self.entries@, account);
        }
        if chain_count == u64::MAX {
            return None;
        }
        let ghost before = self.entries@;
        self.entries.push((account, chain_count + 1));
        assert(self.entries@.drop_last() == before);
        assert(keys_unique(self.entries@)) by {
            assert forall|p: int, q: int| 0 <= p < q < self.entries@.len() implies (
            #[trigger] self.entries@[p]).0 != (#[trigger] self.entries@[q]).0 by {
                if q < before.len() {
                    assert(self.entries@[p] == before[p]);
                    assert(self.entries@[q] == before[q]);
                } else {
                    assert(self.entries@[p] == before[p]);
                }
            }
        }
        Some(chain_count)
    }
    /// Gives back `nonce`, taken from `account` by a plan that never
    /// reached the chain. Only the latest nonce of an account can be given
    /// back; any other release leaves the book unchanged. The result says
    /// whether it was given back.
    pub fn release(&mut self, account: Address, nonce: u64) -> (r: bool)
        requires
            old(self).wf(),
        ensures
            final(self).wf(),
            r == (old(self)@.contains_key(account) && old(self)@[account] == nonce as nat + 1),
            r ==> final(self)@ == old(self)@.insert(account, nonce as nat),
            !r ==> final(self)@ == old(self)@,
    {
        let mut i: usize = 0;
        while i < self.entries.len()
            invariant
                i <= self.entries@.len(),
                self.entries@ == old(self).entries@,
                keys_unique(self.entries@),
                forall|j: int| 0 <= j < i ==> (#[trigger] self.entries@[j]).0 != account,
            decreases self.entries@.len() - i,
        {
            let (a, n) = self.entries[i];
            if a == account {
                proof {
                    lemma_book_lookup(self.entries@, i as int);
                }
                if nonce == u64::MAX || n != nonce + 1 {
                    return false;
                }
                proof {
                    lemma_book_update(self.entries@, i as int, nonce);
                }
                let ghost before = self.entries@;
                self.entries[i] = (account, nonce);
                assert(self.entries@ == before.update(i as int, (account, nonce)));
                assert(keys_unique(self.entries@)) by {
                    assert forall|p: int, q: int| 0 <= p < q < self.entries@.len() implies (
                    #[trigger] self.entries@[p]).0 != (#[trigger] self.entries@[q]).0 by {
                        assert(self.entries@[p].0 == before[p].0);
                        assert(self.entries@[q].0 == before[q].0);
                    }
                }
                return true;
            }
            i += 1;
        }
        proof {
            lemma_book_absent(self.entries@, account);
        }
        false
    }
}

} // verus!
