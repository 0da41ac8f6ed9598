//! An insertion-ordered mapping from string keys to tally counts, used for
//! the severity, category and tool distributions of one report.
use vstd::prelude::*;

verus! {

/// The sum of all counts of the entry sequence.
pub open spec fn sum_counts(s: Seq<(Seq<char>, nat)>) -> nat
    decreases s.len(),
{
    if s.len() == 0 {
        0
    } else {
        s[0].1 + sum_counts(s.drop_first())
    }
}

/// The total count recorded for key `k` over the entry sequence.
pub open spec fn count_of(s: Seq<(Seq<char>, nat)>, k: Seq<char>) -> nat
    decreases s.len(),
{
    if s.len() == 0 {
        0
    } else {
        (if s[0].0 == k {
            s[0].1
        } else {
            0 as nat
        }) + count_of(s.drop_first(), k)
    }
}

/// No two entries share a key.
pub open spec fn distinct_keys(s: Seq<(Seq<char>, nat)>) -> bool {
    forall|i: int, j: int| 0 <= i < j < s.len() ==> s[i].0 != s[j].0
}

pub proof fn lemma_sum_push(s: Seq<(Seq<char>, nat)>, e: (Seq<char>, nat))
    ensures
        sum_counts(s.push(e)) == sum_counts(s) + e.1,
    decreases s.len(),
{
    let p = s.push(e);
    if s.len() == 0 {
        assert(p.drop_first() =~= Seq::<(Seq<char>, nat)>::empty());
        assert(sum_counts(p.drop_first()) == 0);
        assert(sum_counts(p) == p[0].1 + sum_counts(p.drop_first()));
        assert(p[0] == e);
    } else {
        assert(p.drop_first() =~= s.drop_first().push(e));
        lemma_sum_push(s.drop_first(), e);
        assert(sum_counts(p) == p[0].1 + sum_counts(p.drop_first()));
        assert(sum_counts(s) == s[0].1 + sum_counts(s.drop_first()));
        assert(p[0] == s[0]);
    }
}

pub proof fn lemma_count_push(s: Seq<(Seq<char>, nat)>, e: (Seq<char>, nat), k: Seq<char>)
    ensures
        count_of(s.push(e), k) == count_of(s, k) + (if e.0 == k {
            e.1
        } else {
            0 as nat
        }),
    decreases s.len(),
{
    let p = s.push(e);
    if s.len() == 0 {
        assert(p.drop_first() =~= Seq::<(Seq<char>, nat)>::empty());
        assert(count_of(p.drop_first(), k) == 0);
        assert(count_of(p, k) == (if p[0].0 == k {
            p[0].1
        } else {
            0 as nat
        }) + count_of(p.drop_first(), k));
        assert(p[0] == e);
    } else {
        assert(p.drop_first() =~= s.drop_first().push(e));
        lemma_count_push(s.drop_first(), e, k);
        assert(count_of(p, k) == (if p[0].0 == k {
            p[0].1
        } else {
            0 as nat
        }) + count_of(p.drop_first(), k));
        assert(count_of(s, k) == (if s[0].0 == k {
            s[0].1
        } else {
            0 as nat
        }) + count_of(s.drop_first(), k));
        assert(p[0] == s[0]);
    }
}

pub proof fn lemma_sum_update(s: Seq<(Seq<char>, nat)>, i: int, e: (Seq<char>, nat))
    requires
        0 <= i < s.len(),
    ensures
        sum_counts(s.update(i, e)) + s[i].1 == sum_counts(s) + e.1,
    decreases s.len(),
{
    let u = s.update(i, e);
    assert(sum_counts(u) == u[0].1 + sum_counts(u.drop_first()));
    assert(sum_counts(s) == s[0].1 + sum_counts(s.drop_first()));
    if i == 0 {
        assert(u.drop_first() =~= s.drop_first());
        assert(u[0] == e);
    } else {
        assert(u.drop_first() =~= s.drop_first().update(i - 1, e));
        lemma_sum_update(s.drop_first(), i - 1, e);
        assert(u[0] == s[0]);
    }
}

pub proof fn lemma_count_update(s: Seq<(Seq<char>, nat)>, i: int, e: (Seq<char>, nat), k: Seq<char>)
    requires
        0 <= i < s.len(),
    ensures
        count_of(s.update(i, e), k) + (if s[i].0 == k {
            s[i].1
        } else {
            0 as nat
        }) == count_of(s, k) + (if e.0 == k {
            e.1
        } else {
            0 as nat
        }),
    decreases s.len(),
{
    let u = s.update(i, e);
    assert(count_of(u, k) == (if u[0].0 == k {
        u[0].1
    } else {
        0 as nat
    }) + count_of(u.drop_first(), k));
    assert(count_of(s, k) == (if s[0].0 == k {
        s[0].1
    } else {
        0 as nat
    }) + count_of(s.drop_first(), k));
    if i == 0 {
        assert(u.drop_first() =~= s.drop_first());
        assert(u[0] == e);
    } else {
        assert(u.drop_first() =~= s.drop_first().update(i - 1, e));
        lemma_count_update(s.drop_first(), i - 1, e, k);
        assert(u[0] == s[0]);
    }
}

pub proof fn lemma_entry_le_sum(s: Seq<(Seq<char>, nat)>, i: int)
    requires
        0 <= i < s.len(),
    ensures
        s[i].1 <= sum_counts(s),
    decreases s.len(),
{
    if i > 0 {
        lemma_entry_le_sum(s.drop_first(), i - 1);
    }
}

pub proof fn lemma_count_absent(s: Seq<(Seq<char>, nat)>, k: Seq<char>)
    requires
        forall|i: int| 0 <= i < s.len() ==> s[i].0 != k,
    ensures
        count_of(s, k) == 0,
    decreases s.len(),
{
    if s.len() > 0 {
        lemma_count_absent(s.drop_first(), k);
    }
}

pub proof fn lemma_count_found(s: Seq<(Seq<char>, nat)>, k: Seq<char>, i: int)
    requires
        distinct_keys(s),
        0 <= i < s.len(),
        s[i].0 == k,
    ensures
        count_of(s, k) == s[i].1,
    decreases s.len(),
{
    if i == 0 {
        assert(forall|j: int| 0 <= j < s.drop_first().len() ==> s.drop_first()[j].0 != k);
        lemma_count_absent(s.drop_first(), k);
    } else {
        lemma_count_found(s.drop_first(), k, i - 1);
    }
}

/// A tally map: string keys in first-occurrence order, each with the number
/// of times it was bumped.
pub struct CountMap {
    entries: Vec<(String, usize)>,
}

impl View for CountMap {
    type V = Seq<(Seq<char>, nat)>;

    closed spec fn view(&self) -> Seq<(Seq<char>, nat)> {
        self.entries@.map_values(|e: (String, usize)| (e.0@, e.1 as nat))
    }
}

impl CountMap {
    /// An empty tally.
    pub fn new() -> (r: CountMap)
        ensures
            r@ == Seq::<(Seq<char>, nat)>::empty(),
            distinct_keys(r@),
            sum_counts(r@) == 0,
    {
        let r = CountMap { entries: Vec::new() };
        proof {
            assert(r@ =~= Seq::<(Seq<char>, nat)>::empty());
        }
        r
    }

    /// Records one more occurrence of `key`: an existing entry's count grows
    /// by one, a new key is appended with count one.
    pub fn bump(&mut self, key: &str)
        requires
            distinct_keys(old(self)@),
            sum_counts(old(self)@) < usize::MAX,
        ensures
            distinct_keys(final(self)@),
            sum_counts(final(self)@) == sum_counts(old(self)@) + 1,
            forall|k: Seq<char>|
                count_of(final(self)@, k) == count_of(old(self)@, k) + (if k == key@ {
                    1 as nat
                } else {
                    0 as nat
                }),
    {
        let ghost pre = self@;
        let n = self.entries.len();
        let mut i: usize = 0;
        while i < n
            invariant
                n == self.entries.len(),
                i <= n,
                self@ == pre,
                old(self)@ == pre,
                distinct_keys(pre),
                sum_counts(pre) < usize::MAX,
                forall|j: int| 0 <= j < i ==> pre[j].0 != key@,
            decreases n - i,
        {
            if crate::text::string_eq_str(&self.entries[i].0, key) {
                proof {
                    lemma_entry_le_sum(pre, i as int);
                }
                let c = self.entries[i].1;
                proof {
                    assert(pre[i as int].1 == c as nat);
                    assert(pre[i as int].0 == key@);
                }
                let owned = key.to_owned();
                self.entries[i] = (owned, c + 1);
                proof {
                    assert(self@ =~= pre.update(i as int, (key@, (c + 1) as nat)));
                    lemma_sum_update(pre, i as int, (key@, (c + 1) as nat));
                    assert forall|k: Seq<char>|
                        count_of(self@, k) == count_of(pre, k) + (if k == key@ {
                            1 as nat
                        } else {
                            0 as nat
                        }) by {
                        lemma_count_update(pre, i as int, (key@, (c + 1) as nat), k);
                    }
                }
                return ;
            }
            i = i + 1;
        }
        let owned = key.to_owned();
        self.entries.push((owned, 1));
        proof {
            assert(self@ =~= pre.push((key@, 1 as nat)));
            lemma_sum_push(pre, (key@, 1 as nat));
            assert forall|k: Seq<char>|
                count_of(self@, k) == count_of(pre, k) + (if k == key@ {
                    1 as nat
                } else {
                    0 as nat
                }) by {
                lemma_count_push(pre, (key@, 1 as nat), k);
            }
        }
    }

    /// The count recorded for `key`, zero when the key is absent.
    pub fn get(&self, key: &str) -> (r: usize)
        requires
            distinct_keys(self@),
        ensures
            r as nat == count_of(self@, key@),
    {
        let n = self.entries.len();
        let mut i: usize = 0;
        while i < n
            invariant
                n == self.entries.len(),
                i <= n,
                distinct_keys(self@),
                forall|j: int| 0 <= j < i ==> self@[j].0 != key@,
            decreases n - i,
        {
            if crate::text::string_eq_str(&self.entries[i].0, key) {
                proof {
                    lemma_count_found(self@, key@, i as int);
                }
                return self.entries[i].1;
            }
            i = i + 1;
        }
        proof {
            lemma_count_absent(self@, key@);
        }
        0
    }

    /// The number of distinct keys recorded.
    pub fn len(&self) -> (r: usize)
        ensures
            r == self@.len(),
    {
        self.entries.len()
    }

    /// The key of the entry at position `i`.
    pub fn key_at(&self, i: usize) -> (r: &String)
        requires
            i < self@.len(),
        ensures
            r@ == self@[i as int].0,
    {
        &self.entries[i].0
    }

    /// The count of the entry at position `i`.
    pub fn count_at(&self, i: usize) -> (r: usize)
        requires
            i < self@.len(),
        ensures
            r as nat == self@[i as int].1,
    {
        self.entries[i].1
    }
}

} // verus!
