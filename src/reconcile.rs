use vstd::prelude::*;

use crate::network::{CurrentNetwork, WifiNetwork};

verus! {

/// `n` with its signal strength replaced by `rssi`.
pub open spec fn with_rssi(n: WifiNetwork, rssi: i32) -> WifiNetwork {
    WifiNetwork { ssid: n.ssid, rssi, channel: n.channel, security: n.security }
}

/// Every entry whose SSID is the current network's takes the current network's strength.
pub open spec fn overwrite_current(s: Seq<WifiNetwork>, current: Option<CurrentNetwork>) -> Seq<
    WifiNetwork,
> {
    match current {
        Some(c) => s.map_values(
            |n: WifiNetwork|
                if n.ssid@ == c.ssid@ {
                    with_rssi(n, c.rssi)
                } else {
                    n
                },
        ),
        None => s,
    }
}

/// `x` placed after every leading entry at least as strong as it.
pub open spec fn insert_by_rssi(x: WifiNetwork, s: Seq<WifiNetwork>) -> Seq<WifiNetwork>
    decreases s.len(),
{
    if s.len() == 0 {
        seq![x]
    } else if s[0].rssi >= x.rssi {
        seq![s[0]] + insert_by_rssi(x, s.drop_first())
    } else {
        seq![x] + s
    }
}

/// Stable sort by signal strength, strongest first.
pub open spec fn sort_by_rssi(s: Seq<WifiNetwork>) -> Seq<WifiNetwork>
    decreases s.len(),
{
    if s.len() == 0 {
        Seq::empty()
    } else {
        insert_by_rssi(s.last(), sort_by_rssi(s.drop_last()))
    }
}

/// The canonical network list built from a raw scan and the current network.
pub open spec fn reconciled(raw: Seq<WifiNetwork>, current: Option<CurrentNetwork>) -> Seq<
    WifiNetwork,
> {
    sort_by_rssi(overwrite_current(raw, current))
}

pub open spec fn sorted_by_rssi(s: Seq<WifiNetwork>) -> bool {
    forall|i: int, j: int| 0 <= i < j < s.len() ==> s[i].rssi >= s[j].rssi
}

/// The entries of `s` whose strength is `k`, in their order in `s`.
pub open spec fn keep_rssi(s: Seq<WifiNetwork>, k: i32) -> Seq<WifiNetwork>
    decreases s.len(),
{
    if s.len() == 0 {
        Seq::empty()
    } else {
        (if s[0].rssi == k {
            seq![s[0]]
        } else {
            Seq::empty()
        }) + keep_rssi(s.drop_first(), k)
    }
}

proof fn lemma_keep_add(a: Seq<WifiNetwork>, b: Seq<WifiNetwork>, k: i32)
    ensures
        keep_rssi(a + b, k) == keep_rssi(a, k) + keep_rssi(b, k),
    decreases a.len(),
{
    if a.len() == 0 {
        assert(a + b =~= b);
        assert(keep_rssi(a, k) + keep_rssi(b, k) =~= keep_rssi(b, k));
    } else {
        assert((a + b).drop_first() =~= a.drop_first() + b);
        lemma_keep_add(a.drop_first(), b, k);
        assert(keep_rssi(a + b, k) =~= keep_rssi(a, k) + keep_rssi(b, k));
    }
}

proof fn lemma_keep_none(s: Seq<WifiNetwork>, k: i32)
    requires
        forall|i: int| 0 <= i < s.len() ==> s[i].rssi != k,
    ensures
        keep_rssi(s, k) == Seq::<WifiNetwork>::empty(),
    decreases s.len(),
{
    if s.len() > 0 {
        lemma_keep_none(s.drop_first(), k);
        assert(keep_rssi(s, k) =~= Seq::<WifiNetwork>::empty());
    }
}

proof fn lemma_insert_shape(x: WifiNetwork, s: Seq<WifiNetwork>)
    ensures
        insert_by_rssi(x, s).len() == s.len() + 1,
        forall|i: int|
            0 <= i < insert_by_rssi(x, s).len() ==> insert_by_rssi(x, s)[i] == x || s.contains(
                #[trigger] insert_by_rssi(x, s)[i],
            ),
    decreases s.len(),
{
    if s.len() > 0 && s[0].rssi >= x.rssi {
        let rest = s.drop_first();
        lemma_insert_shape(x, rest);
        let r = insert_by_rssi(x, s);
        assert forall|i: int| 0 <= i < r.len() implies r[i] == x || s.contains(#[trigger] r[i]) by {
            if i == 0 {
                assert(s[0] == r[i]);
            } else {
                let y = insert_by_rssi(x, rest)[i - 1];
                assert(r[i] == y);
                if y != x {
                    let j = choose|j: int| 0 <= j < rest.len() && rest[j] == y;
                    assert(s[j + 1] == y);
                }
            }
        }
    } else if s.len() > 0 {
        let r = insert_by_rssi(x, s);
        assert forall|i: int| 0 <= i < r.len() implies r[i] == x || s.contains(#[trigger] r[i]) by {
            if i > 0 {
                assert(s[i - 1] == r[i]);
            }
        }
    }
}

proof fn lemma_insert_sorted(x: WifiNetwork, s: Seq<WifiNetwork>)
    requires
        sorted_by_rssi(s),
    ensures
        sorted_by_rssi(insert_by_rssi(x, s)),
    decreases s.len(),
{
    if s.len() > 0 && s[0].rssi >= x.rssi {
        let rest = s.drop_first();
        lemma_insert_sorted(x, rest);
        lemma_insert_shape(x, rest);
        let t = insert_by_rssi(x, rest);
        let r = insert_by_rssi(x, s);
        assert forall|i: int, j: int| 0 <= i < j < r.len() implies r[i].rssi >= r[j].rssi by {
            if i == 0 {
                let y = t[j - 1];
                assert(r[j] == y);
                if y != x {
                    let m = choose|m: int| 0 <= m < rest.len() && rest[m] == y;
                    assert(s[m + 1] == y);
                }
            } else {
                assert(r[i] == t[i - 1] && r[j] == t[j - 1]);
            }
        }
    } else if s.len() > 0 {
        let r = insert_by_rssi(x, s);
        assert forall|i: int, j: int| 0 <= i < j < r.len() implies r[i].rssi >= r[j].rssi by {
            if i == 0 {
                assert(r[j] == s[j - 1]);
            } else {
                assert(r[i] == s[i - 1] && r[j] == s[j - 1]);
            }
        }
    }
}

proof fn lemma_insert_keep(x: WifiNetwork, s: Seq<WifiNetwork>, k: i32)
    requires
        sorted_by_rssi(s),
    ensures
        keep_rssi(insert_by_rssi(x, s), k) == keep_rssi(s, k) + keep_rssi(seq![x], k),
    decreases s.len(),
{
    assert(seq![x].drop_first() =~= Seq::<WifiNetwork>::empty());
    if s.len() == 0 {
        assert(keep_rssi(s, k) + keep_rssi(seq![x], k) =~= keep_rssi(seq![x], k));
    } else if s[0].rssi >= x.rssi {
        let rest = s.drop_first();
        lemma_insert_keep(x, rest, k);
        lemma_keep_add(seq![s[0]], insert_by_rssi(x, rest), k);
        lemma_keep_add(seq![s[0]], rest, k);
        assert(seq![s[0]] + rest =~= s);
        assert(seq![s[0]].drop_first() =~= Seq::<WifiNetwork>::empty());
        assert(keep_rssi(insert_by_rssi(x, s), k) =~= keep_rssi(s, k) + keep_rssi(seq![x], k));
    } else {
        lemma_keep_add(seq![x], s, k);
        assert(keep_rssi(Seq::<WifiNetwork>::empty(), k) == Seq::<WifiNetwork>::empty());
        if x.rssi == k {
            lemma_keep_none(s, k);
            assert(keep_rssi(s, k) + keep_rssi(seq![x], k) =~= keep_rssi(seq![x], k));
            assert(keep_rssi(seq![x], k) + keep_rssi(s, k) =~= keep_rssi(seq![x], k));
        } else {
            assert(keep_rssi(seq![x], k) =~= Seq::<WifiNetwork>::empty());
            assert(keep_rssi(s, k) + keep_rssi(seq![x], k) =~= keep_rssi(s, k));
            assert(keep_rssi(seq![x], k) + keep_rssi(s, k) =~= keep_rssi(s, k));
        }
        assert(keep_rssi(insert_by_rssi(x, s), k) =~= keep_rssi(s, k) + keep_rssi(seq![x], k));
    }
}

proof fn lemma_sort_props(s: Seq<WifiNetwork>)
    ensures
        sorted_by_rssi(sort_by_rssi(s)),
        sort_by_rssi(s).len() == s.len(),
        forall|k: i32| keep_rssi(#[trigger] sort_by_rssi(s), k) == keep_rssi(s, k),
        forall|i: int| 0 <= i < s.len() ==> s.contains(#[trigger] sort_by_rssi(s)[i]),
    decreases s.len(),
{
    if s.len() > 0 {
        let init = s.drop_last();
        let x = s.last();
        let t = sort_by_rssi(init);
        lemma_sort_props(init);
        lemma_insert_sorted(x, t);
        lemma_insert_shape(x, t);
        assert(init + seq![x] =~= s);
        assert forall|k: i32| keep_rssi(#[trigger] sort_by_rssi(s), k) == keep_rssi(s, k) by {
            lemma_insert_keep(x, t, k);
            lemma_keep_add(init, seq![x], k);
        }
        let r = sort_by_rssi(s);
        assert forall|i: int| 0 <= i < s.len() implies s.contains(#[trigger] r[i]) by {
            if r[i] == x {
                assert(s[s.len() - 1] == x);
            } else {
                let m = choose|m: int| 0 <= m < t.len() && t[m] == r[i];
                assert(init.contains(t[m]));
                let n = choose|n: int| 0 <= n < init.len() && init[n] == r[i];
                assert(s[n] == r[i]);
            }
        }
    }
}

/// The reconciled list is sorted by signal strength, strongest first, and the
/// sort is stable: for every strength, the entries of that strength keep the
/// order they had in the input.
pub proof fn lemma_reconciled_sorted_and_stable(
    raw: Seq<WifiNetwork>,
    current: Option<CurrentNetwork>,
)
    ensures
        sorted_by_rssi(reconciled(raw, current)),
        reconciled(raw, current).len() == raw.len(),
        forall|k: i32|
            keep_rssi(#[trigger] reconciled(raw, current), k) == keep_rssi(
                overwrite_current(raw, current),
                k,
            ),
{
    lemma_sort_props(overwrite_current(raw, current));
}

/// Every entry of the reconciled list that carries the current network's SSID
/// reports the current network's signal strength.
pub proof fn lemma_reconciled_current_strength(raw: Seq<WifiNetwork>, c: CurrentNetwork)
    ensures
        forall|i: int|
            0 <= i < reconciled(raw, Some(c)).len() && (#[trigger] reconciled(raw, Some(c))[i]).ssid@
                == c.ssid@ ==> reconciled(raw, Some(c))[i].rssi == c.rssi,
{
    let s = overwrite_current(raw, Some(c));
    lemma_sort_props(s);
    let r = reconciled(raw, Some(c));
    assert forall|i: int| 0 <= i < r.len() && (#[trigger] r[i]).ssid@ == c.ssid@ implies r[i].rssi
        == c.rssi by {
        let m = choose|m: int| 0 <= m < s.len() && s[m] == r[i];
        assert(s[m] == r[i]);
    }
}

proof fn lemma_insert_at(x: WifiNetwork, s: Seq<WifiNetwork>, j: int)
    requires
        0 <= j <= s.len(),
        forall|m: int| 0 <= m < j ==> s[m].rssi >= x.rssi,
        j == s.len() || s[j].rssi < x.rssi,
    ensures
        insert_by_rssi(x, s) == s.insert(j, x),
    decreases s.len(),
{
    if s.len() == 0 {
        assert(s.insert(j, x) =~= seq![x]);
    } else if j == 0 {
        assert(s.insert(j, x) =~= seq![x] + s);
    } else {
        let rest = s.drop_first();
        lemma_insert_at(x, rest, j - 1);
        assert(s.insert(j, x) =~= seq![s[0]] + rest.insert(j - 1, x));
    }
}

/// Overwrites the strength of every entry that carries the current network's SSID.
pub fn apply_current(raw: &Vec<WifiNetwork>, current: &Option<CurrentNetwork>) -> (r: Vec<
    WifiNetwork,
>)
    ensures
        r@ == overwrite_current(raw@, *current),
{
    let mut r: Vec<WifiNetwork> = Vec::new();
    let mut i: usize = 0;
    while i < raw.len()
        invariant
            i <= raw.len(),
            r@ == overwrite_current(raw@, *current).subrange(0, i as int),
        decreases raw.len() - i,
    {
        let mut n = raw[i].copy();
        if let Some(c) = current {
            if n.ssid == c.ssid {
                n.rssi = c.rssi;
            }
        }
        proof {
            assert(n == overwrite_current(raw@, *current)[i as int]);
        }
        r.push(n);
        i = i + 1;
        proof {
            assert(r@ =~= overwrite_current(raw@, *current).subrange(0, i as int));
        }
    }
    assert(r@ =~= overwrite_current(raw@, *current));
    r
}

/// Stable sort by signal strength, strongest first.
pub fn sort_networks(v: Vec<WifiNetwork>) -> (r: Vec<WifiNetwork>)
    ensures
        r@ == sort_by_rssi(v@),
{
    let mut r: Vec<WifiNetwork> = Vec::new();
    let mut i: usize = 0;
    while i < v.len()
        invariant
            i <= v.len(),
            r@ == sort_by_rssi(v@.subrange(0, i as int)),
        decreases v.len() - i,
    {
        let x = v[i].copy();
        let mut j: usize = 0;
        while j < r.len() && r[j].rssi >= x.rssi
            invariant
                j <= r.len(),
                forall|m: int| 0 <= m < j ==> r@[m].rssi >= x.rssi,
            decreases r.len() - j,
        {
            j = j + 1;
        }
        proof {
            lemma_insert_at(x, r@, j as int);
            let s = v@.subrange(0, i as int + 1);
            assert(s.drop_last() =~= v@.subrange(0, i as int));
            assert(s.last() == x);
        }
        r.insert(j, x);
        i = i + 1;
    }
    assert(v@.subrange(0, v@.len() as int) =~= v@);
    r
}

/// The canonical, sorted network list for a raw scan and the current network.
pub fn reconcile(raw: &Vec<WifiNetwork>, current: &Option<CurrentNetwork>) -> (r: Vec<
    WifiNetwork,
>)
    ensures
        r@ == reconciled(raw@, *current),
{
    sort_networks(apply_current(raw, current))
}

} // verus!
