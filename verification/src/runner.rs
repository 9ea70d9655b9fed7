//! Deciding which migrations to apply, which to roll back, and their status,
//! from the names of the known migrations and of the applied ones.
use vstd::prelude::*;

verus! {

/// Whether one migration is applied.
#[derive(Debug, Clone, PartialEq)]
pub struct MigrationStatus {
    pub name: String,
    pub applied: bool,
}

/// The positions among the first `n` migrations whose names are not applied, in order.
pub open spec fn pending(ms: Seq<Seq<char>>, applied: Seq<Seq<char>>, n: nat) -> Seq<usize>
    decreases n,
{
    if n == 0 {
        Seq::empty()
    } else {
        pending(ms, applied, (n - 1) as nat) + if !applied.contains(ms[n - 1]) {
            seq![(n - 1) as usize]
        } else {
            Seq::empty()
        }
    }
}

/// The migrations that `up` applies, in order: the pending ones, at most
/// `steps` of them when a number is given.
pub open spec fn plan_up_spec(ms: Seq<Seq<char>>, applied: Seq<Seq<char>>, steps: Option<usize>) -> Seq<
    usize,
> {
    let p = pending(ms, applied, ms.len());
    match steps {
        None => p,
        Some(s) => if s < p.len() {
            p.take(s as int)
        } else {
            p
        },
    }
}

proof fn lemma_pending_prefix(ms: Seq<Seq<char>>, applied: Seq<Seq<char>>, i: nat, n: nat)
    requires
        i <= n,
    ensures
        pending(ms, applied, i).len() <= pending(ms, applied, n).len(),
        pending(ms, applied, n).take(pending(ms, applied, i).len() as int) =~= pending(
            ms,
            applied,
            i,
        ),
    decreases n - i,
{
    if i < n {
        lemma_pending_prefix(ms, applied, i, (n - 1) as nat);
        let a = pending(ms, applied, (n - 1) as nat);
        let b = pending(ms, applied, n);
        assert(b.take(a.len() as int) =~= a);
    }
}

fn contains_string(v: &Vec<String>, s: &String) -> (r: bool)
    ensures
        r == v.deep_view().contains(s@),
{
    let mut i: usize = 0;
    while i < v.len()
        invariant
            i <= v.len(),
            forall|k: int| 0 <= k < i ==> v.deep_view()[k] != s@,
        decreases v.len() - i,
    {
        if v[i] == *s {
            assert(v.deep_view()[i as int] == s@);
            return true;
        }
        i = i + 1;
    }
    false
}

/// The positions of the migrations to apply, in order: those whose names are
/// not applied, at most `steps` of them when a number is given.
pub fn plan_up(migrations: &Vec<String>, applied: &Vec<String>, steps: Option<usize>) -> (r: Vec<
    usize,
>)
    ensures
        r@ == plan_up_spec(migrations.deep_view(), applied.deep_view(), steps),
{
    let ghost ms = migrations.deep_view();
    let ghost ap = applied.deep_view();
    let mut r: Vec<usize> = Vec::new();
    if steps == Some(0usize) {
        proof {
            assert(pending(ms, ap, ms.len()).take(0) =~= r@);
        }
        return r;
    }
    let mut i: usize = 0;
    while i < migrations.len()
        invariant
            i <= migrations.len(),
            ms == migrations.deep_view(),
            ap == applied.deep_view(),
            steps != Some(0usize),
            r@ == pending(ms, ap, i as nat),
            steps matches Some(s) ==> r.len() < s,
        decreases migrations.len() - i,
    {
        if !contains_string(applied, &migrations[i]) {
            r.push(i);
        }
        i = i + 1;
        assert(r@ =~= pending(ms, ap, i as nat));
        match steps {
            Some(s) => {
                if r.len() >= s {
                    proof {
                        lemma_pending_prefix(ms, ap, i as nat, ms.len());
                    }
                    return r;
                }
            },
            None => {},
        }
    }
    r
}

/// The first position that holds `name`, or -1 when there is none.
pub open spec fn first_index_of(names: Seq<Seq<char>>, name: Seq<char>) -> int
    decreases names.len(),
{
    if names.len() == 0 {
        -1
    } else if names[0] == name {
        0
    } else {
        let k = first_index_of(names.drop_first(), name);
        if k < 0 {
            -1
        } else {
            k + 1
        }
    }
}

/// The state of rolling back after the last `k` applied names: the positions
/// rolled back, the applied name that no migration carries (which stops the
/// walk), and whether the walk stopped.
pub open spec fn down_walk(
    ms: Seq<Seq<char>>,
    applied: Seq<Seq<char>>,
    steps: Option<usize>,
    k: nat,
) -> (Seq<usize>, Option<Seq<char>>, bool)
    decreases k,
{
    if k == 0 {
        (Seq::empty(), None, false)
    } else {
        let (p, e, done) = down_walk(ms, applied, steps, (k - 1) as nat);
        if done || k > applied.len() {
            (p, e, done)
        } else {
            let name = applied[applied.len() - k];
            let idx = first_index_of(ms, name);
            if idx < 0 {
                (p, Some(name), true)
            } else {
                let p2 = p.push(idx as usize);
                (p2, None, steps matches Some(s) && p2.len() >= s)
            }
        }
    }
}

/// What `down` does: the positions of the migrations to roll back, in order
/// (the last applied first, each the first migration with that name, at most
/// `steps` of them), and the applied name that no migration carries, which
/// stops the walk with an error after those roll-backs.
pub open spec fn plan_down_spec(ms: Seq<Seq<char>>, applied: Seq<Seq<char>>, steps: Option<usize>) -> (
    Seq<usize>,
    Option<Seq<char>>,
) {
    if steps == Some(0usize) {
        (Seq::empty(), None)
    } else {
        let (p, e, _) = down_walk(ms, applied, steps, applied.len());
        (p, e)
    }
}

fn first_index(names: &Vec<String>, name: &String) -> (r: Option<usize>)
    ensures
        match r {
            Some(i) => i < names.len() && i as int == first_index_of(names.deep_view(), name@),
            None => first_index_of(names.deep_view(), name@) < 0,
        },
{
    let ghost all = names.deep_view();
    let mut i: usize = 0;
    while i < names.len()
        invariant
            i <= names.len(),
            all == names.deep_view(),
            forall|k: int| 0 <= k < i ==> all[k] != name@,
        decreases names.len() - i,
    {
        if names[i] == *name {
            proof {
                lemma_first_index(all, name@, i as int);
            }
            return Some(i);
        }
        i = i + 1;
    }
    proof {
        lemma_first_index_absent(all, name@);
    }
    None
}

proof fn lemma_first_index(names: Seq<Seq<char>>, name: Seq<char>, i: int)
    requires
        0 <= i < names.len(),
        names[i] == name,
        forall|k: int| 0 <= k < i ==> names[k] != name,
    ensures
        first_index_of(names, name) == i,
    decreases i,
{
    if i > 0 {
        lemma_first_index(names.drop_first(), name, i - 1);
    }
}

proof fn lemma_first_index_absent(names: Seq<Seq<char>>, name: Seq<char>)
    requires
        forall|k: int| 0 <= k < names.len() ==> names[k] != name,
    ensures
        first_index_of(names, name) < 0,
    decreases names.len(),
{
    if names.len() > 0 {
        lemma_first_index_absent(names.drop_first(), name);
    }
}

proof fn lemma_down_walk_done(
    ms: Seq<Seq<char>>,
    applied: Seq<Seq<char>>,
    steps: Option<usize>,
    k: nat,
    n: nat,
)
    requires
        k <= n,
        down_walk(ms, applied, steps, k).2,
    ensures
        down_walk(ms, applied, steps, n) == down_walk(ms, applied, steps, k),
    decreases n - k,
{
    if k < n {
        lemma_down_walk_done(ms, applied, steps, k, (n - 1) as nat);
    }
}

/// The positions of the migrations to roll back, in order, and the applied
/// name that no migration carries if the walk stops on one.
pub fn plan_down(migrations: &Vec<String>, applied: &Vec<String>, steps: Option<usize>) -> (r: (
    Vec<usize>,
    Option<String>,
))
    ensures
        (r.0@, r.1.deep_view()) == plan_down_spec(
            migrations.deep_view(),
            applied.deep_view(),
            steps,
        ),
{
    let ghost ms = migrations.deep_view();
    let ghost ap = applied.deep_view();
    let mut r: Vec<usize> = Vec::new();
    if steps == Some(0usize) {
        return (r, None);
    }
    let mut k: usize = 0;
    while k < applied.len()
        invariant
            k <= applied.len(),
            ms == migrations.deep_view(),
            ap == applied.deep_view(),
            steps != Some(0usize),
            down_walk(ms, ap, steps, k as nat) == (r@, None::<Seq<char>>, false),
        decreases applied.len() - k,
    {
        let name = &applied[applied.len() - 1 - k];
        k = k + 1;
        match first_index(migrations, name) {
            None => {
                proof {
                    lemma_down_walk_done(ms, ap, steps, k as nat, ap.len());
                }
                return (r, Some(name.clone()));
            },
            Some(idx) => {
                r.push(idx);
                match steps {
                    Some(s) => {
                        if r.len() >= s {
                            proof {
                                lemma_down_walk_done(ms, ap, steps, k as nat, ap.len());
                            }
                            return (r, None);
                        }
                    },
                    None => {},
                }
            },
        }
    }
    (r, None)
}

/// The status of each known migration, in order: applied exactly when its
/// name is among the applied ones.
pub fn status(migrations: &Vec<String>, applied: &Vec<String>) -> (r: Vec<MigrationStatus>)
    ensures
        r.len() == migrations.len(),
        forall|i: int|
            0 <= i < r.len() ==> r@[i].name@ == migrations@[i]@ && r@[i].applied
                == applied.deep_view().contains(migrations@[i]@),
{
    let mut r: Vec<MigrationStatus> = Vec::new();
    let mut i: usize = 0;
    while i < migrations.len()
        invariant
            i <= migrations.len(),
            r.len() == i,
            forall|k: int|
                0 <= k < i ==> r@[k].name@ == migrations@[k]@ && r@[k].applied
                    == applied.deep_view().contains(migrations@[k]@),
        decreases migrations.len() - i,
    {
        let applied_now = contains_string(applied, &migrations[i]);
        r.push(MigrationStatus { name: migrations[i].clone(), applied: applied_now });
        i = i + 1;
    }
    r
}

proof fn lemma_pending_facts(ms: Seq<Seq<char>>, applied: Seq<Seq<char>>, n: nat)
    requires
        n <= ms.len(),
        ms.len() <= usize::MAX,
    ensures
        forall|j: int|
            0 <= j < pending(ms, applied, n).len() ==> (#[trigger] pending(ms, applied, n)[j])
                < n && !applied.contains(ms[pending(ms, applied, n)[j] as int]),
        forall|i: int, j: int|
            0 <= i < j < pending(ms, applied, n).len() ==> pending(ms, applied, n)[i] < pending(
                ms,
                applied,
                n,
            )[j],
        forall|k: int|
            0 <= k < n && !applied.contains(ms[k]) ==> pending(ms, applied, n).contains(
                k as usize,
            ),
    decreases n,
{
    if n > 0 {
        lemma_pending_facts(ms, applied, (n - 1) as nat);
        let a = pending(ms, applied, (n - 1) as nat);
        let b = pending(ms, applied, n);
        assert forall|k: int| 0 <= k < n && !applied.contains(ms[k]) implies b.contains(
            k as usize,
        ) by {
            if k < n - 1 {
                let w = choose|w: int| 0 <= w < a.len() && a[w] == k as usize;
                assert(b[w] == a[w]);
            } else {
                assert(b[a.len() as int] == k as usize);
            }
        }
        assert forall|j: int| 0 <= j < b.len() implies (#[trigger] b[j]) < n && !applied.contains(
            ms[b[j] as int],
        ) by {
            if j < a.len() {
                assert(b[j] == a[j]);
            }
        }
        assert forall|i: int, j: int| 0 <= i < j < b.len() implies b[i] < b[j] by {
            if j < a.len() {
                assert(b[i] == a[i]);
                assert(b[j] == a[j]);
            } else if i < a.len() {
                assert(b[i] == a[i]);
            }
        }
    }
}

/// `up` applies only migrations that are not applied, in the order they are
/// listed, each at most once, and no more than `steps` of them.
pub proof fn law_up_plan(ms: Seq<Seq<char>>, applied: Seq<Seq<char>>, steps: Option<usize>)
    requires
        ms.len() <= usize::MAX,
    ensures
        forall|j: int|
            0 <= j < plan_up_spec(ms, applied, steps).len() ==> (#[trigger] plan_up_spec(
                ms,
                applied,
                steps,
            )[j]) < ms.len() && !applied.contains(ms[plan_up_spec(ms, applied, steps)[j] as int]),
        forall|i: int, j: int|
            0 <= i < j < plan_up_spec(ms, applied, steps).len() ==> plan_up_spec(
                ms,
                applied,
                steps,
            )[i] < plan_up_spec(ms, applied, steps)[j],
        steps matches Some(s) ==> plan_up_spec(ms, applied, steps).len() <= s,
{
    lemma_pending_facts(ms, applied, ms.len());
}

/// The names of the migrations at positions `plan`.
pub open spec fn names_at(ms: Seq<Seq<char>>, plan: Seq<usize>) -> Seq<Seq<char>> {
    plan.map_values(|i: usize| ms[i as int])
}

/// After every migration that `up` plans without a step limit is applied, a
/// second `up` has nothing left to apply.
pub proof fn law_up_complete(ms: Seq<Seq<char>>, applied: Seq<Seq<char>>)
    requires
        ms.len() <= usize::MAX,
    ensures
        plan_up_spec(
            ms,
            applied + names_at(ms, plan_up_spec(ms, applied, None)),
            None,
        ).len() == 0,
{
    let p = plan_up_spec(ms, applied, None);
    let ap2 = applied + names_at(ms, p);
    lemma_pending_facts(ms, applied, ms.len());
    lemma_pending_facts(ms, ap2, ms.len());
    let q = pending(ms, ap2, ms.len());
    if q.len() > 0 {
        let k = q[0] as int;
        assert(!ap2.contains(ms[k]));
        if applied.contains(ms[k]) {
            let w = choose|w: int| 0 <= w < applied.len() && applied[w] == ms[k];
            assert(ap2[w] == ms[k]);
        } else {
            assert(p.contains(k as usize));
            let w = choose|w: int| 0 <= w < p.len() && p[w] == k as usize;
            assert(ap2[applied.len() + w] == ms[k]);
        }
    }
}

proof fn lemma_first_index_facts(names: Seq<Seq<char>>, name: Seq<char>)
    ensures
        first_index_of(names, name) >= 0 ==> first_index_of(names, name) < names.len()
            && names[first_index_of(names, name)] == name,
    decreases names.len(),
{
    if names.len() > 0 {
        lemma_first_index_facts(names.drop_first(), name);
    }
}

proof fn lemma_down_walk_facts(
    ms: Seq<Seq<char>>,
    applied: Seq<Seq<char>>,
    steps: Option<usize>,
    k: nat,
)
    requires
        ms.len() <= usize::MAX,
    ensures
        down_walk(ms, applied, steps, k).0.len() <= k,
        forall|j: int|
            0 <= j < down_walk(ms, applied, steps, k).0.len() ==> (#[trigger] down_walk(
                ms,
                applied,
                steps,
                k,
            ).0[j]) < ms.len() && j < applied.len() && ms[down_walk(ms, applied, steps, k).0[j] as int]
                == applied[applied.len() - 1 - j],
        !down_walk(ms, applied, steps, k).2 ==> down_walk(ms, applied, steps, k).0.len() == (if k
            <= applied.len() {
            k
        } else {
            applied.len() as nat
        }),
        steps matches Some(s) ==> down_walk(ms, applied, steps, k).0.len() <= s || s == 0,
    decreases k,
{
    if k > 0 {
        lemma_down_walk_facts(ms, applied, steps, (k - 1) as nat);
        let prev = down_walk(ms, applied, steps, (k - 1) as nat);
        if !prev.2 && k <= applied.len() {
            let name = applied[applied.len() - k];
            lemma_first_index_facts(ms, name);
            let p = down_walk(ms, applied, steps, k).0;
            assert forall|j: int| 0 <= j < p.len() implies (#[trigger] p[j]) < ms.len() && j
                < applied.len() && ms[p[j] as int] == applied[applied.len() - 1 - j] by {
                if j < prev.0.len() {
                    assert(p[j] == prev.0[j]);
                }
            }
        }
    }
}

/// `down` rolls back the applied migrations from the last applied one
/// backwards: the `j`-th roll-back is a migration named like the `j`-th
/// applied name from the end; no more than `steps` of them.
pub proof fn law_down_plan(ms: Seq<Seq<char>>, applied: Seq<Seq<char>>, steps: Option<usize>)
    requires
        ms.len() <= usize::MAX,
    ensures
        forall|j: int|
            0 <= j < plan_down_spec(ms, applied, steps).0.len() ==> (#[trigger] plan_down_spec(
                ms,
                applied,
                steps,
            ).0[j]) < ms.len() && j < applied.len() && ms[plan_down_spec(ms, applied, steps).0[j] as int]
                == applied[applied.len() - 1 - j],
        steps matches Some(s) ==> plan_down_spec(ms, applied, steps).0.len() <= s,
{
    lemma_down_walk_facts(ms, applied, steps, applied.len());
}

/// The positions of `plan` in reverse order.
pub open spec fn reversed(plan: Seq<usize>) -> Seq<usize> {
    Seq::new(plan.len(), |j: int| plan[plan.len() - 1 - j])
}

proof fn lemma_undo_walk(
    ms: Seq<Seq<char>>,
    ap: Seq<Seq<char>>,
    p: Seq<usize>,
    k: nat,
)
    requires
        ms.len() <= usize::MAX,
        forall|i: int, j: int| 0 <= i < j < ms.len() ==> ms[i] != ms[j],
        0 < p.len() <= ap.len(),
        p.len() <= ms.len(),
        k <= p.len(),
        forall|j: int| 0 <= j < p.len() ==> (#[trigger] p[j]) < ms.len(),
        forall|j: int|
            0 <= j < p.len() ==> ap[ap.len() - p.len() + j] == ms[#[trigger] p[j] as int],
    ensures
        down_walk(ms, ap, Some(p.len() as usize), k) == (
            Seq::new(k, |j: int| p[p.len() - 1 - j]),
            None::<Seq<char>>,
            k == p.len(),
        ),
    decreases k,
{
    let n = p.len();
    if k == 0 {
        assert(Seq::new(0, |j: int| p[n - 1 - j]) =~= Seq::<usize>::empty());
    } else {
        lemma_undo_walk(ms, ap, p, (k - 1) as nat);
        let j = n - k;
        let name = ap[ap.len() - k];
        assert(ap[ap.len() - n + j] == ms[p[j] as int]);
        assert(name == ms[p[j] as int]);
        assert forall|i: int| 0 <= i < p[j] implies ms[i] != name by {}
        lemma_first_index(ms, name, p[j] as int);
        assert(Seq::new((k - 1) as nat, |i: int| p[n - 1 - i]).push(p[j]) =~= Seq::new(
            k,
            |i: int| p[n - 1 - i],
        ));
    }
}

proof fn lemma_pending_len(ms: Seq<Seq<char>>, applied: Seq<Seq<char>>, n: nat)
    ensures
        pending(ms, applied, n).len() <= n,
    decreases n,
{
    if n > 0 {
        lemma_pending_len(ms, applied, (n - 1) as nat);
    }
}

proof fn lemma_plan_len(ms: Seq<Seq<char>>, applied: Seq<Seq<char>>, steps: Option<usize>)
    ensures
        plan_up_spec(ms, applied, steps).len() <= ms.len(),
{
    lemma_pending_len(ms, applied, ms.len());
}

/// With distinct migration names, `down` with as many steps as an `up`
/// applied rolls back exactly the migrations that `up` applied, the last
/// applied first, and reports no missing migration.
pub proof fn law_down_undoes_up(ms: Seq<Seq<char>>, applied: Seq<Seq<char>>, steps: Option<usize>)
    requires
        ms.len() <= usize::MAX,
        forall|i: int, j: int| 0 <= i < j < ms.len() ==> ms[i] != ms[j],
    ensures
        plan_down_spec(
            ms,
            applied + names_at(ms, plan_up_spec(ms, applied, steps)),
            Some(plan_up_spec(ms, applied, steps).len() as usize),
        ) == (reversed(plan_up_spec(ms, applied, steps)), None::<Seq<char>>),
{
    let p = plan_up_spec(ms, applied, steps);
    let ap = applied + names_at(ms, p);
    law_up_plan(ms, applied, steps);
    if p.len() == 0 {
        assert(reversed(p) =~= Seq::<usize>::empty());
    } else {
        assert(p.len() <= ms.len()) by {
            lemma_plan_len(ms, applied, steps);
        }
        assert forall|j: int| 0 <= j < p.len() implies ap[ap.len() - p.len() + j] == ms[
            #[trigger] p[j] as int] by {
            assert(ap[applied.len() + j] == names_at(ms, p)[j]);
        }
        lemma_undo_walk(ms, ap, p, p.len());
        lemma_down_walk_done(ms, ap, Some(p.len() as usize), p.len(), ap.len());
        assert(reversed(p) =~= Seq::new(p.len(), |j: int| p[p.len() - 1 - j]));
    }
}

} // verus!
