//! Pre-flight capability support: deciding which of the media plugins the
//! pipeline requires are missing from those the installation offers. The
//! listing of what is installed is the caller's concern; the decision is
//! made here.

use vstd::prelude::*;

verus! {

/// The names in `s`, as sequences of characters.
pub open spec fn name_views(s: Seq<String>) -> Seq<Seq<char>> {
    s.map(|i: int, x: String| x@)
}

/// Whether `avail` holds a name spelled like `name`.
pub open spec fn has_name(avail: Seq<String>, name: Seq<char>) -> bool {
    name_views(avail).contains(name)
}

/// The required names that are not available, spelled as required and in
/// the order required lists them.
pub open spec fn missing_views(required: Seq<String>, available: Seq<String>) -> Seq<Seq<char>> {
    name_views(required).filter(|n: Seq<char>| !has_name(available, n))
}

/// Whether `avail` holds a name spelled like `name`.
fn contains_name(avail: &Vec<String>, name: &String) -> (r: bool)
    ensures
        r == has_name(avail@, name@),
{
    let n = avail.len();
    let mut i: usize = 0;
    while i < n
        invariant
            n == avail@.len(),
            0 <= i <= n,
            forall|j: int| 0 <= j < i ==> (#[trigger] avail@[j])@ != name@,
        decreases n - i,
    {
        if avail[i].eq(name) {
            proof {
                assert(name_views(avail@)[i as int] == name@);
            }
            return true;
        }
        i = i + 1;
    }
    proof {
        assert forall|j: int| 0 <= j < name_views(avail@).len()
            implies #[trigger] name_views(avail@)[j] != name@ by {
            assert(name_views(avail@)[j] == avail@[j]@);
        }
    }
    false
}

/// Which of the `required` plugin names are not among `available`, spelled
/// as required and in the order `required` lists them. Empty exactly when
/// every required name is available.
pub fn missing_plugins(required: &Vec<String>, available: &Vec<String>) -> (missing: Vec<String>)
    ensures
        name_views(missing@) == missing_views(required@, available@),
        missing@.len() == 0 <==> (forall|j: int|
            0 <= j < required@.len() ==> has_name(available@, (#[trigger] required@[j])@)),
{
    let ghost pred = |n: Seq<char>| !has_name(available@, n);
    let mut missing: Vec<String> = Vec::new();
    let n = required.len();
    let mut i: usize = 0;
    proof {
        assert(name_views(required@).take(0) =~= Seq::<Seq<char>>::empty());
        assert(name_views(missing@) =~= Seq::<Seq<char>>::empty());
        assert(Seq::<Seq<char>>::empty().filter(pred) =~= Seq::<Seq<char>>::empty());
    }
    while i < n
        invariant
            n == required@.len(),
            0 <= i <= n,
            pred == (|n: Seq<char>| !has_name(available@, n)),
            name_views(missing@) == name_views(required@).take(i as int).filter(pred),
        decreases n - i,
    {
        let ghost rv = name_views(required@);
        let ghost before = name_views(missing@);
        proof {
            let s = rv.take(i + 1);
            assert(s.len() == i + 1);
            assert(s.drop_last() =~= rv.take(i as int));
            assert(s.last() == rv[i as int]);
            reveal_with_fuel(Seq::filter, 2);
            assert(s.filter(pred) == if pred(s.last()) {
                s.drop_last().filter(pred).push(s.last())
            } else {
                s.drop_last().filter(pred)
            });
            assert(rv[i as int] == required@[i as int]@);
        }
        if !contains_name(available, &required[i]) {
            let name = required[i].clone();
            missing.push(name);
            proof {
                assert(name_views(missing@) =~= before.push(required@[i as int]@));
            }
        }
        i = i + 1;
    }
    proof {
        assert(name_views(required@).take(n as int) =~= name_views(required@));
        if missing@.len() == 0 {
            assert forall|j: int| 0 <= j < required@.len()
                implies has_name(available@, (#[trigger] required@[j])@) by {
                if !has_name(available@, required@[j]@) {
                    assert(pred(name_views(required@)[j]));
                    name_views(required@).lemma_filter_contains(pred, j);
                    assert(missing_views(required@, available@).len() > 0);
                }
            }
        }
        if missing@.len() > 0 {
            assert(name_views(missing@).len() > 0);
            name_views(required@).lemma_filter_pred(pred, 0);
            name_views(required@).lemma_filter_contains_rev(pred, name_views(missing@)[0]);
            let w = choose|w: int|
                0 <= w < name_views(required@).len() && #[trigger] name_views(required@)[w]
                    == name_views(missing@)[0];
            assert(!has_name(available@, (required@[w])@));
        }
    }
    missing
}

} // verus!
