//! How far apart two names are, and which registered name is closest to a
//! mistyped one.

use vstd::prelude::*;
use crate::chars::to_chars;
use crate::keyed::{Keyed, keys};

verus! {

/// The number of positions at which two texts of equal length differ.
pub open spec fn mismatches(a: Seq<char>, b: Seq<char>) -> nat
    recommends
        a.len() == b.len(),
    decreases a.len(),
{
    if a.len() == 0 || b.len() == 0 {
        0
    } else {
        mismatches(a.drop_last(), b.drop_last()) + if a.last() != b.last() {
            1nat
        } else {
            0nat
        }
    }
}

/// The Hamming distance, which only texts of equal length have.
pub open spec fn hamming(a: Seq<char>, b: Seq<char>) -> Option<nat> {
    if a.len() == b.len() {
        Some(mismatches(a, b))
    } else {
        None
    }
}

/// The least of three numbers.
pub open spec fn min3(x: nat, y: nat, z: nat) -> nat {
    if x <= y && x <= z {
        x
    } else if y <= z {
        y
    } else {
        z
    }
}

/// The Levenshtein distance: the least number of single-character
/// insertions, deletions and substitutions that turn `a` into `b`, by its
/// recurrence on the last characters.
pub open spec fn levenshtein(a: Seq<char>, b: Seq<char>) -> nat
    decreases a.len() + b.len(),
{
    if a.len() == 0 {
        b.len()
    } else if b.len() == 0 {
        a.len()
    } else if a.last() == b.last() {
        levenshtein(a.drop_last(), b.drop_last())
    } else {
        1 + min3(
            levenshtein(a.drop_last(), b.drop_last()),
            levenshtein(a.drop_last(), b),
            levenshtein(a, b.drop_last()),
        )
    }
}

/// A name further away than this is never suggested.
pub const MAX_DISTANCE: usize = 2;

/// The distance by which the matcher ranks a registered name: the Hamming
/// distance where the name has one and it is within [`MAX_DISTANCE`], and
/// the Levenshtein distance in every other case.
pub open spec fn distance(target: Seq<char>, name: Seq<char>) -> nat {
    if target.len() == name.len() && mismatches(target, name) <= MAX_DISTANCE {
        mismatches(target, name)
    } else {
        levenshtein(target, name)
    }
}

/// Whether `names[k]` is the suggestion for `target`: it is within
/// [`MAX_DISTANCE`], no name is closer, and no earlier name is as close.
pub open spec fn is_closest(names: Seq<Seq<char>>, target: Seq<char>, k: int) -> bool {
    &&& 0 <= k < names.len()
    &&& distance(target, names[k]) <= MAX_DISTANCE
    &&& forall|j: int| 0 <= j < names.len() ==> distance(target, names[k]) <= distance(target, #[trigger] names[j])
    &&& forall|j: int| 0 <= j < k ==> distance(target, names[k]) < distance(target, #[trigger] names[j])
}

/// Whether no name is within [`MAX_DISTANCE`] of `target`.
pub open spec fn none_close(names: Seq<Seq<char>>, target: Seq<char>) -> bool {
    forall|j: int| 0 <= j < names.len() ==> distance(target, #[trigger] names[j]) > MAX_DISTANCE
}

/// The Levenshtein distance never exceeds the longer text's length.
pub proof fn lemma_levenshtein_bound(a: Seq<char>, b: Seq<char>)
    ensures
        levenshtein(a, b) <= if a.len() >= b.len() { a.len() } else { b.len() },
    decreases a.len() + b.len(),
{
    if a.len() == 0 || b.len() == 0 {
    } else {
        lemma_levenshtein_bound(a.drop_last(), b.drop_last());
    }
}

/// The Hamming distance of two character vectors.
pub fn hamming_chars(a: &Vec<char>, b: &Vec<char>) -> (r: Option<usize>)
    ensures
        r matches Some(d) ==> hamming(a@, b@) == Some(d as nat),
        r is None ==> hamming(a@, b@) is None,
{
    if a.len() != b.len() {
        return None;
    }
    let mut count: usize = 0;
    let mut i: usize = 0;
    while i < a.len()
        invariant
            i <= a.len() == b.len(),
            count == mismatches(a@.take(i as int), b@.take(i as int)),
            count <= i,
        decreases a.len() - i,
    {
        proof {
            let x = a@.take(i as int + 1);
            let y = b@.take(i as int + 1);
            assert(x.drop_last() =~= a@.take(i as int));
            assert(y.drop_last() =~= b@.take(i as int));
        }
        if a[i] != b[i] {
            count = count + 1;
        }
        i = i + 1;
    }
    assert(a@.take(i as int) =~= a@);
    assert(b@.take(i as int) =~= b@);
    Some(count)
}

/// The Levenshtein distance of two character vectors, by dynamic
/// programming over one row of the table.
pub fn edit_chars(a: &Vec<char>, b: &Vec<char>) -> (r: usize)
    ensures
        r == levenshtein(a@, b@),
{
    let m = a.len();
    let n = b.len();
    if n == 0 {
        return m;
    }
    // row[j] is the distance between the first i characters of `a` and the
    // first j + 1 characters of `b`.
    let mut row: Vec<usize> = Vec::new();
    let mut j: usize = 0;
    while j < n
        invariant
            j <= n == b.len(),
            row.len() == j,
            forall|k: int| 0 <= k < j ==> row@[k] == levenshtein(a@.take(0), #[trigger] b@.take(k + 1)),
        decreases n - j,
    {
        row.push(j + 1);
        j = j + 1;
    }
    let mut i: usize = 0;
    while i < m
        invariant
            i <= m == a.len(),
            0 < n == b.len(),
            row.len() == n,
            forall|k: int| 0 <= k < n ==> row@[k] == levenshtein(a@.take(i as int), #[trigger] b@.take(k + 1)),
        decreases m - i,
    {
        let ghost x = a@.take(i as int + 1);
        let ghost x0 = a@.take(i as int);
        let mut diag: usize = i;
        let mut left: usize = i + 1;
        let mut j: usize = 0;
        while j < n
            invariant
                i < m == a.len(),
                j <= n == b.len(),
                row.len() == n,
                x == a@.take(i as int + 1),
                x0 == a@.take(i as int),
                x.drop_last() == x0,
                x.last() == a@[i as int],
                diag == levenshtein(x0, b@.take(j as int)),
                left == levenshtein(x, b@.take(j as int)),
                forall|k: int| 0 <= k < j ==> row@[k] == levenshtein(x, #[trigger] b@.take(k + 1)),
                forall|k: int| j <= k < n ==> row@[k] == levenshtein(x0, #[trigger] b@.take(k + 1)),
            decreases n - j,
        {
            let ghost y = b@.take(j as int + 1);
            let ghost y0 = b@.take(j as int);
            assert(y.drop_last() =~= y0);
            let up = row[j];
            proof {
                lemma_levenshtein_bound(x, y);
            }
            let value = if a[i] == b[j] {
                diag
            } else {
                let least = if diag <= up && diag <= left {
                    diag
                } else if up <= left {
                    up
                } else {
                    left
                };
                1 + least
            };
            diag = up;
            row.set(j, value);
            left = value;
            j = j + 1;
        }
        i = i + 1;
    }
    assert(a@.take(m as int) =~= a@);
    assert(b@.take(n - 1 + 1) =~= b@);
    row[n - 1]
}

/// The Hamming distance between two texts: the number of positions at
/// which they differ, or `None` where their lengths differ.
pub fn hamming_distance(a: &str, b: &str) -> (r: Option<usize>)
    ensures
        r matches Some(d) ==> hamming(a@, b@) == Some(d as nat),
        r is None ==> hamming(a@, b@) is None,
{
    let x = to_chars(a);
    let y = to_chars(b);
    hamming_chars(&x, &y)
}

/// The Levenshtein distance between two texts.
pub fn edit_distance(a: &str, b: &str) -> (r: usize)
    ensures
        r == levenshtein(a@, b@),
{
    let x = to_chars(a);
    let y = to_chars(b);
    edit_chars(&x, &y)
}

/// The index of the name to suggest for `target`: the closest name within
/// [`MAX_DISTANCE`], the earliest such where several are as close, and
/// `None` where none is within it.
pub fn closest<T: Keyed>(names: &Vec<T>, target: &str) -> (r: Option<usize>)
    ensures
        r matches Some(k) ==> k < names.len() && is_closest(keys(names@), target@, k as int),
        r is None ==> none_close(keys(names@), target@),
{
    let t = to_chars(target);
    let mut best: Option<usize> = None;
    let mut best_distance: usize = usize::MAX;
    let ghost all = keys(names@);
    let mut i: usize = 0;
    while i < names.len()
        invariant
            i <= names.len(),
            all == keys(names@),
            t@ == target@,
            best is None ==> best_distance == usize::MAX && none_close(all.take(i as int), target@),
            best matches Some(k) ==> k < i && best_distance == distance(target@, all[k as int])
                && is_closest(all.take(i as int), target@, k as int),
        decreases names.len() - i,
    {
        let name = to_chars(names[i].key_text().as_str());
        let d = match hamming_chars(&t, &name) {
            Some(h) => if h <= MAX_DISTANCE {
                h
            } else {
                edit_chars(&t, &name)
            },
            None => edit_chars(&t, &name),
        };
        if d <= MAX_DISTANCE && d < best_distance {
            best_distance = d;
            best = Some(i);
        }
        i = i + 1;
    }
    assert(all.take(i as int) =~= all);
    best
}

/// The name to suggest for `target`: the closest of `names`, or `None`
/// where none is close enough.
pub open spec fn suggestion(names: Seq<Seq<char>>, target: Seq<char>) -> Option<Seq<char>> {
    if exists|k: int| is_closest(names, target, k) {
        Some(names[choose|k: int| is_closest(names, target, k)])
    } else {
        None
    }
}

/// At most one position is the closest.
pub proof fn lemma_closest_unique(names: Seq<Seq<char>>, target: Seq<char>, k1: int, k2: int)
    requires
        is_closest(names, target, k1),
        is_closest(names, target, k2),
    ensures
        k1 == k2,
{
}

/// The closest position gives the suggestion.
pub proof fn lemma_suggestion_some(names: Seq<Seq<char>>, target: Seq<char>, k: int)
    requires
        is_closest(names, target, k),
    ensures
        suggestion(names, target) == Some(names[k]),
{
    let chosen = choose|j: int| is_closest(names, target, j);
    lemma_closest_unique(names, target, k, chosen);
}

/// Where no name is close, there is no suggestion.
pub proof fn lemma_suggestion_none(names: Seq<Seq<char>>, target: Seq<char>)
    requires
        none_close(names, target),
    ensures
        suggestion(names, target) is None,
{
}

/// Texts at Levenshtein distance zero are the same text.
pub proof fn lemma_levenshtein_zero(a: Seq<char>, b: Seq<char>)
    requires
        levenshtein(a, b) == 0,
    ensures
        a == b,
    decreases a.len() + b.len(),
{
    if a.len() == 0 || b.len() == 0 {
        assert(a =~= b);
    } else {
        lemma_levenshtein_zero(a.drop_last(), b.drop_last());
        assert(a =~= a.drop_last().push(a.last()));
        assert(b =~= b.drop_last().push(b.last()));
    }
}

/// A text differs from itself at no position.
pub proof fn lemma_mismatches_same(a: Seq<char>)
    ensures
        mismatches(a, a) == 0,
    decreases a.len(),
{
    if a.len() > 0 {
        lemma_mismatches_same(a.drop_last());
    }
}

/// Substituting at every differing position is one way to edit: texts of
/// equal length are no further apart by edits than by differing positions.
pub proof fn lemma_levenshtein_le_mismatches(a: Seq<char>, b: Seq<char>)
    requires
        a.len() == b.len(),
    ensures
        levenshtein(a, b) <= mismatches(a, b),
    decreases a.len(),
{
    if a.len() > 0 {
        lemma_levenshtein_le_mismatches(a.drop_last(), b.drop_last());
    }
}

/// Texts of equal length that are one edit apart differ at one position.
pub proof fn lemma_levenshtein_one(a: Seq<char>, b: Seq<char>)
    requires
        a.len() == b.len(),
        levenshtein(a, b) == 1,
    ensures
        mismatches(a, b) == 1,
    decreases a.len(),
{
    if a.len() > 0 {
        let x = a.drop_last();
        let y = b.drop_last();
        if a.last() == b.last() {
            lemma_levenshtein_one(x, y);
        } else if levenshtein(x, y) == 0 {
            lemma_levenshtein_zero(x, y);
            lemma_mismatches_same(x);
        } else if levenshtein(x, b) == 0 {
            lemma_levenshtein_zero(x, b);
        } else {
            lemma_levenshtein_zero(a, y);
        }
    }
}

/// The matcher's distance is the Levenshtein distance: where it takes the
/// Hamming distance, the two are equal.
pub proof fn lemma_distance_is_levenshtein(target: Seq<char>, name: Seq<char>)
    ensures
        distance(target, name) == levenshtein(target, name),
{
    if target.len() == name.len() && mismatches(target, name) <= MAX_DISTANCE {
        lemma_levenshtein_le_mismatches(target, name);
        if levenshtein(target, name) == 0 {
            lemma_levenshtein_zero(target, name);
            lemma_mismatches_same(target);
        } else if levenshtein(target, name) == 1 {
            lemma_levenshtein_one(target, name);
        }
    }
}

/// Either no name is close, or one position is the closest.
pub proof fn lemma_closest_exists(names: Seq<Seq<char>>, target: Seq<char>)
    ensures
        none_close(names, target) || exists|k: int| is_closest(names, target, k),
    decreases names.len(),
{
    if names.len() > 0 {
        let rest = names.drop_last();
        let last = names.len() - 1;
        let d = distance(target, names[last]);
        lemma_closest_exists(rest, target);
        assert(forall|j: int| 0 <= j < last ==> rest[j] == names[j]);
        if none_close(rest, target) {
            if d <= MAX_DISTANCE {
                assert forall|j: int| 0 <= j < names.len() implies d <= distance(
                    target,
                    #[trigger] names[j],
                ) by {
                    if j < last {
                        assert(distance(target, rest[j]) > MAX_DISTANCE);
                    }
                }
                assert forall|j: int| 0 <= j < last implies d < distance(
                    target,
                    #[trigger] names[j],
                ) by {
                    assert(distance(target, rest[j]) > MAX_DISTANCE);
                }
                assert(is_closest(names, target, last));
            } else {
                assert forall|j: int| 0 <= j < names.len() implies distance(
                    target,
                    #[trigger] names[j],
                ) > MAX_DISTANCE by {
                    if j < last {
                        assert(distance(target, rest[j]) > MAX_DISTANCE);
                    }
                }
            }
        } else {
            let k = choose|k: int| is_closest(rest, target, k);
            let best = distance(target, rest[k]);
            if d < best {
                assert forall|j: int| 0 <= j < names.len() implies d <= distance(
                    target,
                    #[trigger] names[j],
                ) by {
                    if j < last {
                        assert(best <= distance(target, rest[j]));
                    }
                }
                assert forall|j: int| 0 <= j < last implies d < distance(
                    target,
                    #[trigger] names[j],
                ) by {
                    assert(best <= distance(target, rest[j]));
                }
                assert(is_closest(names, target, last));
            } else {
                assert forall|j: int| 0 <= j < names.len() implies best <= distance(
                    target,
                    #[trigger] names[j],
                ) by {
                    if j < last {
                        assert(best <= distance(target, rest[j]));
                    }
                }
                assert forall|j: int| 0 <= j < k implies best < distance(
                    target,
                    #[trigger] names[j],
                ) by {
                    assert(best < distance(target, rest[j]));
                }
                assert(is_closest(names, target, k));
            }
        }
    }
}

/// The suggestion, said by edits alone: there is none exactly when every
/// name is more than [`MAX_DISTANCE`] edits away, and otherwise it is the
/// earliest of the names that are the fewest edits away.
pub proof fn lemma_suggestion_by_edits(names: Seq<Seq<char>>, target: Seq<char>)
    ensures
        suggestion(names, target) is None <==> forall|j: int|
            0 <= j < names.len() ==> levenshtein(target, #[trigger] names[j]) > MAX_DISTANCE,
        suggestion(names, target) matches Some(name) ==> exists|k: int|
            {
                &&& 0 <= k < names.len()
                &&& #[trigger] names[k] == name
                &&& levenshtein(target, name) <= MAX_DISTANCE
                &&& forall|j: int|
                    0 <= j < names.len() ==> levenshtein(target, name) <= levenshtein(
                        target,
                        #[trigger] names[j],
                    )
                &&& forall|j: int|
                    0 <= j < k ==> levenshtein(target, name) < levenshtein(
                        target,
                        #[trigger] names[j],
                    )
            },
{
    assert forall|j: int| 0 <= j < names.len() implies distance(target, #[trigger] names[j])
        == levenshtein(target, names[j]) by {
        lemma_distance_is_levenshtein(target, names[j]);
    }
    lemma_closest_exists(names, target);
    if exists|k: int| is_closest(names, target, k) {
        let k = choose|k: int| is_closest(names, target, k);
        lemma_suggestion_some(names, target, k);
        assert(distance(target, names[k]) <= MAX_DISTANCE);
        assert(names[k] == suggestion(names, target)->0);
    } else {
        lemma_suggestion_none(names, target);
    }
}

} // verus!
