//! Test discovery: selecting, from a compiled program unit, the
//! test-tagged functions whose name contains a filter substring, in
//! declaration order.

use vstd::prelude::*;
use crate::model::{lemma_filter_push, test_model, unit_model, ProgramUnit, TestFunction};

verus! {

/// The needle occurs in the haystack starting at character position `i`.
pub open spec fn match_at(hay: Seq<char>, needle: Seq<char>, i: int) -> bool {
    &&& 0 <= i
    &&& i + needle.len() <= hay.len()
    &&& hay.subrange(i, i + needle.len() as int) == needle
}

/// The needle occurs somewhere in the haystack.  An empty needle occurs
/// in every haystack.
pub open spec fn contains_substr(hay: Seq<char>, needle: Seq<char>) -> bool {
    exists|i: int| match_at(hay, needle, i)
}

/// The tests of a unit whose name contains the filter, in declaration
/// order.
pub open spec fn selected_tests(
    tests: Seq<(Seq<char>, u64)>,
    filter: Seq<char>,
) -> Seq<(Seq<char>, u64)> {
    tests.filter(|t: (Seq<char>, u64)| contains_substr(t.0, filter))
}

/// Pure substring search over the characters of two strings.
pub fn contains_substring(hay: &str, needle: &str) -> (found: bool)
    ensures
        found == contains_substr(hay@, needle@),
{
    let hay_len: usize = hay.unicode_len();
    let needle_len: usize = needle.unicode_len();
    if needle_len == 0 {
        proof {
            assert(hay@.subrange(0, 0) =~= needle@);
            assert(match_at(hay@, needle@, 0));
        }
        return true;
    }
    if needle_len > hay_len {
        proof {
            assert forall|i: int| !match_at(hay@, needle@, i) by {}
        }
        return false;
    }
    let mut i: usize = 0;
    while i <= hay_len - needle_len
        invariant
            1 <= needle_len <= hay_len,
            hay_len == hay@.len(),
            needle_len == needle@.len(),
            i <= hay_len - needle_len + 1,
            forall|k: int| 0 <= k < i ==> !match_at(hay@, needle@, k),
        decreases hay_len - needle_len - i + 1,
    {
        let mut j: usize = 0;
        let mut alive: bool = true;
        while alive && j < needle_len
            invariant
                needle_len <= hay_len,
                hay_len == hay@.len(),
                needle_len == needle@.len(),
                i + needle_len <= hay_len,
                j <= needle_len,
                alive ==> forall|t: int| 0 <= t < j ==> hay@[i + t] == needle@[t],
                !alive ==> !match_at(hay@, needle@, i as int),
            decreases (if alive { needle_len - j + 1 } else { 0int }),
        {
            if hay.get_char(i + j) != needle.get_char(j) {
                proof {
                    if match_at(hay@, needle@, i as int) {
                        assert(hay@.subrange(i as int, i + needle_len as int)[j as int]
                            == needle@[j as int]);
                    }
                }
                alive = false;
            } else {
                j = j + 1;
            }
        }
        if alive {
            proof {
                assert(hay@.subrange(i as int, i + needle_len as int) =~= needle@);
                assert(match_at(hay@, needle@, i as int));
            }
            return true;
        }
        i = i + 1;
    }
    proof {
        assert forall|k: int| !match_at(hay@, needle@, k) by {
            if 0 <= k && k + needle@.len() <= hay@.len() {
                assert(k < i);
            }
        }
    }
    false
}

/// Discovery: every test of the unit whose name contains the filter, in
/// declaration order.  An empty filter selects every test.  An empty
/// selection is a valid result, not a failure.
pub fn find_tests(unit: &ProgramUnit, filter: &str) -> (selected: Vec<TestFunction>)
    ensures
        selected@.map_values(|t: TestFunction| test_model(t))
            == selected_tests(unit_model(*unit), filter@),
{
    let ghost pred = |t: (Seq<char>, u64)| contains_substr(t.0, filter@);
    let mut selected: Vec<TestFunction> = Vec::new();
    let n: usize = unit.tests.len();
    let mut k: usize = 0;
    while k < n
        invariant
            n == unit.tests@.len(),
            k <= n,
            selected@.map_values(|t: TestFunction| test_model(t))
                == unit_model(*unit).take(k as int).filter(pred),
            pred == (|t: (Seq<char>, u64)| contains_substr(t.0, filter@)),
        decreases n - k,
    {
        let ghost prev = unit_model(*unit).take(k as int);
        let t = &unit.tests[k];
        let hit = contains_substring(t.name.as_str(), filter);
        proof {
            assert(unit_model(*unit).take(k + 1) =~= prev.push(test_model(unit.tests@[k as int])));
            lemma_filter_push(prev, pred, test_model(unit.tests@[k as int]));
        }
        if hit {
            let picked = TestFunction { name: t.name.clone(), id: t.id };
            selected.push(picked);
            proof {
                assert(selected@.map_values(|t: TestFunction| test_model(t)) =~= prev.filter(
                    pred,
                ).push(test_model(unit.tests@[k as int])));
            }
        }
        k = k + 1;
    }
    proof {
        assert(unit_model(*unit).take(n as int) =~= unit_model(*unit));
    }
    selected
}

} // verus!
