//! Character-level string helpers: locating a character from either end,
//! slicing around it, and joining a list of words with spaces.

use vstd::prelude::*;
use vstd::string::StrSliceExecFns;
use vstd::string::StringExecFns;

verus! {

/// The prefix of `s` up to (not including) the first occurrence of `c`;
/// all of `s` when `c` does not occur.
pub open spec fn before_first(s: Seq<char>, c: char) -> Seq<char> {
    match s.index_of_first(c) {
        Some(i) => s.take(i),
        None => s,
    }
}

/// The suffix of `s` after the last occurrence of `c`; all of `s` when `c`
/// does not occur.
pub open spec fn after_last(s: Seq<char>, c: char) -> Seq<char> {
    match s.index_of_last(c) {
        Some(i) => s.skip(i + 1),
        None => s,
    }
}

/// The words of `items` joined with single spaces, in order.
pub open spec fn join_spaces(items: Seq<Seq<char>>) -> Seq<char>
    decreases items.len(),
{
    if items.len() == 0 {
        Seq::empty()
    } else if items.len() == 1 {
        items[0]
    } else {
        join_spaces(items.drop_last()) + seq![' '] + items.last()
    }
}

/// Index of the first occurrence of `c` in `s`, when there is one.
pub fn find_first(s: &str, c: char) -> (r: Option<usize>)
    ensures
        match r {
            Some(i) => i < s@.len() && s@.index_of_first(c) == Some(i as int),
            None => s@.index_of_first(c) is None,
        },
{
    let n = s.unicode_len();
    let mut i: usize = 0;
    while i < n
        invariant
            i <= n,
            n == s@.len(),
            forall|j: int| 0 <= j < i ==> s@[j] != c,
        decreases n - i,
    {
        if s.get_char(i) == c {
            proof {
                s@.index_of_first_ensures(c);
                assert(s@.contains(c)) by {
                    assert(0 <= (i as int) && (i as int) < s@.len() && s@[i as int] == c);
                }
                match s@.index_of_first(c) {
                    Some(idx) => {
                        if idx < i as int {
                            assert(s@[idx] != c);
                        }
                        if idx > i as int {
                            assert(s@[i as int] != c);
                        }
                    },
                    None => {
                        assert(false);
                    },
                }
            }
            return Some(i);
        }
        i += 1;
    }
    proof {
        s@.index_of_first_ensures(c);
        match s@.index_of_first(c) {
            Some(idx) => {
                assert(s@[idx] != c);
            },
            None => {},
        }
    }
    None
}

/// Index of the last occurrence of `c` in `s`, when there is one.
pub fn find_last(s: &str, c: char) -> (r: Option<usize>)
    ensures
        match r {
            Some(i) => i < s@.len() && s@.index_of_last(c) == Some(i as int),
            None => s@.index_of_last(c) is None,
        },
{
    let n = s.unicode_len();
    let mut e = n;
    while e > 0
        invariant
            e <= n,
            n == s@.len(),
            forall|j: int| e <= j < n ==> s@[j] != c,
        decreases e,
    {
        if s.get_char(e - 1) == c {
            proof {
                s@.index_of_last_ensures(c);
                assert(s@.contains(c)) by {
                    assert(0 <= (e as int - 1) && (e as int - 1) < s@.len() && s@[e as int - 1] == c);
                }
                match s@.index_of_last(c) {
                    Some(idx) => {
                        if idx < e as int - 1 {
                            assert(s@[e as int - 1] != c);
                        }
                        if idx > e as int - 1 {
                            assert(s@[idx] != c);
                        }
                    },
                    None => {
                        assert(false);
                    },
                }
            }
            return Some(e - 1);
        }
        e -= 1;
    }
    proof {
        s@.index_of_last_ensures(c);
        match s@.index_of_last(c) {
            Some(idx) => {
                assert(s@[idx] != c);
            },
            None => {},
        }
    }
    None
}

/// The prefix of `s` up to the first occurrence of `c`, as a slice of `s`.
pub fn head_until<'a>(s: &'a str, c: char) -> (r: &'a str)
    ensures
        r@ == before_first(s@, c),
{
    match find_first(s, c) {
        Some(i) => s.substring_char(0, i),
        None => s,
    }
}

/// The suffix of `s` after the last occurrence of `c`, as a slice of `s`.
pub fn tail_from_last<'a>(s: &'a str, c: char) -> (r: &'a str)
    ensures
        r@ == after_last(s@, c),
{
    let n = s.unicode_len();
    match find_last(s, c) {
        Some(i) => s.substring_char(i + 1, n),
        None => s,
    }
}

/// The entries of `items` joined with single spaces, in order.
pub fn join_space(items: &Vec<String>) -> (r: String)
    ensures
        r@ == join_spaces(items.deep_view()),
{
    let mut r = String::new();
    let n = items.len();
    let mut i: usize = 0;
    while i < n
        invariant
            i <= n,
            n == items@.len(),
            r@ == join_spaces(items.deep_view().take(i as int)),
        decreases n - i,
    {
        if i > 0 {
            r.append(" ");
        }
        r.append(items[i].as_str());
        proof {
            let dv = items.deep_view();
            assert(dv[i as int] == items@[i as int]@);
            assert(dv.take(i + 1 as int).drop_last() =~= dv.take(i as int));
            assert(dv.take(i + 1 as int).last() == dv[i as int]);
            reveal_strlit(" ");
            assert(" "@ =~= seq![' ']);
            if i == 0 {
                assert(Seq::<char>::empty() + dv[0] =~= dv[0]);
            }
        }
        i += 1;
    }
    proof {
        assert(items.deep_view().take(n as int) =~= items.deep_view());
    }
    r
}

} // verus!
