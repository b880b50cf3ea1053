//! Object paths of the form `<container>/<key>`.

use vstd::prelude::*;

verus! {

/// The character that separates a container from the key inside it.
pub open spec fn is_sep(c: char) -> bool {
    c == '/'
}

/// No separator occurs anywhere in `s`.
pub open spec fn no_sep(s: Seq<char>) -> bool {
    forall|j: int| 0 <= j < s.len() ==> !is_sep(#[trigger] s[j])
}

/// `i` is the position of the first separator in `s`.
pub open spec fn is_first_sep(s: Seq<char>, i: int) -> bool {
    0 <= i < s.len() && is_sep(s[i]) && no_sep(s.take(i))
}

/// Position of the first separator in `s`, or `s.len()` where there is none.
pub open spec fn first_sep(s: Seq<char>) -> int {
    if exists|i: int| is_first_sep(s, i) {
        choose|i: int| is_first_sep(s, i)
    } else {
        s.len() as int
    }
}

/// The container named by a listing prefix: everything before the first
/// separator, or the whole string where there is none.
pub open spec fn container_of(s: Seq<char>) -> Seq<char> {
    s.take(first_sep(s))
}

/// The key prefix inside the container: everything after the first
/// separator, or the empty string where there is none.
pub open spec fn key_prefix_of(s: Seq<char>) -> Seq<char> {
    if first_sep(s) < s.len() {
        s.skip(first_sep(s) + 1)
    } else {
        Seq::empty()
    }
}

/// The path of object `key` in `container`.
pub open spec fn join_spec(container: Seq<char>, key: Seq<char>) -> Seq<char> {
    container + seq!['/'] + key
}

/// At most one position is the first separator.
proof fn lemma_first_sep_unique(s: Seq<char>, i: int, k: int)
    requires
        is_first_sep(s, i),
        is_first_sep(s, k),
    ensures
        i == k,
{
    if i < k {
        assert(s.take(k)[i] == s[i]);
    } else if k < i {
        assert(s.take(i)[k] == s[k]);
    }
}

/// `first_sep` is the least separator position where one exists.
proof fn lemma_first_sep_at(s: Seq<char>, i: int)
    requires
        is_first_sep(s, i),
    ensures
        first_sep(s) == i,
{
    let k = choose|k: int| is_first_sep(s, k);
    lemma_first_sep_unique(s, i, k);
}

/// Splits a listing prefix at its first separator into the container and the
/// key prefix inside it; without a separator the whole string is the
/// container and the key prefix is empty.
pub fn split_prefix(prefix: &str) -> (r: (String, String))
    ensures
        r.0@ == container_of(prefix@),
        r.1@ == key_prefix_of(prefix@),
{
    let n = prefix.unicode_len();
    let mut i: usize = 0;
    while i < n
        invariant
            n == prefix@.len(),
            i <= n,
            no_sep(prefix@.take(i as int)),
        decreases n - i,
    {
        let c = prefix.get_char(i);
        if c == '/' {
            proof {
                lemma_first_sep_at(prefix@, i as int);
            }
            let container = prefix.substring_char(0, i).to_owned();
            let rest = prefix.substring_char(i + 1, n).to_owned();
            return (container, rest);
        }
        assert(prefix@.take(i as int + 1) =~= prefix@.take(i as int).push(c));
        i = i + 1;
    }
    assert(prefix@.take(n as int) =~= prefix@);
    assert(!exists|k: int| is_first_sep(prefix@, k));
    let whole = prefix.to_owned();
    proof {
        assert(prefix@.take(prefix@.len() as int) =~= prefix@);
    }
    (whole, String::new())
}

/// The path of object `key` in `container`: the two joined by a separator.
pub fn join_path(container: &str, key: &str) -> (r: String)
    ensures
        r@ == join_spec(container@, key@),
{
    let mut out = container.to_owned();
    let sep = "/";
    proof {
        reveal_strlit("/");
    }
    out.append(sep);
    out.append(key);
    out
}

/// A listing prefix that holds a separator is split at the first one, and
/// joining the two parts again gives the prefix back; one without a
/// separator is all container, with an empty key prefix.
pub proof fn lemma_prefix_split(s: Seq<char>)
    ensures
        (exists|i: int| 0 <= i < s.len() && is_sep(s[i])) ==> {
            let i = first_sep(s);
            &&& 0 <= i < s.len()
            &&& is_sep(s[i])
            &&& no_sep(container_of(s))
            &&& container_of(s) == s.take(i)
            &&& key_prefix_of(s) == s.skip(i + 1)
            &&& join_spec(container_of(s), key_prefix_of(s)) == s
        },
        no_sep(s) ==> container_of(s) == s && key_prefix_of(s) == Seq::<char>::empty(),
{
    if exists|i: int| 0 <= i < s.len() && is_sep(s[i]) {
        let j = choose|i: int| 0 <= i < s.len() && is_sep(s[i]);
        lemma_least_sep(s, j);
        let i = first_sep(s);
        assert(join_spec(container_of(s), key_prefix_of(s)) =~= s);
    }
    if no_sep(s) {
        assert(!exists|i: int| is_first_sep(s, i));
        assert(s.take(s.len() as int) =~= s);
    }
}

/// Where `s[j]` is a separator, some position at or before `j` is the first.
proof fn lemma_least_sep(s: Seq<char>, j: int)
    requires
        0 <= j < s.len(),
        is_sep(s[j]),
    ensures
        exists|i: int| is_first_sep(s, i),
    decreases j,
{
    if no_sep(s.take(j)) {
        assert(is_first_sep(s, j));
    } else {
        let k = choose|k: int| 0 <= k < s.take(j).len() && is_sep(#[trigger] s.take(j)[k]);
        assert(s.take(j)[k] == s[k]);
        lemma_least_sep(s, k);
    }
}

} // verus!
