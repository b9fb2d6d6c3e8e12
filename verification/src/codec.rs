use crate::strutil::push_char;
use vstd::prelude::*;

verus! {

// ----- decoding the runtime's bracketed list text -----

/// Splitting on a separator, one character at a time from the left.
/// Splitting a text with no separator yields that one token; each
/// separator starts a fresh token, so `n` separators yield `n + 1`
/// tokens, empty ones included.
pub open spec fn split_on(s: Seq<char>, sep: char) -> Seq<Seq<char>>
    decreases s.len(),
{
    if s.len() == 0 {
        seq![Seq::<char>::empty()]
    } else if s[0] == sep {
        seq![Seq::<char>::empty()] + split_on(s.drop_first(), sep)
    } else {
        let rest = split_on(s.drop_first(), sep);
        seq![seq![s[0]] + rest[0]] + rest.drop_first()
    }
}

pub proof fn lemma_split_on_len(s: Seq<char>, sep: char)
    ensures
        split_on(s, sep).len() >= 1,
    decreases s.len(),
{
    if s.len() != 0 {
        lemma_split_on_len(s.drop_first(), sep);
    }
}

/// What the decoder returns: strip exactly one leading and one trailing
/// bracket character, split the inside on the separator; an empty inside
/// is the empty list, not one empty token. Text shorter than the two
/// brackets does not parse.
pub open spec fn decode_spec(text: Seq<char>, sep: char) -> Option<Seq<Seq<char>>> {
    if text.len() < 2 {
        None
    } else {
        let inner = text.subrange(1, text.len() - 1);
        if inner.len() == 0 {
            Some(Seq::empty())
        } else {
            Some(split_on(inner, sep))
        }
    }
}

/// Parses the runtime's bracketed list text: `None` on text too short to
/// carry its two brackets, otherwise exactly the tokens of `decode_spec`.
pub fn decode_list(text: &str, sep: char) -> (r: Option<Vec<String>>)
    ensures
        r is Some <==> decode_spec(text@, sep) is Some,
        r is Some ==> r->0.deep_view() == decode_spec(text@, sep)->0,
{
    let n = text.unicode_len();
    if n < 2 {
        return None;
    }
    let ghost inner = text@.subrange(1, text@.len() - 1);
    if n == 2 {
        let empty: Vec<String> = Vec::new();
        proof {
            assert(empty.deep_view() =~= Seq::<Seq<char>>::empty());
        }
        return Some(empty);
    }
    let mut tokens: Vec<String> = Vec::new();
    let mut cur = String::new();
    let mut i: usize = 1;
    proof {
        lemma_split_on_len(inner, sep);
        assert(inner.skip(0) =~= inner);
        assert(tokens.deep_view() =~= Seq::<Seq<char>>::empty());
        assert(cur@ + split_on(inner, sep)[0] =~= split_on(inner, sep)[0]);
        assert(tokens.deep_view() + seq![cur@ + split_on(inner, sep)[0]] + split_on(
            inner,
            sep,
        ).drop_first() =~~= split_on(inner, sep));
    }
    while i < n - 1
        invariant
            1 <= i <= n - 1,
            2 < n,
            n == text@.len(),
            inner == text@.subrange(1, text@.len() - 1),
            split_on(inner.skip(i - 1), sep).len() >= 1,
            tokens.deep_view() + seq![cur@ + split_on(inner.skip(i - 1), sep)[0]] + split_on(
                inner.skip(i - 1),
                sep,
            ).drop_first() == split_on(inner, sep),
        decreases n - 1 - i,
    {
        let ghost j = i - 1;
        let ghost rem = inner.skip(j);
        let ghost rem2 = inner.skip(j + 1);
        proof {
            lemma_split_on_len(rem2, sep);
            assert(rem.len() == inner.len() - j);
            assert(rem[0] == inner[j]);
            assert(inner[j] == text@[i as int]);
            assert(rem.drop_first() =~= rem2);
        }
        let c = text.get_char(i);
        if c == sep {
            let done = cur;
            tokens.push(done);
            cur = String::new();
            proof {
                assert(split_on(rem, sep) =~~= seq![Seq::<char>::empty()] + split_on(rem2, sep));
                assert(tokens.deep_view() + seq![cur@ + split_on(rem2, sep)[0]] + split_on(
                    rem2,
                    sep,
                ).drop_first() =~~= split_on(inner, sep));
            }
        } else {
            push_char(&mut cur, c);
            proof {
                assert(split_on(rem, sep) =~~= seq![seq![rem[0]] + split_on(rem2, sep)[0]]
                    + split_on(rem2, sep).drop_first());
                assert(tokens.deep_view() + seq![cur@ + split_on(rem2, sep)[0]] + split_on(
                    rem2,
                    sep,
                ).drop_first() =~~= split_on(inner, sep));
            }
        }
        i = i + 1;
    }
    proof {
        assert(inner.skip(i - 1) =~= Seq::<char>::empty());
        assert(split_on(Seq::<char>::empty(), sep) =~= seq![Seq::<char>::empty()]);
    }
    tokens.push(cur);
    proof {
        assert(tokens.deep_view() =~~= split_on(inner, sep));
    }
    Some(tokens)
}

// ----- case-insensitive ordering and sort -----

/// ASCII letters compare lower-cased; any other character is itself.
pub open spec fn lower_char(c: char) -> char {
    if 65 <= c as u32 && c as u32 <= 90 {
        ((c as u32 + 32) as u32) as char
    } else {
        c
    }
}

/// Executable twin of [`lower_char`].
pub fn lower_char_exec(c: char) -> (r: char)
    ensures
        r == lower_char(c),
{
    let u = c as u32;
    if 65 <= u && u <= 90 {
        let b: u8 = (u + 32) as u8;
        b as char
    } else {
        c
    }
}

/// Case-insensitive lexicographic order: compares lower-cased characters
/// from the left; a prefix comes before its extensions.
pub open spec fn ci_le(a: Seq<char>, b: Seq<char>) -> bool
    decreases a.len(),
{
    if a.len() == 0 {
        true
    } else if b.len() == 0 {
        false
    } else if (lower_char(a[0]) as u32) < (lower_char(b[0]) as u32) {
        true
    } else if lower_char(a[0]) != lower_char(b[0]) {
        false
    } else {
        ci_le(a.drop_first(), b.drop_first())
    }
}

/// The order is total: of any two names, one comes no later than the other.
pub proof fn lemma_ci_le_total(a: Seq<char>, b: Seq<char>)
    ensures
        ci_le(a, b) || ci_le(b, a),
    decreases a.len(),
{
    if a.len() != 0 && b.len() != 0 {
        if lower_char(a[0]) == lower_char(b[0]) {
            lemma_ci_le_total(a.drop_first(), b.drop_first());
        }
    }
}

/// Executable twin of [`ci_le`].
pub fn ci_le_exec(a: &str, b: &str) -> (r: bool)
    ensures
        r == ci_le(a@, b@),
{
    let na = a.unicode_len();
    let nb = b.unicode_len();
    let mut i: usize = 0;
    proof {
        assert(a@.skip(0) =~= a@);
        assert(b@.skip(0) =~= b@);
    }
    loop
        invariant
            i <= na,
            i <= nb,
            na == a@.len(),
            nb == b@.len(),
            ci_le(a@, b@) == ci_le(a@.skip(i as int), b@.skip(i as int)),
        decreases na - i,
    {
        if i >= na {
            proof {
                assert(a@.skip(i as int) =~= Seq::<char>::empty());
            }
            return true;
        }
        if i >= nb {
            proof {
                assert(b@.skip(i as int) =~= Seq::<char>::empty());
                assert(a@.skip(i as int).len() > 0);
            }
            return false;
        }
        let ca = lower_char_exec(a.get_char(i));
        let cb = lower_char_exec(b.get_char(i));
        proof {
            assert(a@.skip(i as int)[0] == a@[i as int]);
            assert(b@.skip(i as int)[0] == b@[i as int]);
            assert(a@.skip(i as int).drop_first() =~= a@.skip(i + 1));
            assert(b@.skip(i as int).drop_first() =~= b@.skip(i + 1));
        }
        if (ca as u32) < (cb as u32) {
            return true;
        }
        if ca != cb {
            return false;
        }
        i = i + 1;
    }
}

/// Inserting a name into an already-ordered run: it goes after every
/// name that compares no later, so equal keys keep their original order.
pub open spec fn insert_ci(x: Seq<char>, s: Seq<Seq<char>>) -> Seq<Seq<char>>
    decreases s.len(),
{
    if s.len() == 0 {
        seq![x]
    } else if ci_le(s[0], x) {
        seq![s[0]] + insert_ci(x, s.drop_first())
    } else {
        seq![x] + s
    }
}

/// The display order of a fetched list: a stable insertion sort under
/// [`ci_le`], taking the names left to right.
pub open spec fn sort_ci(s: Seq<Seq<char>>) -> Seq<Seq<char>>
    decreases s.len(),
{
    if s.len() == 0 {
        Seq::empty()
    } else {
        insert_ci(s.last(), sort_ci(s.drop_last()))
    }
}

/// Each name comes no later than the next.
pub open spec fn sorted_ci(s: Seq<Seq<char>>) -> bool {
    forall|i: int| 0 <= i < s.len() - 1 ==> ci_le(#[trigger] s[i], s[i + 1])
}

proof fn lemma_insert_ci_sorted(x: Seq<char>, s: Seq<Seq<char>>)
    requires
        sorted_ci(s),
    ensures
        sorted_ci(insert_ci(x, s)),
    decreases s.len(),
{
    if s.len() == 0 {
    } else if ci_le(s[0], x) {
        assert(sorted_ci(s.drop_first())) by {
            assert(forall|i: int|
                0 <= i < s.drop_first().len() - 1 ==> #[trigger] s.drop_first()[i] == s[i + 1]
                    && s.drop_first()[i + 1] == s[i + 2]);
        }
        lemma_insert_ci_sorted(x, s.drop_first());
        let t = insert_ci(x, s.drop_first());
        let r = seq![s[0]] + t;
        assert(ci_le(s[0], t[0])) by {
            if s.drop_first().len() == 0 {
                assert(t[0] == x);
            } else if ci_le(s.drop_first()[0], x) {
                assert(t[0] == s.drop_first()[0]);
                assert(s.drop_first()[0] == s[1]);
            } else {
                assert(t[0] == x);
            }
        }
        assert(forall|i: int| 0 <= i < r.len() - 1 ==> ci_le(#[trigger] r[i], r[i + 1])) by {
            assert(forall|i: int| 1 <= i < r.len() ==> #[trigger] r[i] == t[i - 1]);
            assert(r[0] == s[0]);
        }
    } else {
        lemma_ci_le_total(s[0], x);
        let r = seq![x] + s;
        assert(forall|i: int| 0 <= i < r.len() - 1 ==> ci_le(#[trigger] r[i], r[i + 1])) by {
            assert(forall|i: int| 1 <= i < r.len() ==> #[trigger] r[i] == s[i - 1]);
            assert(r[0] == x);
        }
    }
}

/// Order law: the display ordering really is ordered — every name in
/// [`sort_ci`]'s result comes no later than the next.
pub proof fn lemma_sort_ci_sorted(s: Seq<Seq<char>>)
    ensures
        sorted_ci(sort_ci(s)),
    decreases s.len(),
{
    if s.len() > 0 {
        lemma_sort_ci_sorted(s.drop_last());
        lemma_insert_ci_sorted(s.last(), sort_ci(s.drop_last()));
    }
}

proof fn lemma_insert_ci_multiset(x: Seq<char>, s: Seq<Seq<char>>)
    ensures
        insert_ci(x, s).to_multiset() == s.to_multiset().insert(x),
    decreases s.len(),
{
    broadcast use vstd::seq_lib::to_multiset_insert;
    broadcast use vstd::multiset::group_multiset_axioms;

    if s.len() == 0 {
        assert(insert_ci(x, s) =~= s.insert(0, x));
    } else if ci_le(s[0], x) {
        lemma_insert_ci_multiset(x, s.drop_first());
        let t = insert_ci(x, s.drop_first());
        assert(insert_ci(x, s) =~= t.insert(0, s[0]));
        assert(s =~= s.drop_first().insert(0, s[0]));
        assert(insert_ci(x, s).to_multiset() =~= s.to_multiset().insert(x));
    } else {
        assert(insert_ci(x, s) =~= s.insert(0, x));
    }
}

/// Permutation law: sorting only reorders — the sorted list holds
/// exactly the names of the input, with their multiplicities.
pub proof fn lemma_sort_ci_permutes(s: Seq<Seq<char>>)
    ensures
        sort_ci(s).to_multiset() == s.to_multiset(),
    decreases s.len(),
{
    broadcast use vstd::seq_lib::to_multiset_build;

    if s.len() > 0 {
        lemma_sort_ci_permutes(s.drop_last());
        lemma_insert_ci_multiset(s.last(), sort_ci(s.drop_last()));
        assert(s =~= s.drop_last().push(s.last()));
        assert(s.drop_last().push(s.last()).to_multiset() =~= s.drop_last().to_multiset().insert(
            s.last(),
        ));
    } else {
        assert(sort_ci(s) =~= s);
    }
}

/// If every name in the first `j` entries compares no later than `x`,
/// insertion passes them unchanged.
proof fn lemma_insert_ci_skip(x: Seq<char>, s: Seq<Seq<char>>, j: int)
    requires
        0 <= j <= s.len(),
        forall|k: int| 0 <= k < j ==> ci_le(#[trigger] s[k], x),
    ensures
        insert_ci(x, s) == s.take(j) + insert_ci(x, s.skip(j)),
    decreases j,
{
    if j == 0 {
        assert(s.take(0) =~= Seq::<Seq<char>>::empty());
        assert(s.skip(0) =~= s);
        assert(insert_ci(x, s) =~= s.take(0) + insert_ci(x, s.skip(0)));
    } else {
        assert(s.len() > 0);
        assert(ci_le(s[0], x));
        lemma_insert_ci_skip(x, s.drop_first(), j - 1);
        assert(s.drop_first().take(j - 1) =~= s.take(j).drop_first());
        assert(s.drop_first().skip(j - 1) =~= s.skip(j));
        assert(insert_ci(x, s) =~= seq![s[0]] + insert_ci(x, s.drop_first()));
        assert(seq![s[0]] + (s.drop_first().take(j - 1) + insert_ci(x, s.skip(j))) =~= s.take(j)
            + insert_ci(x, s.skip(j)));
    }
}

/// Inserts `x` into the ordered vector `v` after every entry that
/// compares no later.
fn insert_sorted_ci(v: &mut Vec<String>, x: String)
    ensures
        final(v).deep_view() == insert_ci(x@, old(v).deep_view()),
{
    let n = v.len();
    let mut j: usize = 0;
    while j < n
        invariant
            j <= n,
            n == v@.len(),
            *v == *old(v),
            forall|k: int| 0 <= k < j ==> ci_le(#[trigger] v.deep_view()[k], x@),
        decreases n - j,
    {
        if !ci_le_exec(v[j].as_str(), x.as_str()) {
            proof {
                lemma_insert_ci_skip(x@, v.deep_view(), j as int);
                assert(v.deep_view().skip(j as int)[0] == v.deep_view()[j as int]);
                assert(insert_ci(x@, v.deep_view().skip(j as int)) =~= seq![x@] + v.deep_view().skip(
                    j as int,
                ));
            }
            v.insert(j, x);
            proof {
                assert(final(v).deep_view() =~~= old(v).deep_view().take(j as int) + (seq![x@]
                    + old(v).deep_view().skip(j as int)));
            }
            return ;
        }
        proof {
            assert(v.deep_view()[j as int] == v@[j as int]@);
        }
        j = j + 1;
    }
    proof {
        lemma_insert_ci_skip(x@, v.deep_view(), n as int);
        assert(v.deep_view().skip(n as int) =~= Seq::<Seq<char>>::empty());
    }
    v.push(x);
    proof {
        assert(final(v).deep_view() =~~= old(v).deep_view().take(n as int) + seq![x@]);
    }
}

/// Sorts the names for display: the result is exactly [`sort_ci`] of the
/// input, the stable case-insensitive ordering.
pub fn sort_strings_ci(items: Vec<String>) -> (r: Vec<String>)
    ensures
        r.deep_view() == sort_ci(items.deep_view()),
{
    let n = items.len();
    let mut out: Vec<String> = Vec::new();
    let mut i: usize = 0;
    proof {
        assert(out.deep_view() =~= Seq::<Seq<char>>::empty());
        assert(items.deep_view().take(0) =~= Seq::<Seq<char>>::empty());
    }
    while i < n
        invariant
            i <= n,
            n == items@.len(),
            out.deep_view() == sort_ci(items.deep_view().take(i as int)),
        decreases n - i,
    {
        let x = items[i].clone();
        proof {
            assert(x@ == items.deep_view()[i as int]);
            assert(items.deep_view().take(i + 1).drop_last() =~= items.deep_view().take(i as int));
            assert(items.deep_view().take(i + 1).last() == items.deep_view()[i as int]);
        }
        insert_sorted_ci(&mut out, x);
        i = i + 1;
    }
    proof {
        assert(items.deep_view().take(n as int) =~= items.deep_view());
    }
    out
}

} // verus!
