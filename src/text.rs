//! Character-level helpers on strings: equality, splitting on `/` and
//! joining path components.

use vstd::prelude::*;
use vstd::string::*;

verus! {

/// The fields of `s` between `/` separators, as `str::split('/')` yields
/// them: always at least one field, possibly empty ones.
pub open spec fn split_slash(s: Seq<char>) -> Seq<Seq<char>>
    decreases s.len(),
{
    if s.len() == 0 {
        seq![Seq::<char>::empty()]
    } else {
        let prev = split_slash(s.drop_last());
        if s.last() == '/' {
            prev.push(Seq::<char>::empty())
        } else {
            prev.update(prev.len() - 1, prev.last().push(s.last()))
        }
    }
}

/// `split_slash` never yields an empty list of fields.
pub proof fn lemma_split_slash_nonempty(s: Seq<char>)
    ensures
        split_slash(s).len() >= 1,
    decreases s.len(),
{
    if s.len() > 0 {
        lemma_split_slash_nonempty(s.drop_last());
    }
}

/// Appending `a`, a `/` and a slash-free `b` adds the field `b`.
pub proof fn lemma_split_slash_append(a: Seq<char>, b: Seq<char>)
    requires
        !b.contains('/'),
    ensures
        split_slash(a + seq!['/'] + b) == split_slash(a).push(b),
    decreases b.len(),
{
    let s = a + seq!['/'] + b;
    if b.len() == 0 {
        assert(s.drop_last() =~= a);
        assert(s.last() == '/');
        assert(b =~= Seq::<char>::empty());
    } else {
        let b0 = b.drop_last();
        assert(!b0.contains('/')) by {
            if b0.contains('/') {
                let k = choose|k: int| 0 <= k < b0.len() && b0[k] == '/';
                assert(b[k] == '/');
            }
        }
        lemma_split_slash_append(a, b0);
        assert(s.drop_last() =~= a + seq!['/'] + b0);
        assert(b.last() != '/') by {
            assert(b[b.len() - 1] == b.last());
        }
        assert(s.last() == b.last());
        assert(b0.push(b.last()) =~= b);
        let prev = split_slash(a).push(b0);
        assert(prev.update(prev.len() - 1, prev.last().push(s.last())) =~= split_slash(a).push(b));
    }
}

/// A text without `/` is a single field.
pub proof fn lemma_split_slash_single(b: Seq<char>)
    requires
        !b.contains('/'),
    ensures
        split_slash(b) == seq![b],
    decreases b.len(),
{
    if b.len() == 0 {
        assert(b =~= Seq::<char>::empty());
    } else {
        let b0 = b.drop_last();
        assert(!b0.contains('/')) by {
            if b0.contains('/') {
                let k = choose|k: int| 0 <= k < b0.len() && b0[k] == '/';
                assert(b[k] == '/');
            }
        }
        lemma_split_slash_single(b0);
        assert(b.last() != '/') by {
            assert(b[b.len() - 1] == b.last());
        }
        assert(b0.push(b.last()) =~= b);
        assert(seq![b0].last() == b0);
        assert(seq![b0].update(0, b0.push(b.last())) =~= seq![b]);
    }
}

/// The non-empty members of `fields`, in order.
pub open spec fn non_empty_fields(fields: Seq<Seq<char>>) -> Seq<Seq<char>>
    decreases fields.len(),
{
    if fields.len() == 0 {
        Seq::empty()
    } else {
        let prev = non_empty_fields(fields.drop_last());
        if fields.last().len() > 0 {
            prev.push(fields.last())
        } else {
            prev
        }
    }
}

/// `base` extended by the relative component `part`, as `Path::join` does it
/// on Unix: a separator is put in unless `base` is empty or already ends in one.
pub open spec fn join_path(base: Seq<char>, part: Seq<char>) -> Seq<char> {
    if base.len() == 0 || base.last() == '/' {
        base + part
    } else {
        base + seq!['/'] + part
    }
}

/// Whether two strings hold the same characters.
pub fn same_text(a: &str, b: &str) -> (r: bool)
    ensures
        r == (a@ == b@),
{
    let n = a.unicode_len();
    if n != b.unicode_len() {
        return false;
    }
    let mut i: usize = 0;
    while i < n
        invariant
            n == a@.len(),
            n == b@.len(),
            0 <= i <= n,
            forall|k: int| 0 <= k < i ==> a@[k] == b@[k],
        decreases n - i,
    {
        if a.get_char(i) != b.get_char(i) {
            return false;
        }
        i = i + 1;
    }
    assert(a@ =~= b@);
    true
}

/// Splits `s` on every `/`.
pub fn split_on_slash(s: &str) -> (r: Vec<String>)
    ensures
        r.deep_view() == split_slash(s@),
{
    let n = s.unicode_len();
    let mut fields: Vec<String> = Vec::new();
    let mut current = String::new();
    let mut i: usize = 0;
    while i < n
        invariant
            n == s@.len(),
            0 <= i <= n,
            fields.deep_view().push(current@) == split_slash(s@.subrange(0, i as int)),
        decreases n - i,
    {
        let c = s.get_char(i);
        proof {
            assert(s@.subrange(0, i + 1).drop_last() =~= s@.subrange(0, i as int));
            assert(s@.subrange(0, i + 1).last() == c);
            lemma_split_slash_nonempty(s@.subrange(0, i as int));
        }
        if c == '/' {
            let ghost before = fields.deep_view();
            fields.push(current);
            current = String::new();
            proof {
                assert(fields.deep_view() =~= before.push(fields[fields.len() - 1]@));
            }
        } else {
            let ghost before = fields.deep_view();
            let ghost was = current@;
            let one = s.substring_char(i, i + 1);
            current.append(one);
            proof {
                assert(one@ =~= seq![c]);
                let whole = split_slash(s@.subrange(0, i as int));
                assert(whole.last() == was);
                assert(current@ =~= was.push(c));
                assert(before.push(current@) =~= whole.update(whole.len() - 1, whole.last().push(c)));
            }
        }
        i = i + 1;
    }
    assert(s@.subrange(0, n as int) =~= s@);
    let ghost before = fields.deep_view();
    fields.push(current);
    proof {
        assert(fields.deep_view() =~= before.push(fields[fields.len() - 1]@));
    }
    fields
}

/// `base` joined with the relative component `part`.
pub fn join(base: &str, part: &str) -> (r: String)
    ensures
        r@ == join_path(base@, part@),
{
    let n = base.unicode_len();
    let mut out = String::from_str(base);
    if n != 0 && base.get_char(n - 1) != '/' {
        out.append("/");
    }
    out.append(part);
    proof {
        reveal_strlit("/");
        if n != 0 {
            assert(base@.last() == base@[n - 1]);
        }
    }
    out
}

} // verus!
