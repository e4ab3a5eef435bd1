//! Decisions around scene files: which directory entries are scene files, in what order
//! they are listed, and how a load error is reported.
use vstd::prelude::*;
use vstd::relations::sorted_by;
use crate::text::chars_of;

verus! {

/// `needle` occurs in `hay` at position `i`.
pub open spec fn occurs_at(hay: Seq<char>, needle: Seq<char>, i: int) -> bool {
    0 <= i && i + needle.len() <= hay.len() && hay.subrange(i, i + needle.len()) == needle
}

/// `needle` occurs somewhere in `hay`.
pub open spec fn contains_text(hay: Seq<char>, needle: Seq<char>) -> bool {
    exists|i: int| #[trigger] occurs_at(hay, needle, i)
}

fn matches_at(hay: &Vec<char>, needle: &Vec<char>, i: usize) -> (r: bool)
    requires
        i + needle@.len() <= hay@.len(),
    ensures
        r == occurs_at(hay@, needle@, i as int),
{
    let m = needle.len();
    let hl = hay.len();
    let mut k: usize = 0;
    while k < m
        invariant
            m == needle@.len(),
            hl == hay@.len(),
            i + m <= hay@.len(),
            k <= m,
            forall|j: int| 0 <= j < k ==> hay@[i + j] == needle@[j],
        decreases m - k,
    {
        if hay[i + k] != needle[k] {
            assert(hay@.subrange(i as int, i + m)[k as int] != needle@[k as int]);
            return false;
        }
        k += 1;
    }
    assert(hay@.subrange(i as int, i + m) =~= needle@);
    true
}

/// Whether `needle` occurs in `hay`.
pub fn contains_str(hay: &str, needle: &str) -> (r: bool)
    ensures
        r == contains_text(hay@, needle@),
{
    let h = chars_of(hay);
    let n = chars_of(needle);
    if n.len() > h.len() {
        assert forall|i: int| !#[trigger] occurs_at(hay@, needle@, i) by {}
        return false;
    }
    let last = h.len() - n.len();
    let mut i: usize = 0;
    loop
        invariant
            h@ == hay@,
            n@ == needle@,
            last == h@.len() - n@.len(),
            i <= last,
            forall|j: int| 0 <= j < i ==> !#[trigger] occurs_at(hay@, needle@, j),
        ensures
            forall|j: int| 0 <= j <= last ==> !#[trigger] occurs_at(hay@, needle@, j),
        decreases last - i,
    {
        if matches_at(&h, &n, i) {
            return true;
        }
        if i == last {
            break;
        }
        i += 1;
    }
    assert forall|j: int| !#[trigger] occurs_at(hay@, needle@, j) by {
        if 0 <= j && j + needle@.len() <= hay@.len() {
            assert(j <= last);
        }
    }
    false
}

/// The error text names one of the animation fields that scene files no longer have.
pub open spec fn mentions_legacy_fields(msg: Seq<char>) -> bool {
    ||| contains_text(msg, "anim_tx"@)
    ||| contains_text(msg, "anim_ty"@)
    ||| contains_text(msg, "anim_tz"@)
    ||| contains_text(msg, "anim_rx"@)
    ||| contains_text(msg, "anim_ry"@)
    ||| contains_text(msg, "anim_rz"@)
    ||| contains_text(msg, "anim_scale"@)
}

/// Explanation given in front of a load error caused by legacy animation fields.
pub open spec fn legacy_note() -> Seq<char> {
    "Scene file uses legacy animation fields (anim_tx, anim_ty, etc.) which have been removed. Animation is now done via node graphs in the editor.\nTo migrate: remove all anim_* fields from the YAML file, then use the node editor to recreate animations.\nOriginal error: "@
}

/// The message shown for a failed scene load whose parser reported `msg`: an error that
/// names a legacy animation field gets a migration note in front; any other is shown
/// as it is.
pub fn load_error_message(msg: &str) -> (r: String)
    ensures
        r@ == if mentions_legacy_fields(msg@) { legacy_note() + msg@ } else { msg@ },
{
    if contains_str(msg, "anim_tx") || contains_str(msg, "anim_ty") || contains_str(msg, "anim_tz")
        || contains_str(msg, "anim_rx") || contains_str(msg, "anim_ry") || contains_str(msg, "anim_rz")
        || contains_str(msg, "anim_scale") {
        let mut out = String::from_str(
            "Scene file uses legacy animation fields (anim_tx, anim_ty, etc.) which have been removed. Animation is now done via node graphs in the editor.\nTo migrate: remove all anim_* fields from the YAML file, then use the node editor to recreate animations.\nOriginal error: ",
        );
        out.append(msg);
        out
    } else {
        String::from_str(msg)
    }
}

/// Position of the last `.` in `s`, or -1 when there is none.
pub open spec fn last_dot(s: Seq<char>) -> int
    decreases s.len(),
{
    if s.len() == 0 {
        -1
    } else if s.last() == '.' {
        s.len() - 1
    } else {
        last_dot(s.drop_last())
    }
}

/// The extension of a file name as the standard library's `Path::extension` takes it:
/// the text after the last `.`, provided some text comes before that `.`.
pub open spec fn extension(name: Seq<char>) -> Option<Seq<char>> {
    let k = last_dot(name);
    if k > 0 && name != ".."@ {
        Some(name.subrange(k + 1, name.len() as int))
    } else {
        None
    }
}

/// A scene file is one with extension `yaml` or `yml`.
pub open spec fn is_scene_file_spec(name: Seq<char>) -> bool {
    extension(name) == Some("yaml"@) || extension(name) == Some("yml"@)
}

/// Whether a directory entry's name marks a scene file.
pub fn is_scene_file_name(name: &str) -> (r: bool)
    ensures
        r == is_scene_file_spec(name@),
{
    let cs = chars_of(name);
    let n = cs.len();
    let mut i: usize = n;
    assert(name@.take(n as int) =~= name@);
    while i > 0 && cs[i - 1] != '.'
        invariant
            cs@ == name@,
            i <= n,
            n == cs@.len(),
            last_dot(name@) == last_dot(name@.take(i as int)),
        decreases i,
    {
        assert(name@.take(i as int).drop_last() =~= name@.take(i - 1));
        i -= 1;
    }
    proof {
        if i > 0 {
            assert(name@.take(i as int).last() == '.');
        } else {
            assert(name@.take(0) =~= Seq::<char>::empty());
        }
    }
    if i <= 1 {
        return false;
    }
    let k = i - 1;
    proof {
        reveal_strlit("..");
        reveal_strlit("yaml");
        reveal_strlit("yml");
    }
    let mut ext = String::new();
    let mut j = k + 1;
    while j < n
        invariant
            cs@ == name@,
            n == cs@.len(),
            k < j <= n,
            ext@ == name@.subrange(k + 1, j as int),
        decreases n - j,
    {
        crate::text::push_char(&mut ext, cs[j]);
        assert(name@.subrange(k + 1, j + 1) =~= name@.subrange(k + 1, j as int).push(name@[j as int]));
        j += 1;
    }
    let is_yaml = crate::text::str_eq(ext.as_str(), "yaml") || crate::text::str_eq(ext.as_str(), "yml");
    proof {
        if name@ == ".."@ {
            assert(name@.len() == 2);
            assert(name@.take(i as int) =~= name@);
        }
    }
    is_yaml
}

/// Lexicographic order of texts by character: a prefix comes first.
pub open spec fn lex_le(a: Seq<char>, b: Seq<char>) -> bool
    decreases a.len(),
{
    if a.len() == 0 {
        true
    } else if b.len() == 0 {
        false
    } else if a[0] < b[0] {
        true
    } else if a[0] > b[0] {
        false
    } else {
        lex_le(a.drop_first(), b.drop_first())
    }
}

/// Any two texts are ordered one way or the other.
pub proof fn lemma_lex_total(a: Seq<char>, b: Seq<char>)
    ensures
        lex_le(a, b) || lex_le(b, a),
    decreases a.len(),
{
    if a.len() > 0 && b.len() > 0 && a[0] == b[0] {
        lemma_lex_total(a.drop_first(), b.drop_first());
    }
}

/// The order is transitive.
pub proof fn lemma_lex_trans(a: Seq<char>, b: Seq<char>, c: Seq<char>)
    requires
        lex_le(a, b),
        lex_le(b, c),
    ensures
        lex_le(a, c),
    decreases a.len(),
{
    if a.len() > 0 && b.len() > 0 && c.len() > 0 && a[0] == b[0] && b[0] == c[0] {
        lemma_lex_trans(a.drop_first(), b.drop_first(), c.drop_first());
    }
}

/// Texts ordered both ways are equal.
pub proof fn lemma_lex_antisym(a: Seq<char>, b: Seq<char>)
    requires
        lex_le(a, b),
        lex_le(b, a),
    ensures
        a == b,
    decreases a.len(),
{
    if a.len() > 0 && b.len() > 0 {
        lemma_lex_antisym(a.drop_first(), b.drop_first());
        assert(a =~= seq![a[0]] + a.drop_first());
        assert(b =~= seq![b[0]] + b.drop_first());
    }
}

/// The lexicographic order as a relation.
pub open spec fn lex_order() -> spec_fn(Seq<char>, Seq<char>) -> bool {
    |a: Seq<char>, b: Seq<char>| lex_le(a, b)
}

/// Whether `a` comes no later than `b`.
fn lex_le_exec(a: &String, b: &String) -> (r: bool)
    ensures
        r == lex_le(a@, b@),
{
    let x = chars_of(a.as_str());
    let y = chars_of(b.as_str());
    let mut i: usize = 0;
    assert(a@.skip(0) =~= a@ && b@.skip(0) =~= b@);
    while i < x.len() && i < y.len()
        invariant
            x@ == a@,
            y@ == b@,
            i <= x@.len(),
            i <= y@.len(),
            lex_le(a@, b@) == lex_le(a@.skip(i as int), b@.skip(i as int)),
        decreases x@.len() - i,
    {
        let cx = x[i];
        assert(a@.skip(i as int).len() > 0 && b@.skip(i as int).len() > 0);
        let cy = y[i];
        assert(a@.skip(i as int)[0] == cx && b@.skip(i as int)[0] == cy);
        if cx < cy {
            return true;
        }
        if cx > cy {
            return false;
        }
        assert(a@.skip(i as int).drop_first() =~= a@.skip(i + 1));
        assert(b@.skip(i as int).drop_first() =~= b@.skip(i + 1));
        i += 1;
    }
    i == x.len()
}

/// Texts of a list of strings.
pub open spec fn texts(s: Seq<String>) -> Seq<Seq<char>> {
    s.map_values(|x: String| x@)
}

/// Sort names into lexicographic order.
pub fn sort_names(v: Vec<String>) -> (r: Vec<String>)
    ensures
        sorted_by(texts(r@), lex_order()),
        texts(r@).to_multiset() == texts(v@).to_multiset(),
{
    let mut out: Vec<String> = Vec::new();
    let n = v.len();
    let mut i: usize = 0;
    assert(texts(out@) =~= Seq::<Seq<char>>::empty());
    assert(texts(v@.take(0)) =~= Seq::<Seq<char>>::empty());
    while i < n
        invariant
            n == v@.len(),
            i <= n,
            sorted_by(texts(out@), lex_order()),
            texts(out@).to_multiset() == texts(v@.take(i as int)).to_multiset(),
        decreases n - i,
    {
        let x = v[i].clone();
        let mut p: usize = 0;
        while p < out.len() && lex_le_exec(&out[p], &x)
            invariant
                p <= out@.len(),
                forall|j: int| 0 <= j < p ==> lex_le(#[trigger] texts(out@)[j], x@),
            decreases out@.len() - p,
        {
            p += 1;
        }
        let ghost before = texts(out@);
        proof {
            if p < out@.len() {
                lemma_lex_total(x@, before[p as int]);
            }
        }
        out.insert(p, x);
        proof {
            let after = texts(out@);
            assert(after =~= before.insert(p as int, x@));
            assert forall|a: int, b: int| 0 <= a < b < after.len() implies #[trigger] lex_order()(after[a], after[b]) by {
                if b < p {
                    assert(after[a] == before[a] && after[b] == before[b]);
                    assert(lex_order()(before[a], before[b]));
                } else if b == p {
                    assert(after[a] == before[a] && after[b] == x@);
                    assert(lex_le(before[a], x@));
                } else {
                    assert(after[b] == before[b - 1]);
                    lemma_lex_total(x@, before[p as int]);
                    assert(lex_le(x@, before[p as int]));
                    if b - 1 > p {
                        assert(lex_order()(before[p as int], before[b - 1]));
                        lemma_lex_trans(x@, before[p as int], before[b - 1]);
                    }
                    assert(lex_le(x@, before[b - 1]));
                    if a < p {
                        assert(after[a] == before[a]);
                        assert(lex_le(before[a], x@));
                        lemma_lex_trans(before[a], x@, before[b - 1]);
                    } else if a == p {
                        assert(after[a] == x@);
                    } else {
                        assert(after[a] == before[a - 1]);
                        assert(lex_order()(before[a - 1], before[b - 1]));
                    }
                }
            }
            vstd::seq_lib::to_multiset_insert(before, p as int, x@);
            assert(texts(v@.take(i + 1)) =~= texts(v@.take(i as int)).push(v@[i as int]@));
            vstd::seq_lib::to_multiset_build(texts(v@.take(i as int)), v@[i as int]@);
        }
        i += 1;
    }
    assert(v@.take(n as int) =~= v@);
    out
}

/// The scene files among `names`, in the order given.
pub open spec fn scene_files(names: Seq<Seq<char>>) -> Seq<Seq<char>>
    decreases names.len(),
{
    if names.len() == 0 {
        Seq::empty()
    } else if is_scene_file_spec(names.last()) {
        scene_files(names.drop_last()).push(names.last())
    } else {
        scene_files(names.drop_last())
    }
}

/// The names of a directory's scene files in lexicographic order: each name with
/// extension `yaml` or `yml`, once per occurrence.
pub fn list_scene_names(names: Vec<String>) -> (r: Vec<String>)
    ensures
        sorted_by(texts(r@), lex_order()),
        texts(r@).to_multiset() == scene_files(texts(names@)).to_multiset(),
{
    let mut keep: Vec<String> = Vec::new();
    let n = names.len();
    let mut i: usize = 0;
    while i < n
        invariant
            n == names@.len(),
            i <= n,
            texts(keep@) == scene_files(texts(names@.take(i as int))),
        decreases n - i,
    {
        let ghost pre = texts(names@.take(i as int));
        assert(texts(names@.take(i + 1)) =~= pre.push(names@[i as int]@));
        assert(texts(names@.take(i + 1)).drop_last() =~= pre);
        if is_scene_file_name(names[i].as_str()) {
            keep.push(names[i].clone());
            assert(texts(keep@) =~= scene_files(texts(names@.take(i + 1))));
        }
        i += 1;
    }
    assert(names@.take(n as int) =~= names@);
    sort_names(keep)
}

} // verus!
