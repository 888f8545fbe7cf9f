use vstd::prelude::*;
use crate::text::{occurs_at, views};

verus! {

/// ASCII white space, as `split_ascii_whitespace` knows it.
pub open spec fn is_ascii_ws(c: char) -> bool {
    c == ' ' || c == '\t' || c == '\n' || c == '\x0C' || c == '\r'
}

/// `w` stands at position `i` of `s` as a whole word between white space.
pub open spec fn word_at(s: Seq<char>, w: Seq<char>, i: int) -> bool {
    &&& 0 <= i
    &&& i + w.len() <= s.len()
    &&& s.subrange(i, i + w.len()) == w
    &&& (i == 0 || is_ascii_ws(s[i - 1]))
    &&& (i + w.len() == s.len() || is_ascii_ws(s[i + w.len()]))
}

pub open spec fn has_word(s: Seq<char>, w: Seq<char>) -> bool {
    exists|i: int| word_at(s, w, i)
}

/// Image features that leave a device open to anyone at its console or network.
pub open spec fn insecure_features() -> Seq<Seq<char>> {
    seq!["allow-empty-password"@, "debug-tweaks"@, "empty-root-password"@, "post-install-logging"@]
}

/// The words of `ws` that occur in `s`, in the order of `ws`.
pub open spec fn words_found(s: Seq<char>, ws: Seq<Seq<char>>) -> Seq<Seq<char>>
    decreases ws.len(),
{
    if ws.len() == 0 {
        Seq::empty()
    } else {
        words_found(s, ws.drop_last()) + if has_word(s, ws.last()) { seq![ws.last()] } else { Seq::empty() }
    }
}

fn is_ws(c: char) -> (r: bool)
    ensures
        r == is_ascii_ws(c),
{
    c == ' ' || c == '\t' || c == '\n' || c == '\x0C' || c == '\r'
}

/// Whether `w` occurs in `s` as a whole word between white space.
pub fn contains_word(s: &str, w: &str) -> (r: bool)
    requires
        w@.len() > 0,
    ensures
        r == has_word(s@, w@),
{
    let n = s.unicode_len();
    let p = w.unicode_len();
    let mut i: usize = 0;
    while i < n
        invariant
            n == s@.len(),
            p == w@.len(),
            p > 0,
            i <= n,
            forall|j: int| 0 <= j < i ==> !word_at(s@, w@, j),
        decreases n - i,
    {
        if occurs_at(s, n, w, p, i) {
            assert(s@.skip(i as int).take(p as int) =~= s@.subrange(i as int, i + p));
            let before = i == 0 || is_ws(s.get_char(i - 1));
            let after = i + p == n || is_ws(s.get_char(i + p));
            if before && after {
                assert(word_at(s@, w@, i as int));
                return true;
            }
        } else {
            assert(i + p <= n ==> s@.skip(i as int).take(p as int) =~= s@.subrange(i as int, i + p));
        }
        i = i + 1;
    }
    assert forall|j: int| !word_at(s@, w@, j) by {
        if 0 <= j && j < i {
        } else if j >= i {
            assert(j + p > s@.len());
        }
    }
    false
}

fn push_found(found: &mut Vec<String>, s: &str, w: &str)
    requires
        w@.len() > 0,
    ensures
        views(final(found)@) == views(old(found)@) + if has_word(s@, w@) { seq![w@] } else { Seq::empty() },
{
    let ghost before = found@;
    if contains_word(s, w) {
        found.push(w.to_string());
        assert(views(found@) =~= views(before) + seq![w@]);
    } else {
        assert(views(found@) =~= views(before) + Seq::<Seq<char>>::empty());
    }
}

/// The insecure image features named in the space-separated list `image_features`.
pub fn insecure_image_features(image_features: &str) -> (r: Vec<String>)
    ensures
        views(r@) == words_found(image_features@, insecure_features()),
{
    proof {
        reveal_strlit("allow-empty-password");
        reveal_strlit("debug-tweaks");
        reveal_strlit("empty-root-password");
        reveal_strlit("post-install-logging");
    }
    let ghost s = image_features@;
    let ghost ws = insecure_features();
    let mut found: Vec<String> = Vec::new();
    assert(views(found@) =~= words_found(s, ws.take(0)));
    push_found(&mut found, image_features, "allow-empty-password");
    assert(ws.take(1).drop_last() =~= ws.take(0));
    assert(views(found@) =~= words_found(s, ws.take(1)));
    push_found(&mut found, image_features, "debug-tweaks");
    assert(ws.take(2).drop_last() =~= ws.take(1));
    assert(views(found@) =~= words_found(s, ws.take(2)));
    push_found(&mut found, image_features, "empty-root-password");
    assert(ws.take(3).drop_last() =~= ws.take(2));
    assert(views(found@) =~= words_found(s, ws.take(3)));
    push_found(&mut found, image_features, "post-install-logging");
    assert(ws.take(4).drop_last() =~= ws.take(3));
    assert(ws.take(4) =~= ws);
    found
}

} // verus!
