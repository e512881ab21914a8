//! Text as the other modules need it: its order, its prefixes, and joining two pieces.

use vstd::prelude::*;

verus! {

/// Whether `a` comes strictly before `b` in the lexicographic order of byte strings: after
/// their first `k` bytes, which agree, either `a` ends and `b` does not, or `a` has the
/// smaller byte.
pub open spec fn bytes_before(a: Seq<u8>, b: Seq<u8>) -> bool {
    exists|k: int| #[trigger] splits_at(a, b, k)
}

/// `k` is the place where `a` turns out to come before `b`.
pub open spec fn splits_at(a: Seq<u8>, b: Seq<u8>, k: int) -> bool {
    &&& 0 <= k <= a.len()
    &&& k < b.len()
    &&& a.take(k) == b.take(k)
    &&& k < a.len() ==> a[k] < b[k]
}

/// The order of text: that of the UTF-8 bytes.
pub open spec fn text_before(a: Seq<char>, b: Seq<char>) -> bool {
    bytes_before(vstd::utf8::encode_utf8(a), vstd::utf8::encode_utf8(b))
}

proof fn lemma_bytes_irreflexive(a: Seq<u8>)
    ensures
        !bytes_before(a, a),
{
}

proof fn lemma_bytes_transitive(a: Seq<u8>, b: Seq<u8>, c: Seq<u8>)
    requires
        bytes_before(a, b),
        bytes_before(b, c),
    ensures
        bytes_before(a, c),
{
    let j = choose|j: int| splits_at(a, b, j);
    let k = choose|k: int| splits_at(b, c, k);
    let m = if j < k { j } else { k };
    assert(a.take(m) =~= c.take(m)) by {
        assert(a.take(m) =~= a.take(j).take(m));
        assert(b.take(m) =~= b.take(j).take(m));
        assert(b.take(m) =~= b.take(k).take(m));
        assert(c.take(m) =~= c.take(k).take(m));
    }
    if j < k {
        assert(b.take(k)[j] == c.take(k)[j]);
    } else if k < j {
        assert(a.take(j)[k] == b.take(j)[k]);
    }
    assert(splits_at(a, c, m));
}

proof fn lemma_bytes_total(a: Seq<u8>, b: Seq<u8>, from: int)
    requires
        0 <= from <= a.len(),
        from <= b.len(),
        a.take(from) == b.take(from),
    ensures
        a == b || bytes_before(a, b) || bytes_before(b, a),
    decreases a.len() - from,
{
    if from == a.len() || from == b.len() {
        if a.len() == b.len() {
            assert(a =~= a.take(from));
            assert(b =~= b.take(from));
        } else if a.len() < b.len() {
            assert(splits_at(a, b, from));
        } else {
            assert(splits_at(b, a, from));
        }
    } else if a[from] < b[from] {
        assert(splits_at(a, b, from));
    } else if b[from] < a[from] {
        assert(splits_at(b, a, from));
    } else {
        assert(a.take(from + 1) =~= a.take(from).push(a[from]));
        assert(b.take(from + 1) =~= b.take(from).push(b[from]));
        lemma_bytes_total(a, b, from + 1);
    }
}

/// The order of text is a strict total order: nothing comes before itself, it passes along a
/// chain, and of two different texts one comes before the other, never both.
pub proof fn law_text_order(a: Seq<char>, b: Seq<char>, c: Seq<char>)
    ensures
        !text_before(a, a),
        text_before(a, b) && text_before(b, c) ==> text_before(a, c),
        a == b || text_before(a, b) || text_before(b, a),
        !(text_before(a, b) && text_before(b, a)),
{
    let (x, y, z) = (vstd::utf8::encode_utf8(a), vstd::utf8::encode_utf8(b), vstd::utf8::encode_utf8(c));
    lemma_bytes_irreflexive(x);
    if text_before(a, b) && text_before(b, c) {
        lemma_bytes_transitive(x, y, z);
    }
    if text_before(a, b) && text_before(b, a) {
        lemma_bytes_transitive(x, y, x);
    }
    assert(x.take(0) =~= y.take(0));
    lemma_bytes_total(x, y, 0);
    vstd::utf8::encode_utf8_decode_utf8(a);
    vstd::utf8::encode_utf8_decode_utf8(b);
}

/// Whether `a` comes before `b`.
pub fn comes_before(a: &str, b: &str) -> (before: bool)
    ensures
        before == text_before(a@, b@),
{
    let x = a.as_bytes();
    let y = b.as_bytes();
    let mut i: usize = 0;
    assert(x@.take(0) =~= y@.take(0));
    while i < x.len() && i < y.len() && x[i] == y[i]
        invariant
            i <= x@.len(),
            i <= y@.len(),
            x@.take(i as int) == y@.take(i as int),
        decreases x@.len() - i,
    {
        assert(x@.take(i + 1) =~= x@.take(i as int).push(x@[i as int]));
        assert(y@.take(i + 1) =~= y@.take(i as int).push(y@[i as int]));
        i = i + 1;
    }
    let before = i < y.len() && (i == x.len() || x[i] < y[i]);
    proof {
        if before {
            assert(splits_at(x@, y@, i as int));
        } else if bytes_before(x@, y@) {
            let k = choose|k: int| splits_at(x@, y@, k);
            if k < i {
                assert(x@.take(i as int)[k] == y@.take(i as int)[k]);
            } else if k > i {
                assert(x@.take(k)[i as int] == y@.take(k)[i as int]);
            }
        }
    }
    before
}

/// What follows `prefix` in `text`, where `text` begins with it.
pub open spec fn after_prefix(text: Seq<char>, prefix: Seq<char>) -> Option<Seq<char>> {
    if prefix.is_prefix_of(text) {
        Some(text.skip(prefix.len() as int))
    } else {
        None
    }
}

/// What follows `prefix` in `text`, or `None` where `text` does not begin with it.
pub fn strip_prefix(text: &str, prefix: &str) -> (rest: Option<String>)
    ensures
        rest.deep_view() == after_prefix(text@, prefix@),
{
    let total = text.unicode_len();
    let width = prefix.unicode_len();
    if total < width {
        return None;
    }
    let mut i: usize = 0;
    while i < width
        invariant
            i <= width <= total,
            width == prefix@.len(),
            total == text@.len(),
            forall|j: int| 0 <= j < i ==> prefix@[j] == text@[j],
        decreases width - i,
    {
        if text.get_char(i) != prefix.get_char(i) {
            return None;
        }
        i = i + 1;
    }
    assert(prefix@ =~= text@.take(width as int));
    let rest = text.substring_char(width, total).to_owned();
    assert(rest@ =~= text@.skip(width as int));
    Some(rest)
}

/// `head` followed by `tail`.
pub fn join(head: &str, tail: &str) -> (whole: String)
    ensures
        whole@ == head@ + tail@,
{
    let mut whole = head.to_owned();
    whole.append(tail);
    whole
}

/// Whether two lists hold the same texts in the same order.
pub fn same_texts(a: &Vec<String>, b: &Vec<String>) -> (same: bool)
    ensures
        same == (a.deep_view() == b.deep_view()),
{
    if a.len() != b.len() {
        assert(a.deep_view().len() != b.deep_view().len());
        return false;
    }
    let mut i: usize = 0;
    while i < a.len()
        invariant
            i <= a@.len(),
            a@.len() == b@.len(),
            forall|j: int| 0 <= j < i ==> a@[j]@ == b@[j]@,
        decreases a@.len() - i,
    {
        if a[i] != b[i] {
            assert(a.deep_view()[i as int] != b.deep_view()[i as int]);
            return false;
        }
        i = i + 1;
    }
    assert(a.deep_view() =~= b.deep_view());
    true
}

/// A copy of an optional text.
pub fn copy_text(text: &Option<String>) -> (copy: Option<String>)
    ensures
        copy.deep_view() == text.deep_view(),
{
    match text {
        Some(value) => Some(value.clone()),
        None => None,
    }
}

/// A copy of a list of texts.
pub fn copy_texts(texts: &Vec<String>) -> (copy: Vec<String>)
    ensures
        copy.deep_view() == texts.deep_view(),
{
    let mut copy: Vec<String> = Vec::new();
    let mut i: usize = 0;
    while i < texts.len()
        invariant
            i <= texts@.len(),
            copy@.len() == i,
            forall|j: int| 0 <= j < i ==> copy@[j]@ == texts@[j]@,
        decreases texts@.len() - i,
    {
        copy.push(texts[i].clone());
        i = i + 1;
    }
    assert(copy.deep_view() =~= texts.deep_view());
    copy
}

/// Text is ordered by its UTF-8 bytes. Where one text begins with the other, the shorter comes
/// first; otherwise the smaller byte at the first place where they differ decides.
pub proof fn law_first_difference_decides(a: Seq<char>, b: Seq<char>, k: int)
    requires
        0 <= k <= vstd::utf8::encode_utf8(a).len(),
        k <= vstd::utf8::encode_utf8(b).len(),
        forall|i: int|
            0 <= i < k ==> #[trigger] vstd::utf8::encode_utf8(a)[i] == vstd::utf8::encode_utf8(
                b,
            )[i],
        k < vstd::utf8::encode_utf8(a).len() && k < vstd::utf8::encode_utf8(b).len() ==>
            vstd::utf8::encode_utf8(a)[k] != vstd::utf8::encode_utf8(b)[k],
    ensures
        text_before(a, b) <==> {
            &&& k < vstd::utf8::encode_utf8(b).len()
            &&& k == vstd::utf8::encode_utf8(a).len() || vstd::utf8::encode_utf8(a)[k]
                < vstd::utf8::encode_utf8(b)[k]
        },
{
    let (x, y) = (vstd::utf8::encode_utf8(a), vstd::utf8::encode_utf8(b));
    assert(x.take(k) =~= y.take(k));
    if k < y.len() && (k == x.len() || x[k] < y[k]) {
        assert(splits_at(x, y, k));
    }
    if bytes_before(x, y) {
        let j = choose|j: int| splits_at(x, y, j);
        if j > k {
            assert(x.take(j)[k] == y.take(j)[k]);
        }
    }
}

/// A prefix is taken off exactly where the text begins with it, and what is left makes the
/// text again when it is put behind the prefix.
pub proof fn law_prefix_comes_off(text: Seq<char>, prefix: Seq<char>, rest: Seq<char>)
    ensures
        after_prefix(text, prefix) == Some(rest) <==> text == prefix + rest,
        after_prefix(text, prefix) is None <==> !prefix.is_prefix_of(text),
{
    assert((prefix + rest).take(prefix.len() as int) =~= prefix);
    assert((prefix + rest).skip(prefix.len() as int) =~= rest);
    if prefix.is_prefix_of(text) {
        assert(text =~= prefix + text.skip(prefix.len() as int));
    }
}

} // verus!
