//! Lexicographic order on character sequences, as `Ord` orders strings:
//! by Unicode scalar value, a proper prefix first.

use vstd::prelude::*;

verus! {

/// Compares `a` and `b` from position `i` on: negative, zero or positive as
/// `a` orders before, equal to or after `b` there.
pub open spec fn text_order_from(a: Seq<char>, b: Seq<char>, i: nat) -> int
    decreases a.len() - i,
{
    if i >= a.len() {
        if i >= b.len() { 0 } else { -1 }
    } else if i >= b.len() {
        1
    } else if a[i as int] < b[i as int] {
        -1
    } else if a[i as int] > b[i as int] {
        1
    } else {
        text_order_from(a, b, i + 1)
    }
}

/// Lexicographic comparison of two character sequences.
pub open spec fn text_order(a: Seq<char>, b: Seq<char>) -> int {
    text_order_from(a, b, 0)
}

/// `a` orders strictly before `b`.
pub open spec fn text_lt(a: Seq<char>, b: Seq<char>) -> bool {
    text_order(a, b) < 0
}

/// The comparison is antisymmetric and takes the values -1, 0 and 1.
pub proof fn lemma_order_from_antisymmetric(a: Seq<char>, b: Seq<char>, i: nat)
    ensures
        text_order_from(a, b, i) == -text_order_from(b, a, i),
        -1 <= text_order_from(a, b, i) <= 1,
    decreases a.len() - i,
{
    if i < a.len() && i < b.len() && a[i as int] == b[i as int] {
        lemma_order_from_antisymmetric(a, b, i + 1);
    }
}

/// Comparison from `i` is zero exactly when the sequences agree from `i` on.
pub proof fn lemma_order_from_zero(a: Seq<char>, b: Seq<char>, i: nat)
    requires
        i <= a.len(),
        i <= b.len(),
    ensures
        (text_order_from(a, b, i) == 0) <==> (a.len() == b.len() && forall|j: int|
            i <= j < a.len() ==> a[j] == b[j]),
    decreases a.len() - i,
{
    if i < a.len() && i < b.len() && a[i as int] == b[i as int] {
        lemma_order_from_zero(a, b, i + 1);
    }
}

/// Two sequences compare equal exactly when they are equal.
pub proof fn lemma_order_zero(a: Seq<char>, b: Seq<char>)
    ensures
        (text_order(a, b) == 0) <==> (a == b),
{
    lemma_order_from_zero(a, b, 0);
    if text_order(a, b) == 0 {
        assert(a =~= b);
    }
}

/// Comparison from `i` is transitive.
pub proof fn lemma_order_from_transitive(a: Seq<char>, b: Seq<char>, c: Seq<char>, i: nat)
    requires
        text_order_from(a, b, i) < 0,
        text_order_from(b, c, i) < 0,
    ensures
        text_order_from(a, c, i) < 0,
    decreases a.len() - i,
{
    if i < a.len() && i < b.len() && i < c.len() && a[i as int] == b[i as int]
        && b[i as int] == c[i as int] {
        lemma_order_from_transitive(a, b, c, i + 1);
    }
}

/// Strict order on character sequences is transitive.
pub proof fn lemma_lt_transitive(a: Seq<char>, b: Seq<char>, c: Seq<char>)
    requires
        text_lt(a, b),
        text_lt(b, c),
    ensures
        text_lt(a, c),
{
    lemma_order_from_transitive(a, b, c, 0);
}

/// Compares two character vectors lexicographically.
pub fn compare_text(a: &Vec<char>, b: &Vec<char>) -> (result: i8)
    ensures
        result as int == text_order(a@, b@),
{
    let mut i: usize = 0;
    while i < a.len() && i < b.len()
        invariant
            text_order(a@, b@) == text_order_from(a@, b@, i as nat),
            i <= a.len(),
            i <= b.len(),
        decreases a.len() - i,
    {
        let x = a[i];
        let y = b[i];
        if x < y {
            return -1;
        } else if x > y {
            return 1;
        }
        i = i + 1;
    }
    if i < b.len() {
        -1
    } else if i < a.len() {
        1
    } else {
        0
    }
}

/// Appends a character to a string.
///
/// Calls `String::push`; claims that the string gains the character at its end.
#[verifier::external_body]
pub(crate) fn push_char(text: &mut String, c: char)
    ensures
        final(text)@ == old(text)@.push(c),
{
    text.push(c);
}

/// Collects the characters of a string.
pub fn chars_of(text: &str) -> (chars: Vec<char>)
    ensures
        chars@ == text@,
{
    let mut chars: Vec<char> = Vec::new();
    for c in it: text.chars()
        invariant
            it.seq() == text@,
            chars@ == text@.take(it.index() as int),
    {
        chars.push(c);
    }
    assert(chars@ =~= text@);
    chars
}

/// Whether `prefix` is a prefix of `text`.
pub open spec fn text_starts_with(text: Seq<char>, prefix: Seq<char>) -> bool {
    prefix.len() <= text.len() && text.subrange(0, prefix.len() as int) == prefix
}

/// Returns whether `prefix` is a prefix of `text`.
pub fn starts_with(text: &Vec<char>, prefix: &Vec<char>) -> (result: bool)
    ensures
        result == text_starts_with(text@, prefix@),
{
    if prefix.len() > text.len() {
        return false;
    }
    let mut i: usize = 0;
    while i < prefix.len()
        invariant
            prefix.len() <= text.len(),
            i <= prefix.len(),
            forall|j: int| 0 <= j < i ==> text@[j] == prefix@[j],
        decreases prefix.len() - i,
    {
        if text[i] != prefix[i] {
            assert(text@.subrange(0, prefix.len() as int)[i as int] != prefix@[i as int]);
            return false;
        }
        i = i + 1;
    }
    assert(text@.subrange(0, prefix.len() as int) =~= prefix@);
    true
}

/// `a` orders before or equal to `b`.
pub open spec fn text_le(a: Seq<char>, b: Seq<char>) -> bool {
    text_order(a, b) <= 0
}

/// Ordering before or equal is transitive, and strict where either step is.
pub proof fn lemma_le_transitive(a: Seq<char>, b: Seq<char>, c: Seq<char>)
    requires
        text_le(a, b),
        text_le(b, c),
    ensures
        text_le(a, c),
        (text_lt(a, b) || text_lt(b, c)) ==> text_lt(a, c),
{
    lemma_order_zero(a, b);
    lemma_order_zero(b, c);
    lemma_order_zero(a, c);
    if text_lt(a, b) && text_lt(b, c) {
        lemma_lt_transitive(a, b, c);
    }
}

/// The characters of each text.
pub open spec fn text_views(texts: Seq<String>) -> Seq<Seq<char>> {
    texts.map_values(|text: String| text@)
}

/// Sorts texts into lexicographic order, keeping every text, equal ones included.
pub fn sort_texts(texts: Vec<String>) -> (sorted: Vec<String>)
    ensures
        text_views(sorted@).to_multiset() == text_views(texts@).to_multiset(),
        forall|i: int, j: int| 0 <= i < j < sorted@.len() ==> text_le(#[trigger] sorted@[i]@, #[trigger] sorted@[j]@),
{
    broadcast use vstd::seq_lib::group_to_multiset_ensures;
    let ghost input = texts@;
    let mut sorted: Vec<String> = Vec::new();
    let mut keys: Vec<Vec<char>> = Vec::new();
    proof {
        assert(text_views(input.take(0)) =~= Seq::<Seq<char>>::empty());
        assert(text_views(sorted@) =~= Seq::<Seq<char>>::empty());
    }
    for text in it: texts
        invariant
            it.seq() == input,
            keys@.len() == sorted@.len(),
            forall|k: int| 0 <= k < keys@.len() ==> (#[trigger] keys@[k])@ == sorted@[k]@,
            forall|i: int, j: int| 0 <= i < j < sorted@.len() ==> text_le(#[trigger] sorted@[i]@, #[trigger] sorted@[j]@),
            text_views(sorted@).to_multiset() == text_views(input.take(it.index() as int)).to_multiset(),
    {
        let ghost index = it.index() as int;
        let chars = chars_of(text.as_str());
        let mut position: usize = 0;
        while position < keys.len()
            invariant
                keys@.len() == sorted@.len(),
                position <= keys@.len(),
                chars@ == text@,
                forall|k: int| 0 <= k < keys@.len() ==> (#[trigger] keys@[k])@ == sorted@[k]@,
                forall|k: int| 0 <= k < position ==> text_le(#[trigger] sorted@[k]@, text@),
            ensures
                position <= keys@.len(),
                forall|k: int| 0 <= k < position ==> text_le(#[trigger] sorted@[k]@, text@),
                position < keys@.len() ==> text_order(sorted@[position as int]@, text@) > 0,
            decreases keys@.len() - position,
        {
            if compare_text(&keys[position], &chars) > 0 {
                break;
            }
            position = position + 1;
        }
        let ghost before = sorted@;
        proof {
            if position < keys@.len() {
                lemma_order_from_antisymmetric(sorted@[position as int]@, text@, 0);
                assert forall|k: int| position <= k < before.len() implies text_lt(text@, #[trigger] before[k]@) by {
                    if k > position {
                        lemma_le_transitive(text@, before[position as int]@, before[k]@);
                    }
                }
            }
        }
        sorted.insert(position, text);
        keys.insert(position, chars);
        proof {
            let after = sorted@;
            assert forall|i: int, j: int| 0 <= i < j < after.len() implies text_le(#[trigger] after[i]@, #[trigger] after[j]@) by {
                if j < position {
                } else if i < position && j == position {
                } else if i < position && j > position {
                    assert(after[j] == before[j - 1]);
                    lemma_le_transitive(after[i]@, text@, after[j]@);
                } else if i == position {
                    assert(after[j] == before[j - 1]);
                } else {
                    assert(after[i] == before[i - 1]);
                    assert(after[j] == before[j - 1]);
                }
            }
            assert forall|k: int| 0 <= k < keys@.len() implies (#[trigger] keys@[k])@ == sorted@[k]@ by {
                if k < position {
                } else if k > position {
                    assert(sorted@[k] == before[k - 1]);
                }
            }
            assert(text_views(after) =~= text_views(before).insert(position as int, text@));
            vstd::seq_lib::to_multiset_insert(text_views(before), position as int, text@);
            assert(text == input[index]);
            assert(text_views(input.take(index + 1)) =~= text_views(input.take(index)).push(text@));
            text_views(input.take(index)).to_multiset_ensures();
        }
    }
    proof {
        assert(input.take(input.len() as int) =~= input);
    }
    sorted
}

} // verus!
