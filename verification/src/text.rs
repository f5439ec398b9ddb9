//! Small string tools that the rest of the crate builds its texts with.

use vstd::prelude::*;
use vstd::std_specs::iter::IteratorSpec;

verus! {

/// The lowercase form of a text, as `str::to_lowercase` computes it.
pub uninterp spec fn lowercase(s: Seq<char>) -> Seq<char>;

/// Calls `str::to_lowercase`: the result is the lowercase equivalent of `s`,
/// which depends on `s` alone and is known here only by its name.
#[verifier::external_body]
pub(crate) fn to_lower(s: &str) -> (r: String)
    ensures
        r@ == lowercase(s@),
{
    s.to_lowercase()
}

/// Calls `String::push`, which appends one character to the end of the string.
#[verifier::external_body]
pub(crate) fn push_char(s: &mut String, c: char)
    ensures
        final(s)@ == old(s)@.push(c),
{
    s.push(c)
}

/// The characters of `s`, in order.
pub fn chars_of(s: &str) -> (v: Vec<char>)
    ensures
        v@ == s@,
{
    let mut v: Vec<char> = Vec::new();
    let mut it = s.chars();
    proof {
        vstd::string::axiom_spec_iter(s);
    }
    loop
        invariant
            it.obeys_prophetic_iter_laws(),
            it.decrease() is Some,
            v@ + it.remaining() == s@,
        decreases it.decrease()->0,
    {
        let ghost before = it;
        match it.next() {
            Some(c) => {
                proof {
                    vstd::string::next_postcondition(&before, &it, Some(c));
                    assert(v@.push(c) + it.remaining() =~= v@ + before.remaining());
                }
                v.push(c);
            },
            None => {
                proof {
                    vstd::string::next_postcondition(&before, &it, None);
                    assert(it.remaining().len() == 0);
                    assert(v@ + it.remaining() =~= v@);
                }
                return v;
            },
        }
    }
}

/// The entity that stands for a double quote: `&quot;`.
pub open spec fn quote_entity() -> Seq<char> {
    seq!['&', 'q', 'u', 'o', 't', ';']
}

/// `s` with each `&quot;`, taken from the left, replaced by a double quote.
pub open spec fn unquoted(s: Seq<char>) -> Seq<char>
    decreases s.len(),
{
    if s.len() == 0 {
        Seq::empty()
    } else if quote_entity().is_prefix_of(s) {
        seq!['"'] + unquoted(s.skip(6))
    } else {
        seq![s[0]] + unquoted(s.skip(1))
    }
}

fn quote_at(chars: &Vec<char>, i: usize) -> (r: bool)
    requires
        i < chars@.len(),
    ensures
        r == quote_entity().is_prefix_of(chars@.skip(i as int)),
{
    let ghost rest = chars@.skip(i as int);
    if chars.len() - i < 6 {
        return false;
    }
    let r = chars[i] == '&' && chars[i + 1] == 'q' && chars[i + 2] == 'u' && chars[i + 3] == 'o'
        && chars[i + 4] == 't' && chars[i + 5] == ';';
    proof {
        let q = quote_entity();
        if r {
            assert(rest.subrange(0, 6) =~= q);
        } else {
            if q.is_prefix_of(rest) {
                assert(rest.subrange(0, 6) == q);
                assert(rest.subrange(0, 6)[0] == q[0]);
                assert(rest.subrange(0, 6)[1] == q[1]);
                assert(rest.subrange(0, 6)[2] == q[2]);
                assert(rest.subrange(0, 6)[3] == q[3]);
                assert(rest.subrange(0, 6)[4] == q[4]);
                assert(rest.subrange(0, 6)[5] == q[5]);
            }
        }
    }
    r
}

/// Decodes the entities that devices are known to send: each `&quot;` becomes
/// a double quote, and everything else stays as it is.
pub fn decode_entities(raw: &str) -> (r: String)
    ensures
        r@ == unquoted(raw@),
{
    let chars = chars_of(raw);
    let mut out = String::new();
    let mut i: usize = 0;
    proof {
        assert(chars@.skip(0) =~= raw@);
        assert(out@ + unquoted(raw@) =~= unquoted(raw@));
    }
    while i < chars.len()
        invariant
            i <= chars@.len(),
            chars@ == raw@,
            out@ + unquoted(chars@.skip(i as int)) == unquoted(raw@),
        decreases chars@.len() - i,
    {
        let ghost rest = chars@.skip(i as int);
        if quote_at(&chars, i) {
            proof {
                assert(rest.skip(6) =~= chars@.skip(i + 6));
                assert(out@.push('"') + unquoted(rest.skip(6)) =~= out@ + unquoted(rest));
            }
            push_char(&mut out, '"');
            i += 6;
        } else {
            proof {
                assert(rest.skip(1) =~= chars@.skip(i + 1));
                assert(out@.push(rest[0]) + unquoted(rest.skip(1)) =~= out@ + unquoted(rest));
            }
            push_char(&mut out, chars[i]);
            i += 1;
        }
    }
    proof {
        assert(out@ + unquoted(chars@.skip(i as int)) =~= out@);
    }
    out
}

/// The texts of a sequence of strings.
pub open spec fn texts(items: Seq<String>) -> Seq<Seq<char>> {
    items.map_values(|s: String| s@)
}

/// How often `wanted` occurs among `items`.
pub open spec fn occurrences(items: Seq<Seq<char>>, wanted: Seq<char>) -> nat
    decreases items.len(),
{
    if items.len() == 0 {
        0
    } else {
        occurrences(items.drop_last(), wanted) + if items.last() == wanted {
            1nat
        } else {
            0nat
        }
    }
}

/// Where `wanted` first occurs among `items`, where it occurs at all.
pub open spec fn first_index(items: Seq<Seq<char>>, wanted: Seq<char>) -> int
    decreases items.len(),
{
    if items.len() == 0 {
        0
    } else if occurrences(items.drop_last(), wanted) > 0 {
        first_index(items.drop_last(), wanted)
    } else {
        items.len() - 1
    }
}

/// What a search for the one occurrence of a text finds.
#[derive(Debug, Clone, Copy, PartialEq, Eq, Structural)]
pub enum Found {
    /// The text does not occur.
    Nothing,
    /// It occurs once, at this index.
    One(usize),
    /// It occurs this often, more than once.
    Several(usize),
}

/// Looks for the one occurrence of `wanted` among `items`.
pub fn find_unique(items: &Vec<String>, wanted: &str) -> (r: Found)
    ensures
        match r {
            Found::Nothing => occurrences(texts(items@), wanted@) == 0,
            Found::One(at) => occurrences(texts(items@), wanted@) == 1 && at == first_index(
                texts(items@),
                wanted@,
            ) && at < items@.len(),
            Found::Several(count) => count >= 2 && count == occurrences(texts(items@), wanted@),
        },
{
    let wanted = wanted.to_owned();
    let mut count: usize = 0;
    let mut first: usize = 0;
    let mut i: usize = 0;
    while i < items.len()
        invariant
            i <= items@.len(),
            count <= i,
            count == occurrences(texts(items@).take(i as int), wanted@),
            count > 0 ==> first < i && first == first_index(texts(items@).take(i as int), wanted@),
        decreases items@.len() - i,
    {
        proof {
            assert(texts(items@).take(i + 1).drop_last() =~= texts(items@).take(i as int));
            assert(texts(items@).take(i + 1).last() == items@[i as int]@);
        }
        if items[i] == wanted {
            if count == 0 {
                first = i;
            }
            count += 1;
        }
        i += 1;
    }
    proof {
        assert(texts(items@).take(i as int) =~= texts(items@));
    }
    if count == 0 {
        Found::Nothing
    } else if count == 1 {
        Found::One(first)
    } else {
        Found::Several(count)
    }
}

/// What the count of occurrences says of the items: none is `wanted` where
/// it is zero; `first_index` is the first that is, where it is not; one only
/// is where it is one; two at least are where it is more.
pub proof fn occurrences_counted(items: Seq<Seq<char>>, wanted: Seq<char>)
    ensures
        occurrences(items, wanted) <= items.len(),
        occurrences(items, wanted) == 0 <==> forall|j: int|
            0 <= j < items.len() ==> #[trigger] items[j] != wanted,
        occurrences(items, wanted) >= 1 ==> {
            let i = first_index(items, wanted);
            &&& 0 <= i < items.len()
            &&& items[i] == wanted
            &&& forall|j: int| 0 <= j < i ==> #[trigger] items[j] != wanted
        },
        occurrences(items, wanted) == 1 ==> forall|j: int|
            0 <= j < items.len() && #[trigger] items[j] == wanted ==> j == first_index(
                items,
                wanted,
            ),
        occurrences(items, wanted) >= 2 ==> exists|i: int, j: int|
            0 <= i < j < items.len() && #[trigger] items[i] == wanted && #[trigger] items[j]
                == wanted,
    decreases items.len(),
{
    if items.len() > 0 {
        let front = items.drop_last();
        let last = items.len() - 1;
        occurrences_counted(front, wanted);
        assert forall|j: int| 0 <= j < front.len() implies #[trigger] front[j] == items[j] by {}
        if occurrences(front, wanted) == 0 {
            assert forall|j: int| 0 <= j < last implies #[trigger] items[j] != wanted by {
                assert(front[j] == items[j]);
            }
        } else {
            let i = first_index(front, wanted);
            assert(items[i] == wanted);
            assert forall|j: int| 0 <= j < i implies #[trigger] items[j] != wanted by {
                assert(front[j] == items[j]);
            }
            if items.last() == wanted {
                assert(items[i] == wanted && items[last] == wanted);
            } else if occurrences(front, wanted) == 1 {
                assert forall|j: int|
                    0 <= j < items.len() && #[trigger] items[j] == wanted implies j == i by {
                    assert(front[j] == items[j]);
                }
            } else {
                let (a, b) = choose|a: int, b: int|
                    0 <= a < b < front.len() && #[trigger] front[a] == wanted
                        && #[trigger] front[b] == wanted;
                assert(items[a] == wanted && items[b] == wanted);
            }
        }
    }
}

} // verus!
