//! Compact JSON text, written field by field in a fixed order.
//!
//! The venue's signature commits to `keccak256` of the compact JSON of each request, and the
//! gateway re-marshals the body through structs whose field order is fixed, so every
//! encoder here states the exact character sequence it produces.
use vstd::prelude::*;

use crate::text::{decimal, json_string, push_char, push_json_string, push_str, u64_decimal};

verus! {

/// `true` or `false`.
pub open spec fn json_bool(b: bool) -> Seq<char> {
    if b {
        "true"@
    } else {
        "false"@
    }
}

/// Items separated by commas.
pub open spec fn join(items: Seq<Seq<char>>) -> Seq<char>
    decreases items.len(),
{
    if items.len() == 0 {
        seq![]
    } else if items.len() == 1 {
        items[0]
    } else {
        join(items.drop_last()) + seq![','] + items.last()
    }
}

/// A JSON array of already-encoded values.
pub open spec fn json_array(items: Seq<Seq<char>>) -> Seq<char> {
    seq!['['] + join(items) + seq![']']
}

/// An optional member: `key` followed by the value when present, nothing when absent.
pub open spec fn opt_member(key: Seq<char>, value: Option<Seq<char>>) -> Seq<char> {
    match value {
        Some(v) => key + v,
        None => seq![],
    }
}

/// An optional string as an optional JSON string literal.
pub open spec fn opt_json_string(value: Option<String>) -> Option<Seq<char>> {
    match value {
        Some(s) => Some(json_string(s@)),
        None => None,
    }
}

/// An optional integer as optional decimal text.
pub open spec fn opt_decimal(value: Option<u64>) -> Option<Seq<char>> {
    match value {
        Some(n) => Some(decimal(n as nat)),
        None => None,
    }
}

/// A value with one fixed compact JSON encoding.
pub trait ToJson {
    /// The exact encoding.
    spec fn json(&self) -> Seq<char>;

    /// Appends the encoding.
    fn write_json(&self, out: &mut String)
        ensures
            final(out)@ == old(out)@ + self.json(),
    ;
}

/// The encodings of a sequence of values.
pub open spec fn json_items<T: ToJson>(items: Seq<T>) -> Seq<Seq<char>> {
    items.map_values(|t: T| t.json())
}

/// Appends a JSON array of the given values.
pub fn push_array<T: ToJson>(out: &mut String, items: &Vec<T>)
    ensures
        final(out)@ == old(out)@ + json_array(json_items(items@)),
{
    let ghost start = out@;
    push_char(out, '[');
    let mut i: usize = 0;
    while i < items.len()
        invariant
            i <= items.len(),
            out@ == start + seq!['['] + join(json_items(items@.take(i as int))),
        decreases items.len() - i,
    {
        let ghost before = out@;
        proof {
            assert(json_items(items@.take(i + 1)) == json_items(items@.take(i as int)).push(
                items@[i as int].json(),
            ));
            lemma_join_push(json_items(items@.take(i as int)), items@[i as int].json());
        }
        push_separator(out, i);
        items[i].write_json(out);
        proof {
            if i == 0 {
                assert(json_items(items@.take(0)) == Seq::<Seq<char>>::empty());
            }
        }
        i = i + 1;
    }
    push_char(out, ']');
    proof {
        assert(items@.take(items.len() as int) == items@);
    }
}

/// Appends literal text.
pub fn push_lit(out: &mut String, lit: &str)
    ensures
        final(out)@ == old(out)@ + lit@,
{
    push_str(out, lit);
}

/// Appends an integer in decimal.
pub fn push_u64(out: &mut String, n: u64)
    ensures
        final(out)@ == old(out)@ + decimal(n as nat),
{
    let d = u64_decimal(n);
    push_str(out, d.as_str());
}

/// Appends `true` or `false`.
pub fn push_bool(out: &mut String, b: bool)
    ensures
        final(out)@ == old(out)@ + json_bool(b),
{
    if b {
        push_str(out, "true");
    } else {
        push_str(out, "false");
    }
}

/// Appends `key` and a string literal when `value` is present.
pub fn push_opt_string(out: &mut String, key: &str, value: &Option<String>)
    ensures
        final(out)@ == old(out)@ + opt_member(key@, opt_json_string(*value)),
{
    match value {
        Some(v) => {
            let ghost start = out@;
            push_str(out, key);
            push_json_string(out, v.as_str());
            proof {
                assert(out@ == start + (key@ + json_string(v@)));
            }
        },
        None => {
            proof {
                assert(out@ == old(out)@ + Seq::<char>::empty());
            }
        },
    }
}

/// Appends `key` and an integer when `value` is present.
pub fn push_opt_u64(out: &mut String, key: &str, value: Option<u64>)
    ensures
        final(out)@ == old(out)@ + opt_member(key@, opt_decimal(value)),
{
    match value {
        Some(v) => {
            let ghost start = out@;
            push_str(out, key);
            push_u64(out, v);
            proof {
                assert(out@ == start + (key@ + decimal(v as nat)));
            }
        },
        None => {
            proof {
                assert(out@ == old(out)@ + Seq::<char>::empty());
            }
        },
    }
}

/// Appending one more item to a comma-separated list.
pub proof fn lemma_join_push(items: Seq<Seq<char>>, item: Seq<char>)
    ensures
        join(items.push(item)) == if items.len() == 0 {
            item
        } else {
            join(items) + seq![','] + item
        },
{
    assert(items.push(item).drop_last() == items);
}

/// Appends a separator when `i` items are already written.
pub fn push_separator(out: &mut String, i: usize)
    ensures
        final(out)@ == old(out)@ + (if i == 0 {
            Seq::<char>::empty()
        } else {
            seq![',']
        }),
{
    if i > 0 {
        push_char(out, ',');
    } else {
        proof {
            assert(out@ == old(out)@ + Seq::<char>::empty());
        }
    }
}

/// Whether `part` stands in `text` starting at position `k`.
pub open spec fn occurs_at(part: Seq<char>, text: Seq<char>, k: int) -> bool {
    &&& 0 <= k
    &&& k + part.len() <= text.len()
    &&& text.subrange(k, k + part.len()) == part
}

/// Whether `part` stands somewhere in `text`.
pub open spec fn occurs_in(part: Seq<char>, text: Seq<char>) -> bool {
    exists|k: int| #[trigger] occurs_at(part, text, k)
}

/// A text occurs in anything built around it.
pub proof fn lemma_occurs_between(before: Seq<char>, part: Seq<char>, after: Seq<char>)
    ensures
        occurs_at(part, before + part + after, before.len() as int),
        occurs_in(part, before + part + after),
{
    assert((before + part + after).subrange(before.len() as int, (before.len() + part.len()) as int) =~= part);
}

/// What occurs in a text occurs in anything that text occurs in.
pub proof fn lemma_occurs_transitive(part: Seq<char>, middle: Seq<char>, text: Seq<char>)
    requires
        occurs_in(part, middle),
        occurs_in(middle, text),
    ensures
        occurs_in(part, text),
{
    let i = choose|k: int| #[trigger] occurs_at(part, middle, k);
    let j = choose|k: int| #[trigger] occurs_at(middle, text, k);
    assert forall|x: int| 0 <= x < part.len() implies #[trigger] text.subrange(i + j, i + j + part.len())[x]
        == part[x] by {
        assert(middle.subrange(i, i + part.len())[x] == middle[i + x]);
        assert(text.subrange(j, j + middle.len())[i + x] == text[j + i + x]);
    }
    assert(text.subrange(i + j, i + j + part.len()) =~= part);
    assert(occurs_at(part, text, i + j));
}

/// Every item of a comma-separated list occurs in the list.
pub proof fn lemma_join_contains(items: Seq<Seq<char>>, i: int)
    requires
        0 <= i < items.len(),
    ensures
        occurs_in(items[i], join(items)),
    decreases items.len(),
{
    if items.len() == 1 {
        lemma_occurs_between(seq![], items[0], seq![]);
        assert(Seq::<char>::empty() + items[0] + Seq::<char>::empty() =~= items[0]);
    } else {
        let init = items.drop_last();
        if i == items.len() - 1 {
            lemma_occurs_between(join(init) + seq![','], items.last(), seq![]);
            assert(join(init) + seq![','] + items.last() + Seq::<char>::empty() =~= join(items));
        } else {
            lemma_join_contains(init, i);
            assert(init[i] == items[i]);
            lemma_occurs_between(seq![], join(init), seq![','] + items.last());
            assert(Seq::<char>::empty() + join(init) + (seq![','] + items.last()) =~= join(items));
            lemma_occurs_transitive(items[i], join(init), join(items));
        }
    }
}

/// Every element of a JSON array occurs in the array's text.
pub proof fn lemma_array_contains(items: Seq<Seq<char>>, i: int)
    requires
        0 <= i < items.len(),
    ensures
        occurs_in(items[i], json_array(items)),
{
    lemma_join_contains(items, i);
    lemma_occurs_between(seq!['['], join(items), seq![']']);
    lemma_occurs_transitive(items[i], join(items), json_array(items));
}

/// What occurs in a text occurs in any extension of it.
pub proof fn lemma_occurs_extended(part: Seq<char>, text: Seq<char>, more: Seq<char>)
    requires
        occurs_in(part, text),
    ensures
        occurs_in(part, text + more),
{
    let k = choose|k: int| #[trigger] occurs_at(part, text, k);
    assert((text + more).subrange(k, k + part.len()) =~= text.subrange(k, k + part.len()));
    assert(occurs_at(part, text + more, k));
}

} // verus!
