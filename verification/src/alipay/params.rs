//! The parameters of a query-string notification: what is signed, and what
//! is claimed as signature.

use crate::request::first_value;
use crate::text::{chars_of, join_strings, joined, same_text};
use vstd::prelude::*;
use vstd::string::StringExecFns;

verus! {

/// Whether `a` comes before `b` in the order of dictionaries, character by
/// character.
pub open spec fn key_before(a: Seq<char>, b: Seq<char>) -> bool
    decreases a.len(),
{
    if b.len() == 0 {
        false
    } else if a.len() == 0 {
        true
    } else if a[0] != b[0] {
        a[0] < b[0]
    } else {
        key_before(a.drop_first(), b.drop_first())
    }
}

/// Tells whether `a` comes before `b` in the order of dictionaries.
pub fn text_before(a: &str, b: &str) -> (before: bool)
    ensures
        before == key_before(a@, b@),
{
    let x = chars_of(a);
    let y = chars_of(b);
    let mut i: usize = 0;
    assert(x@.skip(0) =~= x@ && y@.skip(0) =~= y@);
    while i < x.len() && i < y.len()
        invariant
            i <= x.len(),
            i <= y.len(),
            x@ == a@,
            y@ == b@,
            key_before(a@, b@) == key_before(x@.skip(i as int), y@.skip(i as int)),
        decreases x.len() - i,
    {
        proof {
            assert(x@.skip(i as int).drop_first() =~= x@.skip(i + 1));
            assert(y@.skip(i as int).drop_first() =~= y@.skip(i + 1));
            assert(x@.skip(i as int)[0] == x@[i as int]);
            assert(y@.skip(i as int)[0] == y@[i as int]);
        }
        if x[i] != y[i] {
            return x[i] < y[i];
        }
        i += 1;
    }
    i < y.len()
}

/// The list `sorted` with the pair of `key` and `value` put in its place: in
/// place of the pair that has the same key, else before the first pair whose
/// key comes after `key`.
pub open spec fn put(sorted: Seq<(Seq<char>, Seq<char>)>, key: Seq<char>, value: Seq<char>) -> Seq<
    (Seq<char>, Seq<char>),
>
    decreases sorted.len(),
{
    if sorted.len() == 0 {
        seq![(key, value)]
    } else if sorted[0].0 == key {
        seq![(key, value)] + sorted.drop_first()
    } else if key_before(key, sorted[0].0) {
        seq![(key, value)] + sorted
    } else {
        seq![sorted[0]] + put(sorted.drop_first(), key, value)
    }
}

/// Puts a pair into a list that is sorted by key.
pub fn put_pair(sorted: &mut Vec<(String, String)>, key: String, value: String)
    ensures
        final(sorted).deep_view() == put(old(sorted).deep_view(), key@, value@),
{
    let ghost before = sorted.deep_view();
    let ghost wanted = put(before, key@, value@);
    let mut i: usize = 0;
    assert(before.skip(0) =~= before);
    assert(before.take(0) + put(before, key@, value@) =~= wanted);
    while i < sorted.len()
        invariant
            i <= sorted.len(),
            sorted.deep_view() == before,
            before == old(sorted).deep_view(),
            wanted == put(before, key@, value@),
            wanted == before.take(i as int) + put(before.skip(i as int), key@, value@),
        decreases sorted.len() - i,
    {
        let ghost rest = before.skip(i as int);
        proof {
            assert(rest[0] == before[i as int]);
            assert(before[i as int] == (sorted[i as int].0@, sorted[i as int].1@));
            assert(rest.drop_first() =~= before.skip(i + 1));
        }
        if same_text(sorted[i].0.as_str(), key.as_str()) {
            assert(put(rest, key@, value@) == seq![(key@, value@)] + rest.drop_first());
            sorted[i] = (key, value);
            assert(sorted.deep_view() =~= before.take(i as int) + (seq![(key@, value@)]
                + rest.drop_first())) by {
                let got = sorted.deep_view();
                let want = before.take(i as int) + (seq![(key@, value@)] + rest.drop_first());
                assert(got.len() == want.len());
                assert forall|k: int| 0 <= k < got.len() implies got[k] == want[k] by {
                    if k != i {
                        assert(got[k] == before[k]);
                    }
                }
            }
            return ;
        }
        if text_before(key.as_str(), sorted[i].0.as_str()) {
            assert(put(rest, key@, value@) == seq![(key@, value@)] + rest);
            sorted.insert(i, (key, value));
            assert(sorted.deep_view() =~= before.take(i as int) + (seq![(key@, value@)] + rest)) by {
                let got = sorted.deep_view();
                let want = before.take(i as int) + (seq![(key@, value@)] + rest);
                assert(got.len() == want.len());
                assert forall|k: int| 0 <= k < got.len() implies got[k] == want[k] by {
                    if k < i {
                        assert(got[k] == before[k]);
                    } else if k > i {
                        assert(got[k] == before[k - 1]);
                    }
                }
            }
            return ;
        }
        proof {
            assert(before.take(i + 1) =~= before.take(i as int) + seq![rest[0]]);
            assert(wanted =~= before.take(i + 1) + put(before.skip(i + 1), key@, value@));
        }
        i += 1;
    }
    sorted.push((key, value));
    proof {
        assert(before.skip(i as int) =~= Seq::empty());
        assert(before.take(i as int) =~= before);
        assert(sorted.deep_view() =~= before + seq![(key@, value@)]);
    }
}

/// Whether a parameter belongs to what is signed: all do but the signature
/// and the name of its kind.
pub open spec fn is_signed_name(name: Seq<char>) -> bool {
    name != "sign"@ && name != "sign_type"@
}

/// The parameters that are signed, sorted by name; of two pairs with the same
/// name the later one stays.
pub open spec fn collected(pairs: Seq<(Seq<char>, Seq<char>)>) -> Seq<(Seq<char>, Seq<char>)>
    decreases pairs.len(),
{
    if pairs.len() == 0 {
        Seq::empty()
    } else if is_signed_name(pairs.last().0) {
        put(collected(pairs.drop_last()), pairs.last().0, pairs.last().1)
    } else {
        collected(pairs.drop_last())
    }
}

/// The signature that the parameters claim: the value of the last pair called
/// `sign`, or the empty text.
pub open spec fn claimed_signature(pairs: Seq<(Seq<char>, Seq<char>)>) -> Seq<char>
    decreases pairs.len(),
{
    if pairs.len() == 0 {
        Seq::empty()
    } else if pairs.last().0 == "sign"@ {
        pairs.last().1
    } else {
        claimed_signature(pairs.drop_last())
    }
}

/// Sorts the signed parameters by name and picks the claimed signature.
pub fn collect_params(pairs: &Vec<(String, String)>) -> (out: (Vec<(String, String)>, String))
    ensures
        out.0.deep_view() == collected(pairs.deep_view()),
        out.1@ == claimed_signature(pairs.deep_view()),
{
    let mut params: Vec<(String, String)> = Vec::new();
    let mut signature = String::new();
    let mut i: usize = 0;
    assert(params.deep_view() =~= Seq::empty());
    while i < pairs.len()
        invariant
            i <= pairs.len(),
            params.deep_view() == collected(pairs.deep_view().take(i as int)),
            signature@ == claimed_signature(pairs.deep_view().take(i as int)),
        decreases pairs.len() - i,
    {
        proof {
            let now = pairs.deep_view().take(i + 1);
            assert(now.drop_last() =~= pairs.deep_view().take(i as int));
            assert(now.last() == (pairs[i as int].0@, pairs[i as int].1@));
        }
        let name = pairs[i].0.as_str();
        if same_text(name, "sign") {
            signature = pairs[i].1.clone();
        } else if !same_text(name, "sign_type") {
            put_pair(&mut params, pairs[i].0.clone(), pairs[i].1.clone());
        }
        i += 1;
    }
    assert(pairs.deep_view().take(i as int) =~= pairs.deep_view());
    (params, signature)
}

/// One parameter as `name=value`.
pub open spec fn pair_text(pair: (Seq<char>, Seq<char>)) -> Seq<char> {
    pair.0 + seq!['='] + pair.1
}

/// The text that is signed for sorted parameters: `name=value` for each,
/// joined by `&`.
pub open spec fn query_text(params: Seq<(Seq<char>, Seq<char>)>) -> Seq<char> {
    joined(params.map_values(|pair: (Seq<char>, Seq<char>)| pair_text(pair)), seq!['&'])
}

/// Writes the text that is signed for `params`.
pub fn query_string(params: &Vec<(String, String)>) -> (out: String)
    ensures
        out@ == query_text(params.deep_view()),
{
    proof {
        reveal_strlit("=");
        reveal_strlit("&");
        assert("="@ =~= seq!['=']);
        assert("&"@ =~= seq!['&']);
    }
    let ghost wanted = params.deep_view().map_values(
        |pair: (Seq<char>, Seq<char>)| pair_text(pair),
    );
    let mut parts: Vec<String> = Vec::new();
    let mut i: usize = 0;
    assert(parts.deep_view() =~= wanted.take(0));
    while i < params.len()
        invariant
            i <= params.len(),
            "="@ == seq!['='],
            wanted == params.deep_view().map_values(|pair: (Seq<char>, Seq<char>)| pair_text(pair)),
            parts.deep_view() == wanted.take(i as int),
        decreases params.len() - i,
    {
        let mut part = params[i].0.clone();
        part.append("=");
        part.append(params[i].1.as_str());
        let ghost before = parts.deep_view();
        parts.push(part);
        proof {
            assert(params.deep_view()[i as int] == (params[i as int].0@, params[i as int].1@));
            assert(parts.deep_view() =~= before + seq![part@]);
            assert(parts.deep_view() =~= wanted.take(i + 1));
        }
        i += 1;
    }
    assert(wanted.take(i as int) =~= wanted);
    join_strings(&parts, "&")
}

/// No text comes before itself.
pub proof fn lemma_key_before_irreflexive(a: Seq<char>)
    ensures
        !key_before(a, a),
    decreases a.len(),
{
    if a.len() > 0 {
        lemma_key_before_irreflexive(a.drop_first());
    }
}

/// What comes before a text comes before all that the text comes before.
pub proof fn lemma_key_before_transitive(a: Seq<char>, b: Seq<char>, c: Seq<char>)
    requires
        key_before(a, b),
        key_before(b, c),
    ensures
        key_before(a, c),
    decreases a.len(),
{
    if a.len() > 0 && b.len() > 0 && c.len() > 0 {
        if a[0] == b[0] && b[0] == c[0] {
            lemma_key_before_transitive(a.drop_first(), b.drop_first(), c.drop_first());
        }
    }
}

/// Of two different texts one comes before the other.
pub proof fn lemma_key_before_total(a: Seq<char>, b: Seq<char>)
    requires
        a != b,
    ensures
        key_before(a, b) || key_before(b, a),
    decreases a.len(),
{
    if a.len() > 0 && b.len() > 0 {
        if a[0] == b[0] {
            assert(a.drop_first() != b.drop_first()) by {
                if a.drop_first() == b.drop_first() {
                    assert(a =~= seq![a[0]] + a.drop_first());
                    assert(b =~= seq![b[0]] + b.drop_first());
                }
            }
            lemma_key_before_total(a.drop_first(), b.drop_first());
        }
    } else {
        assert(a.len() != b.len()) by {
            if a.len() == b.len() {
                assert(a =~= b);
            }
        }
    }
}

/// Whether the names of `list` come in strictly rising order.
pub open spec fn rising(list: Seq<(Seq<char>, Seq<char>)>) -> bool {
    forall|i: int, j: int| 0 <= i < j < list.len() ==> key_before(list[i].0, list[j].0)
}

/// Whether no two pairs of `pairs` have the same name.
pub open spec fn distinct_names(pairs: Seq<(Seq<char>, Seq<char>)>) -> bool {
    forall|i: int, j: int| 0 <= i < j < pairs.len() ==> pairs[i].0 != pairs[j].0
}

/// A list has a value for a name exactly where one of its pairs has the name.
pub proof fn lemma_first_value_is_some(list: Seq<(Seq<char>, Seq<char>)>, name: Seq<char>)
    ensures
        first_value(list, name) is Some <==> exists|i: int| 0 <= i < list.len() && list[i].0 == name,
        first_value(list, name) matches Some(value) ==> list.contains((name, value)),
    decreases list.len(),
{
    if list.len() > 0 {
        let rest = list.drop_first();
        lemma_first_value_is_some(rest, name);
        if list[0].0 == name {
            assert(list[0] == (name, list[0].1));
        } else {
            if first_value(rest, name) is Some {
                let i = choose|i: int| 0 <= i < rest.len() && rest[i].0 == name;
                assert(list[i + 1].0 == name);
                let value = first_value(rest, name)->Some_0;
                let k = choose|k: int| 0 <= k < rest.len() && rest[k] == (name, value);
                assert(list[k + 1] == (name, value));
            }
            if exists|i: int| 0 <= i < list.len() && list[i].0 == name {
                let i = choose|i: int| 0 <= i < list.len() && list[i].0 == name;
                assert(rest[i - 1].0 == name);
            }
        }
    }
}

/// Putting a pair into a list sets the value of its name and leaves the
/// values of the other names as they are.
pub proof fn lemma_put_sets_one_value(
    list: Seq<(Seq<char>, Seq<char>)>,
    key: Seq<char>,
    value: Seq<char>,
    name: Seq<char>,
)
    ensures
        first_value(put(list, key, value), name) == if name == key {
            Some(value)
        } else {
            first_value(list, name)
        },
    decreases list.len(),
{
    let out = put(list, key, value);
    if list.len() == 0 {
        assert(out.drop_first() =~= list);
    } else if list[0].0 == key {
        assert(out.drop_first() =~= list.drop_first());
    } else if key_before(key, list[0].0) {
        assert(out.drop_first() =~= list);
    } else {
        lemma_put_sets_one_value(list.drop_first(), key, value, name);
        assert(out.drop_first() =~= put(list.drop_first(), key, value));
    }
}

/// Every name of a list with a pair put in is the name of that pair or a
/// name of the list.
pub proof fn lemma_put_names(list: Seq<(Seq<char>, Seq<char>)>, key: Seq<char>, value: Seq<char>)
    ensures
        forall|i: int|
            0 <= i < put(list, key, value).len() ==> #[trigger] put(list, key, value)[i].0 == key
                || exists|k: int| 0 <= k < list.len() && list[k].0 == put(list, key, value)[i].0,
    decreases list.len(),
{
    let out = put(list, key, value);
    assert forall|i: int| 0 <= i < out.len() implies #[trigger] out[i].0 == key || exists|k: int|
        0 <= k < list.len() && list[k].0 == out[i].0 by {
        if list.len() == 0 {
        } else if list[0].0 == key {
            if i > 0 {
                assert(list[i].0 == out[i].0);
            }
        } else if key_before(key, list[0].0) {
            if i > 0 {
                assert(list[i - 1].0 == out[i].0);
            }
        } else {
            lemma_put_names(list.drop_first(), key, value);
            let inner = put(list.drop_first(), key, value);
            if i == 0 {
                assert(list[0].0 == out[0].0);
            } else {
                assert(out[i] == inner[i - 1]);
                if inner[i - 1].0 != key {
                    let k = choose|k: int|
                        0 <= k < list.drop_first().len() && list.drop_first()[k].0 == inner[i - 1].0;
                    assert(list[k + 1].0 == out[i].0);
                }
            }
        }
    }
}

/// Putting a pair into a rising list leaves it rising.
pub proof fn lemma_put_keeps_rising(
    list: Seq<(Seq<char>, Seq<char>)>,
    key: Seq<char>,
    value: Seq<char>,
)
    requires
        rising(list),
    ensures
        rising(put(list, key, value)),
    decreases list.len(),
{
    let out = put(list, key, value);
    if list.len() == 0 {
    } else if list[0].0 == key {
        assert forall|i: int, j: int| 0 <= i < j < out.len() implies key_before(
            out[i].0,
            out[j].0,
        ) by {
            assert(out[j] == list[j]);
            assert(key_before(list[i].0, list[j].0));
        }
    } else if key_before(key, list[0].0) {
        assert forall|i: int, j: int| 0 <= i < j < out.len() implies key_before(
            out[i].0,
            out[j].0,
        ) by {
            assert(out[j] == list[j - 1]);
            if i == 0 {
                if j > 1 {
                    assert(key_before(list[0].0, list[j - 1].0));
                    lemma_key_before_transitive(key, list[0].0, list[j - 1].0);
                }
            } else {
                assert(out[i] == list[i - 1]);
                assert(key_before(list[i - 1].0, list[j - 1].0));
            }
        }
    } else {
        let rest = list.drop_first();
        assert(rising(rest)) by {
            assert forall|i: int, j: int| 0 <= i < j < rest.len() implies key_before(
                rest[i].0,
                rest[j].0,
            ) by {
                assert(key_before(list[i + 1].0, list[j + 1].0));
            }
        }
        lemma_put_keeps_rising(rest, key, value);
        lemma_put_names(rest, key, value);
        let inner = put(rest, key, value);
        lemma_key_before_total(key, list[0].0);
        assert forall|i: int, j: int| 0 <= i < j < out.len() implies key_before(
            out[i].0,
            out[j].0,
        ) by {
            assert(out[j] == inner[j - 1]);
            if i == 0 {
                if inner[j - 1].0 != key {
                    let k = choose|k: int| 0 <= k < rest.len() && rest[k].0 == inner[j - 1].0;
                    assert(key_before(list[0].0, list[k + 1].0));
                }
            } else {
                assert(out[i] == inner[i - 1]);
            }
        }
    }
}

/// Two rising lists that give every name the same value are the same list.
pub proof fn lemma_rising_lists_are_unique(
    a: Seq<(Seq<char>, Seq<char>)>,
    b: Seq<(Seq<char>, Seq<char>)>,
)
    requires
        rising(a),
        rising(b),
        forall|name: Seq<char>| first_value(a, name) == first_value(b, name),
    ensures
        a == b,
    decreases a.len() + b.len(),
{
    if a.len() == 0 || b.len() == 0 {
        if a.len() > 0 {
            assert(first_value(a, a[0].0) is Some);
            assert(false);
        }
        if b.len() > 0 {
            assert(first_value(b, b[0].0) is Some);
            assert(false);
        }
        assert(a =~= b);
    } else {
        lemma_first_value_is_some(a, b[0].0);
        lemma_first_value_is_some(b, a[0].0);
        assert(first_value(a, a[0].0) == Some(a[0].1));
        assert(first_value(b, b[0].0) == Some(b[0].1));
        assert(a[0].0 == b[0].0) by {
            if a[0].0 != b[0].0 {
                let i = choose|i: int| 0 <= i < b.len() && b[i].0 == a[0].0;
                let k = choose|k: int| 0 <= k < a.len() && a[k].0 == b[0].0;
                assert(i > 0 && k > 0);
                assert(key_before(b[0].0, b[i].0));
                assert(key_before(a[0].0, a[k].0));
                lemma_key_before_transitive(a[0].0, b[0].0, a[0].0);
                lemma_key_before_irreflexive(a[0].0);
            }
        }
        let ra = a.drop_first();
        let rb = b.drop_first();
        assert(rising(ra)) by {
            assert forall|i: int, j: int| 0 <= i < j < ra.len() implies key_before(
                ra[i].0,
                ra[j].0,
            ) by {
                assert(key_before(a[i + 1].0, a[j + 1].0));
            }
        }
        assert(rising(rb)) by {
            assert forall|i: int, j: int| 0 <= i < j < rb.len() implies key_before(
                rb[i].0,
                rb[j].0,
            ) by {
                assert(key_before(b[i + 1].0, b[j + 1].0));
            }
        }
        assert forall|name: Seq<char>| first_value(ra, name) == first_value(rb, name) by {
            if name == a[0].0 {
                lemma_first_value_is_some(ra, name);
                lemma_first_value_is_some(rb, name);
                if first_value(ra, name) is Some {
                    let i = choose|i: int| 0 <= i < ra.len() && ra[i].0 == name;
                    assert(key_before(a[0].0, a[i + 1].0));
                    lemma_key_before_irreflexive(name);
                }
                if first_value(rb, name) is Some {
                    let i = choose|i: int| 0 <= i < rb.len() && rb[i].0 == name;
                    assert(key_before(b[0].0, b[i + 1].0));
                    lemma_key_before_irreflexive(name);
                }
            } else {
                assert(first_value(a, name) == first_value(ra, name));
                assert(first_value(b, name) == first_value(rb, name));
            }
        }
        lemma_rising_lists_are_unique(ra, rb);
        assert(a[0] == b[0]);
        assert(a =~= seq![a[0]] + ra);
        assert(b =~= seq![b[0]] + rb);
    }
}

/// The signed parameters come in strictly rising order of their names.
pub proof fn lemma_collected_is_rising(pairs: Seq<(Seq<char>, Seq<char>)>)
    ensures
        rising(collected(pairs)),
    decreases pairs.len(),
{
    if pairs.len() > 0 {
        lemma_collected_is_rising(pairs.drop_last());
        if is_signed_name(pairs.last().0) {
            lemma_put_keeps_rising(collected(pairs.drop_last()), pairs.last().0, pairs.last().1);
        }
    }
}

/// Among pairs with distinct names, the signed parameters give a name the
/// value `value` exactly where the name is signed and the pairs hold the name
/// with that value.
pub proof fn lemma_collected_values(
    pairs: Seq<(Seq<char>, Seq<char>)>,
    name: Seq<char>,
    value: Seq<char>,
)
    requires
        distinct_names(pairs),
    ensures
        first_value(collected(pairs), name) == Some(value) <==> is_signed_name(name) && pairs.contains(
            (name, value),
        ),
    decreases pairs.len(),
{
    if pairs.len() > 0 {
        let front = pairs.drop_last();
        let last = pairs.last();
        assert(distinct_names(front)) by {
            assert forall|i: int, j: int| 0 <= i < j < front.len() implies front[i].0
                != front[j].0 by {
                assert(pairs[i].0 != pairs[j].0);
            }
        }
        lemma_collected_values(front, name, value);
        if is_signed_name(last.0) {
            lemma_put_sets_one_value(collected(front), last.0, last.1, name);
        }
        if front.contains((name, value)) {
            let i = choose|i: int| 0 <= i < front.len() && front[i] == (name, value);
            assert(pairs[i] == (name, value));
            assert(pairs[i].0 != pairs[pairs.len() - 1].0);
        }
        if pairs.contains((name, value)) {
            let i = choose|i: int| 0 <= i < pairs.len() && pairs[i] == (name, value);
            if i < front.len() {
                assert(front[i] == (name, value));
            } else {
                assert(last == (name, value));
            }
        }
        if last == (name, value) {
            assert(pairs[pairs.len() - 1] == (name, value));
        }
    }
}

/// Among pairs with distinct names, the claimed signature is the value of
/// the pair called `sign` where there is one, else the empty text.
pub proof fn lemma_claimed_signature_value(pairs: Seq<(Seq<char>, Seq<char>)>)
    requires
        distinct_names(pairs),
    ensures
        forall|value: Seq<char>| #[trigger]
            pairs.contains(("sign"@, value)) ==> claimed_signature(pairs) == value,
        (forall|i: int| 0 <= i < pairs.len() ==> pairs[i].0 != "sign"@) ==> claimed_signature(pairs)
            == Seq::<char>::empty(),
    decreases pairs.len(),
{
    if pairs.len() > 0 {
        let front = pairs.drop_last();
        let last = pairs.last();
        assert(distinct_names(front)) by {
            assert forall|i: int, j: int| 0 <= i < j < front.len() implies front[i].0
                != front[j].0 by {
                assert(pairs[i].0 != pairs[j].0);
            }
        }
        lemma_claimed_signature_value(front);
        assert forall|value: Seq<char>| #[trigger]
            pairs.contains(("sign"@, value)) implies claimed_signature(pairs) == value by {
            let i = choose|i: int| 0 <= i < pairs.len() && pairs[i] == ("sign"@, value);
            if i < front.len() {
                assert(front[i] == ("sign"@, value));
                assert(front.contains(("sign"@, value)));
                assert(pairs[i].0 != pairs[pairs.len() - 1].0);
            }
        }
        if forall|i: int| 0 <= i < pairs.len() ==> pairs[i].0 != "sign"@ {
            assert forall|i: int| 0 <= i < front.len() implies front[i].0 != "sign"@ by {
                assert(pairs[i].0 != "sign"@);
            }
            assert(pairs[pairs.len() - 1].0 != "sign"@);
        }
    }
}

/// The order in which parameters arrive does not matter: two lists that hold
/// the same pairs, each name once, have the same signed parameters and claim
/// the same signature.
pub proof fn lemma_order_of_parameters_does_not_matter(
    one: Seq<(Seq<char>, Seq<char>)>,
    other: Seq<(Seq<char>, Seq<char>)>,
)
    requires
        distinct_names(one),
        distinct_names(other),
        forall|pair: (Seq<char>, Seq<char>)| one.contains(pair) <==> other.contains(pair),
    ensures
        collected(one) == collected(other),
        claimed_signature(one) == claimed_signature(other),
{
    lemma_collected_is_rising(one);
    lemma_collected_is_rising(other);
    assert forall|name: Seq<char>| first_value(collected(one), name) == first_value(
        collected(other),
        name,
    ) by {
        match first_value(collected(one), name) {
            Some(value) => {
                lemma_collected_values(one, name, value);
                lemma_collected_values(other, name, value);
            },
            None => {
                match first_value(collected(other), name) {
                    Some(value) => {
                        lemma_collected_values(one, name, value);
                        lemma_collected_values(other, name, value);
                    },
                    None => {},
                }
            },
        }
    }
    lemma_rising_lists_are_unique(collected(one), collected(other));
    lemma_claimed_signature_value(one);
    lemma_claimed_signature_value(other);
    if exists|i: int| 0 <= i < one.len() && one[i].0 == "sign"@ {
        let i = choose|i: int| 0 <= i < one.len() && one[i].0 == "sign"@;
        assert(one[i] == ("sign"@, one[i].1));
        assert(one.contains(("sign"@, one[i].1)));
        assert(other.contains(("sign"@, one[i].1)));
    } else {
        assert forall|i: int| 0 <= i < other.len() implies other[i].0 != "sign"@ by {
            if other[i].0 == "sign"@ {
                assert(other[i] == ("sign"@, other[i].1));
                assert(other.contains(other[i]));
                assert(one.contains(other[i]));
                let k = choose|k: int| 0 <= k < one.len() && one[k] == other[i];
                assert(one[k].0 == "sign"@);
            }
        }
    }
}

} // verus!
