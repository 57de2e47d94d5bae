//! Projects in the order of their names.

use crate::project::Project;
use vstd::prelude::*;
use vstd::utf8;

verus! {

/// What `str::to_lowercase` makes of a string with these characters.
pub uninterp spec fn lowercase(s: Seq<char>) -> Seq<char>;

/// `str::to_lowercase`: the lowercase equivalent of a string, which depends on nothing but
/// its characters.
pub assume_specification[ str::to_lowercase ](s: &str) -> (r: String)
    ensures
        r@ == lowercase(s@),
;

/// Whether `a` does not come after `b` in the lexicographic order of bytes.
pub open spec fn bytes_le(a: Seq<u8>, b: Seq<u8>) -> bool
    decreases a.len(),
{
    if a.len() == 0 {
        true
    } else if b.len() == 0 {
        false
    } else if a[0] != b[0] {
        a[0] < b[0]
    } else {
        bytes_le(a.skip(1), b.skip(1))
    }
}

/// Whether `a` does not come after `b` in the order of strings, which is that of their
/// bytes in UTF-8.
pub open spec fn text_le(a: Seq<char>, b: Seq<char>) -> bool {
    bytes_le(utf8::encode_utf8(a), utf8::encode_utf8(b))
}

/// The keys of strings as characters.
pub open spec fn keys_view(keys: Seq<String>) -> Seq<Seq<char>> {
    keys.map_values(|k: String| k@)
}

/// Whether `order` lists the positions from `low` on of `keys`, each once, with those of
/// lesser keys first and those of equal keys as they come.
pub open spec fn orders_from(keys: Seq<Seq<char>>, low: int, order: Seq<int>) -> bool {
    &&& order.len() == keys.len() - low
    &&& forall|i: int| 0 <= i < order.len() ==> low <= #[trigger] order[i] < keys.len()
    &&& forall|i: int, j: int|
        0 <= i < j < order.len() ==> #[trigger] order[i] != #[trigger] order[j] && text_le(
            keys[order[i]],
            keys[order[j]],
        ) && (keys[order[i]] == keys[order[j]] ==> order[i] < order[j])
}

/// Whether `order` lists all positions of `keys`, each once, with those of lesser keys
/// first and those of equal keys as they come.
pub open spec fn orders(keys: Seq<Seq<char>>, order: Seq<int>) -> bool {
    orders_from(keys, 0, order)
}

/// The items at the positions that `order` lists.
pub open spec fn arranged<T>(items: Seq<T>, order: Seq<int>) -> Seq<T> {
    Seq::new(order.len(), |i: int| items[order[i]])
}

/// The keys by which projects are put in order: their names in lower case.
pub open spec fn name_keys(projects: Seq<Project>) -> Seq<Seq<char>> {
    projects.map_values(|p: Project| lowercase(p.name@))
}

/// Any string comes before or after any other.
pub proof fn text_order_is_total(a: Seq<char>, b: Seq<char>)
    ensures
        text_le(a, b) || text_le(b, a),
{
    bytes_le_total(utf8::encode_utf8(a), utf8::encode_utf8(b));
}

/// Strings that come neither before nor after one another are the same.
pub proof fn text_order_is_antisymmetric(a: Seq<char>, b: Seq<char>)
    requires
        text_le(a, b),
        text_le(b, a),
    ensures
        a == b,
{
    bytes_le_antisymmetric(utf8::encode_utf8(a), utf8::encode_utf8(b));
    utf8::encode_utf8_decode_utf8(a);
    utf8::encode_utf8_decode_utf8(b);
}

/// What comes before a string comes before what the string comes before.
pub proof fn text_order_is_transitive(a: Seq<char>, b: Seq<char>, c: Seq<char>)
    requires
        text_le(a, b),
        text_le(b, c),
    ensures
        text_le(a, c),
{
    bytes_le_transitive(utf8::encode_utf8(a), utf8::encode_utf8(b), utf8::encode_utf8(c));
}

/// Strings are put in order by the first byte in which they differ.
pub proof fn first_difference_decides(
    a: Seq<char>,
    b: Seq<char>,
    same: Seq<u8>,
    x: u8,
    y: u8,
    rest_a: Seq<u8>,
    rest_b: Seq<u8>,
)
    requires
        utf8::encode_utf8(a) == same + seq![x] + rest_a,
        utf8::encode_utf8(b) == same + seq![y] + rest_b,
        x != y,
    ensures
        text_le(a, b) <==> x < y,
{
    bytes_differ(same, x, y, rest_a, rest_b);
}

/// What is the beginning of a string does not come after it.
pub proof fn beginnings_come_first(a: Seq<char>, b: Seq<char>, rest: Seq<u8>)
    requires
        utf8::encode_utf8(b) == utf8::encode_utf8(a) + rest,
    ensures
        text_le(a, b),
        rest.len() > 0 ==> !text_le(b, a),
{
    beginning_is_le(utf8::encode_utf8(a), rest);
}

proof fn bytes_differ(same: Seq<u8>, x: u8, y: u8, rest_a: Seq<u8>, rest_b: Seq<u8>)
    requires
        x != y,
    ensures
        bytes_le(same + seq![x] + rest_a, same + seq![y] + rest_b) <==> x < y,
    decreases same.len(),
{
    let a = same + seq![x] + rest_a;
    let b = same + seq![y] + rest_b;
    if same.len() == 0 {
        assert(a[0] == x && b[0] == y);
    } else {
        assert(a[0] == same[0] && b[0] == same[0]);
        assert(a.skip(1) =~= same.skip(1) + seq![x] + rest_a);
        assert(b.skip(1) =~= same.skip(1) + seq![y] + rest_b);
        bytes_differ(same.skip(1), x, y, rest_a, rest_b);
    }
}

proof fn beginning_is_le(a: Seq<u8>, rest: Seq<u8>)
    ensures
        bytes_le(a, a + rest),
        rest.len() > 0 ==> !bytes_le(a + rest, a),
    decreases a.len(),
{
    if a.len() > 0 {
        assert((a + rest).skip(1) =~= a.skip(1) + rest);
        beginning_is_le(a.skip(1), rest);
    }
}

proof fn bytes_le_total(a: Seq<u8>, b: Seq<u8>)
    ensures
        bytes_le(a, b) || bytes_le(b, a),
    decreases a.len(),
{
    if a.len() > 0 && b.len() > 0 && a[0] == b[0] {
        bytes_le_total(a.skip(1), b.skip(1));
    }
}

proof fn bytes_le_antisymmetric(a: Seq<u8>, b: Seq<u8>)
    requires
        bytes_le(a, b),
        bytes_le(b, a),
    ensures
        a == b,
    decreases a.len(),
{
    if a.len() > 0 && b.len() > 0 {
        bytes_le_antisymmetric(a.skip(1), b.skip(1));
        assert(a =~= seq![a[0]] + a.skip(1));
        assert(b =~= seq![b[0]] + b.skip(1));
    } else {
        assert(a =~= b);
    }
}

proof fn bytes_le_transitive(a: Seq<u8>, b: Seq<u8>, c: Seq<u8>)
    requires
        bytes_le(a, b),
        bytes_le(b, c),
    ensures
        bytes_le(a, c),
    decreases a.len(),
{
    if a.len() > 0 && b.len() > 0 && c.len() > 0 && a[0] == b[0] && b[0] == c[0] {
        bytes_le_transitive(a.skip(1), b.skip(1), c.skip(1));
    }
}

/// There is only one order of any keys, so the order of projects is fixed by their names
/// and by how they came.
pub proof fn order_is_unique(keys: Seq<Seq<char>>, a: Seq<int>, b: Seq<int>)
    requires
        orders(keys, a),
        orders(keys, b),
    ensures
        a == b,
{
    order_agrees_up_to(keys, a, b, keys.len() as int);
    assert(a =~= b);
}

proof fn order_agrees_up_to(keys: Seq<Seq<char>>, a: Seq<int>, b: Seq<int>, n: int)
    requires
        orders(keys, a),
        orders(keys, b),
        0 <= n <= keys.len(),
    ensures
        forall|i: int| 0 <= i < n ==> a[i] == b[i],
    decreases n,
{
    if n > 0 {
        order_agrees_up_to(keys, a, b, n - 1);
        let k = n - 1;
        if a[k] != b[k] {
            let i = position_of(keys, b, a[k]);
            let j = position_of(keys, a, b[k]);
            if i < k {
                assert(a[i] == b[i]);
            }
            if j < k {
                assert(a[j] == b[j]);
            }
            assert(b[k] != b[i] && a[k] != a[j]);
            text_order_is_antisymmetric(keys[a[k]], keys[b[k]]);
        }
    }
}

/// Every position is listed somewhere in an order.
pub proof fn position_of(keys: Seq<Seq<char>>, order: Seq<int>, p: int) -> (i: int)
    requires
        orders(keys, order),
        0 <= p < keys.len(),
    ensures
        0 <= i < order.len(),
        order[i] == p,
{
    if !order.contains(p) {
        let n = keys.len() as int;
        let all = vstd::set_lib::set_int_range(0, n);
        vstd::set_lib::lemma_int_range(0, n);
        assert(order.no_duplicates());
        order.unique_seq_to_set();
        assert(order.to_set().subset_of(all.remove(p)));
        vstd::set_lib::lemma_len_subset(order.to_set(), all.remove(p));
    }
    order.index_of(p)
}

/// Whether `a` does not come after `b` in the order of strings.
pub fn is_text_le(a: &str, b: &str) -> (r: bool)
    ensures
        r == text_le(a@, b@),
{
    let x = a.as_bytes();
    let y = b.as_bytes();
    let mut i: usize = 0;
    assert(x@.skip(0) =~= x@);
    assert(y@.skip(0) =~= y@);
    while i < x.len() && i < y.len() && x[i] == y[i]
        invariant
            i <= x@.len(),
            i <= y@.len(),
            bytes_le(x@, y@) == bytes_le(x@.skip(i as int), y@.skip(i as int)),
        decreases x@.len() - i,
    {
        assert(x@.skip(i as int).skip(1) =~= x@.skip(i + 1));
        assert(y@.skip(i as int).skip(1) =~= y@.skip(i + 1));
        i = i + 1;
    }
    if i == x.len() {
        true
    } else if i == y.len() {
        false
    } else {
        x[i] < y[i]
    }
}

/// Puts items in the order of their keys; items with equal keys stay as they came.
pub fn sort_by_keys(items: Vec<Project>, keys: Vec<String>) -> (r: Vec<Project>)
    requires
        items@.len() == keys@.len(),
    ensures
        exists|order: Seq<int>| #[trigger]
            orders(keys_view(keys@), order) && r@ == arranged(items@, order),
{
    let ghost all = items@;
    let ghost names = keys_view(keys@);
    let ghost mut order: Seq<int> = Seq::empty();
    let mut items = items;
    let mut keys = keys;
    let mut sorted: Vec<Project> = Vec::new();
    let mut sorted_keys: Vec<String> = Vec::new();
    assert(sorted@ =~= arranged(all, order));
    assert(all.take(items@.len() as int) =~= all);
    loop
        invariant
            items@.len() == keys@.len(),
            items@.len() <= all.len(),
            all.len() == names.len(),
            items@ == all.take(items@.len() as int),
            keys_view(keys@) == names.take(keys@.len() as int),
            orders_from(names, items@.len() as int, order),
            sorted@ == arranged(all, order),
            keys_view(sorted_keys@) == arranged(names, order),
        ensures
            items@.len() == 0,
            orders_from(names, 0, order),
            sorted@ == arranged(all, order),
        decreases items@.len(),
    {
        let ghost kept = keys_view(keys@);
        match (items.pop(), keys.pop()) {
            (Some(item), Some(key)) => {
                let ghost low = items@.len() as int;
                assert(kept[low] == key@);
                assert(names[low] == key@);
                assert(keys_view(sorted_keys@).len() == sorted_keys@.len());
                let ghost before = keys_view(sorted_keys@);
                let mut at: usize = 0;
                while at < sorted_keys.len() && !is_text_le(
                    key.as_str(),
                    sorted_keys[at].as_str(),
                )
                    invariant
                        at <= sorted_keys@.len(),
                        forall|i: int|
                            0 <= i < at ==> !text_le(key@, #[trigger] sorted_keys@[i]@),
                    decreases sorted_keys@.len() - at,
                {
                    at = at + 1;
                }
                proof {
                    insertion_keeps_order(names, low, order, at as int, before);
                    order = order.insert(at as int, low);
                }
                sorted.insert(at, item);
                sorted_keys.insert(at, key);
                assert(sorted@ =~= arranged(all, order));
                assert(keys_view(sorted_keys@) =~= before.insert(at as int, key@));
                assert(keys_view(sorted_keys@) =~= arranged(names, order));
                assert(items@ =~= all.take(items@.len() as int));
                assert(keys_view(keys@) =~= names.take(keys@.len() as int));
            },
            _ => {
                break;
            },
        }
    }
    assert(orders(names, order));
    sorted
}

/// A position goes before the positions of keys that do not come before its own.
proof fn insertion_keeps_order(
    keys: Seq<Seq<char>>,
    low: int,
    order: Seq<int>,
    at: int,
    sorted_keys: Seq<Seq<char>>,
)
    requires
        0 <= low < keys.len(),
        orders_from(keys, low + 1, order),
        sorted_keys == arranged(keys, order),
        0 <= at <= order.len(),
        forall|i: int| 0 <= i < at ==> !text_le(keys[low], #[trigger] sorted_keys[i]),
        at < order.len() ==> text_le(keys[low], sorted_keys[at]),
    ensures
        orders_from(keys, low, order.insert(at, low)),
{
    let new = order.insert(at, low);
    assert forall|i: int, j: int| 0 <= i < j < new.len() implies #[trigger] new[i]
        != #[trigger] new[j] && text_le(keys[new[i]], keys[new[j]]) && (keys[new[i]] == keys[new[j]]
        ==> new[i] < new[j]) by {
        if j == at {
            assert(new[i] == order[i]);
            assert(sorted_keys[i] == keys[order[i]]);
            text_order_is_total(keys[low], sorted_keys[i]);
        } else if i == at {
            let m = j - 1;
            assert(new[j] == order[m]);
            assert(sorted_keys[at] == keys[order[at]]);
            if m > at {
                text_order_is_transitive(keys[low], keys[order[at]], keys[order[m]]);
            }
        } else {
            let a = if i < at {
                i
            } else {
                i - 1
            };
            let b = if j < at {
                j
            } else {
                j - 1
            };
            assert(new[i] == order[a] && new[j] == order[b]);
        }
    }
}

/// Puts projects in the order of their names, without regard to case; projects of the
/// same name stay as they came.
pub fn sort_projects(projects: Vec<Project>) -> (r: Vec<Project>)
    ensures
        exists|order: Seq<int>| #[trigger]
            orders(name_keys(projects@), order) && r@ == arranged(projects@, order),
{
    let mut keys: Vec<String> = Vec::new();
    let mut i: usize = 0;
    while i < projects.len()
        invariant
            i <= projects@.len(),
            keys@.len() == i,
            forall|j: int| 0 <= j < i ==> #[trigger] keys@[j]@ == lowercase(projects@[j].name@),
        decreases projects@.len() - i,
    {
        keys.push(projects[i].name.as_str().to_lowercase());
        i = i + 1;
    }
    assert(keys_view(keys@) =~= name_keys(projects@));
    sort_by_keys(projects, keys)
}

} // verus!
