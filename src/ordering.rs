//! The order in which files are emitted.
use vstd::prelude::*;

verus! {

/// Lexicographic order on bytes, a proper prefix first: the order of
/// `str` and `String`.
pub open spec fn bytes_lt(a: Seq<u8>, b: Seq<u8>) -> bool
    decreases a.len(),
{
    if a.len() == 0 {
        b.len() > 0
    } else if b.len() == 0 {
        false
    } else if a[0] != b[0] {
        a[0] < b[0]
    } else {
        bytes_lt(a.drop_first(), b.drop_first())
    }
}

proof fn lemma_bytes_lt_total(a: Seq<u8>, b: Seq<u8>)
    ensures
        bytes_lt(a, b) || bytes_lt(b, a) || a == b,
        !(bytes_lt(a, b) && bytes_lt(b, a)),
    decreases a.len(),
{
    if a.len() > 0 && b.len() > 0 && a[0] == b[0] {
        lemma_bytes_lt_total(a.drop_first(), b.drop_first());
        if a.drop_first() == b.drop_first() {
            assert(a =~= seq![a[0]] + a.drop_first());
            assert(b =~= seq![b[0]] + b.drop_first());
        }
    } else if a.len() == 0 && b.len() == 0 {
        assert(a =~= b);
    }
}

proof fn lemma_bytes_lt_transitive(a: Seq<u8>, b: Seq<u8>, c: Seq<u8>)
    requires
        bytes_lt(a, b),
        bytes_lt(b, c),
    ensures
        bytes_lt(a, c),
    decreases a.len(),
{
    if a.len() > 0 && b.len() > 0 && c.len() > 0 && a[0] == b[0] && b[0] == c[0] {
        lemma_bytes_lt_transitive(a.drop_first(), b.drop_first(), c.drop_first());
    }
}

/// A file's sort key: its size and the bytes of its relative path.
pub type Key = (u64, Seq<u8>);

/// Whether `a` goes strictly before `b`: larger files first and then by path
/// where `biggest_first`, otherwise by path alone.
pub open spec fn key_lt(a: Key, b: Key, biggest_first: bool) -> bool {
    if biggest_first {
        a.0 > b.0 || (a.0 == b.0 && bytes_lt(a.1, b.1))
    } else {
        bytes_lt(a.1, b.1)
    }
}

proof fn lemma_key_lt_order(a: Key, b: Key, c: Key, biggest_first: bool)
    ensures
        key_lt(a, b, biggest_first) ==> !key_lt(b, a, biggest_first),
        !key_lt(b, a, biggest_first) && !key_lt(c, b, biggest_first) ==> !key_lt(
            c,
            a,
            biggest_first,
        ),
{
    lemma_bytes_lt_total(a.1, b.1);
    lemma_bytes_lt_total(b.1, c.1);
    lemma_bytes_lt_total(a.1, c.1);
    let (x, y, z) = (a.1, b.1, c.1);
    if bytes_lt(x, y) && bytes_lt(y, z) {
        lemma_bytes_lt_transitive(x, y, z);
    }
    if bytes_lt(x, z) && bytes_lt(z, y) {
        lemma_bytes_lt_transitive(x, z, y);
    }
    if bytes_lt(y, x) && bytes_lt(x, z) {
        lemma_bytes_lt_transitive(y, x, z);
    }
    if bytes_lt(y, z) && bytes_lt(z, x) {
        lemma_bytes_lt_transitive(y, z, x);
    }
    if bytes_lt(z, x) && bytes_lt(x, y) {
        lemma_bytes_lt_transitive(z, x, y);
    }
    if bytes_lt(z, y) && bytes_lt(y, x) {
        lemma_bytes_lt_transitive(z, y, x);
    }
}

/// A file as the order sees it: its size and its path relative to the root.
pub struct FileKey {
    pub size: u64,
    pub rel: String,
}

pub open spec fn key_of(k: FileKey) -> Key {
    (k.size, vstd::utf8::encode_utf8(k.rel@))
}

/// Whether `order` lists the keys from first to last: no key comes after
/// one that should follow it.
pub open spec fn in_order(keys: Seq<FileKey>, order: Seq<usize>, biggest_first: bool) -> bool {
    forall|i: int, j: int|
        0 <= i < j < order.len() ==> !key_lt(
            key_of(keys[order[j] as int]),
            key_of(keys[order[i] as int]),
            biggest_first,
        )
}

/// Whether `order` names each index below `n` exactly once.
pub open spec fn is_permutation(order: Seq<usize>, n: int) -> bool {
    &&& order.len() == n
    &&& forall|i: int| 0 <= i < order.len() ==> #[trigger] order[i] < n
    &&& forall|i: int, j: int| 0 <= i < j < order.len() ==> order[i] != order[j]
}

fn bytes_less(a: &[u8], b: &[u8]) -> (r: bool)
    ensures
        r == bytes_lt(a@, b@),
{
    let mut i: usize = 0;
    assert(a@.skip(0) =~= a@);
    assert(b@.skip(0) =~= b@);
    while i < a.len() && i < b.len()
        invariant
            i <= a@.len(),
            i <= b@.len(),
            bytes_lt(a@, b@) == bytes_lt(a@.skip(i as int), b@.skip(i as int)),
        decreases a@.len() - i,
    {
        if a[i] != b[i] {
            return a[i] < b[i];
        }
        assert(a@.skip(i as int).drop_first() =~= a@.skip(i as int + 1));
        assert(b@.skip(i as int).drop_first() =~= b@.skip(i as int + 1));
        i = i + 1;
    }
    i == a.len() && i < b.len()
}

fn key_less(a: &FileKey, b: &FileKey, biggest_first: bool) -> (r: bool)
    ensures
        r == key_lt(key_of(*a), key_of(*b), biggest_first),
{
    let ab = a.rel.as_str().as_bytes();
    let bb = b.rel.as_str().as_bytes();
    if biggest_first {
        a.size > b.size || (a.size == b.size && bytes_less(ab, bb))
    } else {
        bytes_less(ab, bb)
    }
}

/// The order in which to emit files: the indices of `keys`, larger files
/// first and then by path where `biggest_first`, otherwise by path alone.
/// Paths compare byte by byte, as strings do.
pub fn order_files(keys: &Vec<FileKey>, biggest_first: bool) -> (order: Vec<usize>)
    ensures
        is_permutation(order@, keys@.len() as int),
        in_order(keys@, order@, biggest_first),
{
    let mut order: Vec<usize> = Vec::new();
    let mut i: usize = 0;
    while i < keys.len()
        invariant
            i <= keys@.len(),
            is_permutation(order@, i as int),
            in_order(keys@, order@, biggest_first),
        decreases keys@.len() - i,
    {
        let mut p: usize = order.len();
        while p > 0 && key_less(&keys[i], &keys[order[p - 1]], biggest_first)
            invariant
                p <= order@.len(),
                order@.len() == i,
                is_permutation(order@, i as int),
                i < keys@.len(),
                forall|q: int|
                    p <= q < order@.len() ==> key_lt(
                        key_of(keys@[i as int]),
                        #[trigger] key_of(keys@[order@[q] as int]),
                        biggest_first,
                    ),
            decreases p,
        {
            p = p - 1;
        }
        let ghost old_order = order@;
        order.insert(p, i);
        proof {
            let ki = key_of(keys@[i as int]);
            assert forall|x: int, y: int| 0 <= x < y < order@.len() implies !key_lt(
                key_of(keys@[order@[y] as int]),
                key_of(keys@[order@[x] as int]),
                biggest_first,
            ) by {
                let kx = key_of(keys@[order@[x] as int]);
                let ky = key_of(keys@[order@[y] as int]);
                if x == p as int {
                    lemma_key_lt_order(ki, ky, ky, biggest_first);
                } else if y == p as int {
                    let kl = key_of(keys@[old_order[p - 1] as int]);
                    lemma_key_lt_order(kx, kl, ki, biggest_first);
                    if x < p - 1 {
                        assert(!key_lt(kl, kx, biggest_first));
                    }
                } else {
                    let ox = if x < p { x } else { x - 1 };
                    let oy = if y < p { y } else { y - 1 };
                    assert(order@[x] == old_order[ox]);
                    assert(order@[y] == old_order[oy]);
                }
            }
        }
        i = i + 1;
    }
    order
}

} // verus!
