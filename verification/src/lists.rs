//! Lists in which every element occurs once.

use vstd::prelude::*;

verus! {

/// `list` without the first occurrence of `item`.
pub open spec fn without<T>(list: Seq<T>, item: T) -> Seq<T>
    decreases list.len(),
{
    if list.len() == 0 {
        list
    } else if list[0] == item {
        list.drop_first()
    } else {
        seq![list[0]] + without(list.drop_first(), item)
    }
}

/// Removing the only occurrence is removing at its position.
pub proof fn lemma_without_at<T>(list: Seq<T>, item: T, at: int)
    requires
        0 <= at < list.len(),
        list[at] == item,
        list.no_duplicates(),
    ensures
        without(list, item) == list.remove(at),
    decreases list.len(),
{
    if at == 0 {
        assert(list.drop_first() =~= list.remove(0));
    } else {
        assert(list[0] != list[at]);
        let rest = list.drop_first();
        assert(rest[at - 1] == item);
        assert forall|i: int, j: int|
            0 <= i < rest.len() && 0 <= j < rest.len() && i != j implies rest[i] != rest[j] by {
            assert(list[i + 1] != list[j + 1]);
        }
        lemma_without_at(rest, item, at - 1);
        assert(seq![list[0]] + rest.remove(at - 1) =~= list.remove(at));
    }
}

/// Removing what is not there changes nothing.
pub proof fn lemma_without_absent<T>(list: Seq<T>, item: T)
    requires
        !list.contains(item),
    ensures
        without(list, item) == list,
    decreases list.len(),
{
    if list.len() > 0 {
        assert(list[0] != item);
        let rest = list.drop_first();
        assert(!rest.contains(item)) by {
            if rest.contains(item) {
                let i = choose|i: int| 0 <= i < rest.len() && rest[i] == item;
                assert(list[i + 1] == item);
            }
        }
        lemma_without_absent(rest, item);
        assert(seq![list[0]] + rest =~= list);
    }
}

/// What is left after a removal.
pub proof fn lemma_without_contents<T>(list: Seq<T>, item: T)
    requires
        list.no_duplicates(),
    ensures
        without(list, item).no_duplicates(),
        forall|x: T| #[trigger]
            without(list, item).contains(x) <==> list.contains(x) && x != item,
        without(list, item).len() == if list.contains(item) {
            list.len() - 1
        } else {
            list.len() as int
        },
{
    let left = without(list, item);
    if list.contains(item) {
        let at = choose|i: int| 0 <= i < list.len() && list[i] == item;
        lemma_without_at(list, item, at);
        assert forall|x: T| #[trigger] left.contains(x) <==> list.contains(x) && x != item by {
            if left.contains(x) {
                let i = choose|i: int| 0 <= i < left.len() && left[i] == x;
                let k = if i < at {
                    i
                } else {
                    i + 1
                };
                assert(list[k] == x);
                assert(list[k] != list[at]);
            }
            if list.contains(x) && x != item {
                let k = choose|k: int| 0 <= k < list.len() && list[k] == x;
                if k < at {
                    assert(left[k] == x);
                } else {
                    assert(left[k - 1] == x);
                }
            }
        }
        assert forall|i: int, j: int|
            0 <= i < left.len() && 0 <= j < left.len() && i != j implies left[i] != left[j] by {
            let a = if i < at {
                i
            } else {
                i + 1
            };
            let b = if j < at {
                j
            } else {
                j + 1
            };
            assert(list[a] != list[b]);
        }
    } else {
        lemma_without_absent(list, item);
    }
}

/// Whether `a` stands somewhere in front of `b`.
pub open spec fn precedes<T>(list: Seq<T>, a: T, b: T) -> bool {
    exists|i: int, j: int|
        0 <= i < j < list.len() && #[trigger] list[i] == a && #[trigger] list[j] == b
}

/// Whether `left` holds only items of `list`, in the order they have there.
pub open spec fn keeps_order<T>(list: Seq<T>, left: Seq<T>) -> bool {
    &&& forall|x: T| #[trigger] left.contains(x) ==> list.contains(x)
    &&& forall|a: T, b: T| #[trigger]
        precedes(list, a, b) && left.contains(a) && left.contains(b) ==> precedes(left, a, b)
}

/// A removal keeps the order of what is left.
pub proof fn lemma_without_keeps_order<T>(list: Seq<T>, item: T)
    requires
        list.no_duplicates(),
    ensures
        keeps_order(list, without(list, item)),
{
    let left = without(list, item);
    lemma_without_contents(list, item);
    if list.contains(item) {
        let at = choose|i: int| 0 <= i < list.len() && list[i] == item;
        lemma_without_at(list, item, at);
        assert forall|a: T, b: T| #[trigger]
            precedes(list, a, b) && left.contains(a) && left.contains(b) implies precedes(
            left,
            a,
            b,
        ) by {
            let (i, j) = choose|i: int, j: int|
                0 <= i < j < list.len() && #[trigger] list[i] == a && #[trigger] list[j] == b;
            assert(i != at && j != at);
            let x = if i < at {
                i
            } else {
                i - 1
            };
            let y = if j < at {
                j
            } else {
                j - 1
            };
            assert(left[x] == a);
            assert(left[y] == b);
        }
    } else {
        lemma_without_absent(list, item);
    }
}

} // verus!
