//! The shape shared by the metadata rules: a rule either holds or names the
//! first fault it finds, as a message; a list is checked item by item, each
//! item against the items before it.
use vstd::prelude::*;

use crate::base::error::AetherError;

verus! {

/// `a` when it names a fault, else `b`: the first of two checks that fails.
pub open spec fn first_of(a: Option<Seq<char>>, b: Option<Seq<char>>) -> Option<Seq<char>> {
    if a is Some {
        a
    } else {
        b
    }
}

/// The first fault in `items`, where `fault(earlier, item)` is the fault of
/// `item` given the items before it.
pub open spec fn first_fault<T>(
    items: Seq<T>,
    fault: spec_fn(Seq<T>, T) -> Option<Seq<char>>,
) -> Option<Seq<char>>
    decreases items.len(),
{
    if items.len() == 0 {
        None
    } else {
        first_of(first_fault(items.drop_last(), fault), fault(items.drop_last(), items.last()))
    }
}

/// `r` is what a validation returns for `fault`: `Ok` when there is none,
/// else a codec error whose message is the fault's text.
pub open spec fn reports(r: Result<(), AetherError>, fault: Option<Seq<char>>) -> bool {
    match fault {
        None => r is Ok,
        Some(m) => r matches Err(AetherError::Codec(s)) && s@ == m,
    }
}

/// Checking one more item: the first fault of the first `i + 1` items.
pub proof fn lemma_first_fault_step<T>(
    items: Seq<T>,
    fault: spec_fn(Seq<T>, T) -> Option<Seq<char>>,
    i: int,
)
    requires
        0 <= i < items.len(),
    ensures
        first_fault(items.take(i + 1), fault) == first_of(
            first_fault(items.take(i), fault),
            fault(items.take(i), items[i]),
        ),
{
    assert(items.take(i + 1).drop_last() =~= items.take(i));
}

/// A fault among the first `i` items is the first fault of all of them.
pub proof fn lemma_first_fault_extends<T>(
    items: Seq<T>,
    fault: spec_fn(Seq<T>, T) -> Option<Seq<char>>,
    i: int,
)
    requires
        0 <= i <= items.len(),
        first_fault(items.take(i), fault) is Some,
    ensures
        first_fault(items, fault) == first_fault(items.take(i), fault),
    decreases items.len() - i,
{
    if i < items.len() {
        lemma_first_fault_step(items, fault, i);
        lemma_first_fault_extends(items, fault, i + 1);
    } else {
        assert(items.take(i) =~= items);
    }
}

/// All items checked: the first fault of the whole list.
pub proof fn lemma_first_fault_all<T>(
    items: Seq<T>,
    fault: spec_fn(Seq<T>, T) -> Option<Seq<char>>,
)
    ensures
        first_fault(items.take(items.len() as int), fault) == first_fault(items, fault),
{
    assert(items.take(items.len() as int) =~= items);
}

/// No item is at fault exactly when the whole list has no fault.
pub proof fn lemma_first_fault_none<T>(
    items: Seq<T>,
    fault: spec_fn(Seq<T>, T) -> Option<Seq<char>>,
)
    ensures
        first_fault(items, fault) is None <==> forall|i: int|
            0 <= i < items.len() ==> (#[trigger] fault(items.take(i), items[i])) is None,
    decreases items.len(),
{
    if items.len() > 0 {
        let e = items.drop_last();
        lemma_first_fault_none(e, fault);
        assert forall|i: int| 0 <= i < e.len() implies #[trigger] e.take(i) == items.take(i)
            && e[i] == items[i] by {
            assert(e.take(i) =~= items.take(i));
        }
        assert(e =~= items.take(items.len() - 1));
        if first_fault(items, fault) is None {
            assert forall|i: int| 0 <= i < items.len() implies (#[trigger] fault(
                items.take(i),
                items[i],
            )) is None by {
                if i < e.len() {
                    assert(e.take(i) == items.take(i) && e[i] == items[i]);
                    assert(fault(e.take(i), e[i]) is None);
                }
            }
        } else {
            if forall|i: int| 0 <= i < items.len() ==> (#[trigger] fault(items.take(i), items[i])) is None {
                assert forall|i: int| 0 <= i < e.len() implies (#[trigger] fault(e.take(i), e[i])) is None by {
                    assert(e.take(i) == items.take(i) && e[i] == items[i]);
                    assert(fault(items.take(i), items[i]) is None);
                }
                let k = items.len() - 1;
                assert(fault(items.take(k), items[k]) is None);
            }
        }
    }
}

} // verus!
