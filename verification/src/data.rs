//! The element types and shapes of numeric arrays.

use vstd::prelude::*;

use crate::edit::error::EditError;
use crate::ids::DataId;

verus! {

/// The element type of a numeric array.
#[derive(Debug, Clone, Copy, PartialEq, Eq, Hash, Structural)]
pub enum NdArrayElement {
    /// 64-bit floating-point values.
    F64,
    /// 8-bit unsigned integers.
    U8,
}

impl NdArrayElement {
    /// Returns the name of the element type as messages write it: `f64` or `u8`.
    pub fn name(&self) -> (r: &'static str)
        ensures
            r@ == (match *self {
                NdArrayElement::F64 => "f64"@,
                NdArrayElement::U8 => "u8"@,
            }),
    {
        match self {
            NdArrayElement::F64 => "f64",
            NdArrayElement::U8 => "u8",
        }
    }
}

/// The number of values does not equal the product of an array's shape.
#[derive(Debug, Clone, PartialEq, Eq)]
pub struct InvalidShape {
    /// The requested shape.
    pub shape: Vec<usize>,
    /// The number of values supplied.
    pub len: usize,
}

/// The product of the dimensions of a shape, multiplied from the first, or `None` when
/// a partial product exceeds the largest `usize`.
pub open spec fn checked_product(shape: Seq<usize>) -> Option<nat>
    decreases shape.len(),
{
    if shape.len() == 0 {
        Some(1)
    } else {
        match checked_product(shape.drop_last()) {
            None => None,
            Some(p) => if p * (shape.last() as nat) <= usize::MAX {
                Some(p * (shape.last() as nat))
            } else {
                None
            },
        }
    }
}

/// The product of the dimensions of a shape: 1 for no dimension.
pub open spec fn shape_product(shape: Seq<usize>) -> nat
    decreases shape.len(),
{
    if shape.len() == 0 {
        1
    } else {
        shape_product(shape.drop_last()) * (shape.last() as nat)
    }
}

/// The product multiplied from the first dimension, where it fits, is the product of the
/// shape; where a partial product does not fit, the product is zero or does not fit
/// either; and the product is zero exactly when a dimension is.
pub proof fn lemma_checked_product(shape: Seq<usize>)
    ensures
        checked_product(shape) matches Some(p) ==> p == shape_product(shape),
        checked_product(shape) is None ==> shape_product(shape) == 0 || shape_product(shape) > usize::MAX,
        shape_product(shape) == 0 <==> shape.contains(0usize),
    decreases shape.len(),
{
    if shape.len() > 0 {
        let rest = shape.drop_last();
        let d = shape.last() as nat;
        lemma_checked_product(rest);
        let q = shape_product(rest);
        assert(q * d == 0 <==> (q == 0 || d == 0)) by (nonlinear_arith);
        assert(d >= 1 && q > usize::MAX ==> q * d > usize::MAX) by (nonlinear_arith);
        assert(shape.contains(0usize) <==> (rest.contains(0usize) || shape.last() == 0)) by {
            if shape.contains(0usize) {
                let k = choose|k: int| 0 <= k < shape.len() && shape[k] == 0usize;
                if k < shape.len() - 1 {
                    assert(rest[k] == 0usize);
                }
            }
            if rest.contains(0usize) {
                let k = choose|k: int| 0 <= k < rest.len() && rest[k] == 0usize;
                assert(shape[k] == 0usize);
            }
            if shape.last() == 0 {
                assert(shape[shape.len() - 1] == 0usize);
            }
        }
    }
}

/// Returns whether the product of the dimensions of a shape equals `len`.
pub fn shape_fills(shape: &Vec<usize>, len: usize) -> (r: bool)
    ensures
        r == (shape_product(shape@) == len as nat),
{
    // A dimension of zero makes the product zero, whatever the dimensions around it.
    let mut j: usize = 0;
    while j < shape.len()
        invariant
            j <= shape@.len(),
            forall|k: int| 0 <= k < j ==> shape@[k] != 0usize,
        decreases shape.len() - j,
    {
        if shape[j] == 0 {
            proof {
                assert(shape@[j as int] == 0usize);
                lemma_checked_product(shape@);
            }
            return len == 0;
        }
        j = j + 1;
    }
    proof {
        lemma_checked_product(shape@);
    }
    let mut product: usize = 1;
    let mut i: usize = 0;
    while i < shape.len()
        invariant
            i <= shape@.len(),
            !shape@.contains(0usize),
            shape_product(shape@) != 0,
            checked_product(shape@.take(i as int)) == Some(product as nat),
            shape_product(shape@) == 0 || shape_product(shape@) > usize::MAX || checked_product(shape@) is Some,
            checked_product(shape@) matches Some(p) ==> p == shape_product(shape@),
        decreases shape.len() - i,
    {
        assert(shape@.take(i + 1).drop_last() =~= shape@.take(i as int));
        match product.checked_mul(shape[i]) {
            Some(p) => product = p,
            None => {
                proof {
                    lemma_overflow_stays(shape@, i as int + 1);
                }
                return false;
            },
        }
        i = i + 1;
    }
    assert(shape@.take(i as int) =~= shape@);
    product == len
}

/// Returns the shape when the product of its dimensions equals `len`.
///
/// # Errors
///
/// Returns [`InvalidShape`] with the shape and the length otherwise.
pub fn checked_shape(shape: Vec<usize>, len: usize) -> (r: Result<Vec<usize>, InvalidShape>)
    ensures
        r is Ok <==> shape_product(shape@) == len as nat,
        r matches Ok(s) ==> s@ == shape@,
        r matches Err(e) ==> e.shape@ == shape@ && e.len == len,
{
    if shape_fills(&shape, len) {
        Ok(shape)
    } else {
        Err(InvalidShape { shape, len })
    }
}

/// Once a partial product exceeds the largest `usize`, so does every longer one.
proof fn lemma_overflow_stays(shape: Seq<usize>, n: int)
    requires
        0 <= n <= shape.len(),
        checked_product(shape.take(n)) is None,
    ensures
        checked_product(shape) is None,
    decreases shape.len() - n,
{
    if n < shape.len() {
        assert(shape.take(n + 1).drop_last() =~= shape.take(n));
        lemma_overflow_stays(shape, n + 1);
    } else {
        assert(shape.take(n) =~= shape);
    }
}

/// The number of entries an append keeps of `total`: all of them without `retain`, and
/// `retain` otherwise, which counts as the largest `usize` when it exceeds it.
pub open spec fn kept_entries(total: nat, retain: Option<u64>) -> nat {
    match retain {
        None => total,
        Some(k) => if k <= usize::MAX {
            k as nat
        } else {
            usize::MAX as nat
        },
    }
}

/// Whether entries of a shape can be appended to an array of another: both have a
/// dimension, and they agree after the first.
pub open spec fn shapes_agree(existing: Seq<usize>, appended: Seq<usize>) -> bool {
    existing.len() > 0 && appended.len() > 0 && existing.drop_first() == appended.drop_first()
}

/// Whether appending entries computes only numbers that fit in a `usize` and discards
/// no more values than the array then holds.
pub open spec fn append_fits(existing: Seq<usize>, len: nat, appended: Seq<usize>, appended_len: nat, retain: Option<u64>) -> bool {
    shapes_agree(existing, appended) ==> {
        let total = existing[0] + appended[0];
        let kept = kept_entries(total as nat, retain);
        &&& total <= usize::MAX
        &&& kept < total ==> (checked_product(existing.drop_first()) matches Some(entry)
            && (total - kept) * entry <= len + appended_len)
    }
}

/// The shape of an array after entries are appended: its first dimension counts the
/// entries kept, all of them unless `retain` is fewer.
pub open spec fn spec_appended_shape(existing: Seq<usize>, appended: Seq<usize>, retain: Option<u64>) -> Seq<usize> {
    let total = (existing[0] + appended[0]) as nat;
    existing.update(0, if kept_entries(total, retain) < total {
        kept_entries(total, retain) as usize
    } else {
        total as usize
    })
}

/// The number of values discarded from the front when entries are appended.
pub open spec fn discarded_values(existing: Seq<usize>, appended: Seq<usize>, retain: Option<u64>) -> nat {
    let total = (existing[0] + appended[0]) as nat;
    let kept = kept_entries(total, retain);
    if kept < total {
        ((total - kept) * checked_product(existing.drop_first())->Some_0) as nat
    } else {
        0
    }
}

/// Appends entries to an array along its first dimension; with `retain`, only the last
/// `retain` entries are kept, which gives a rolling window for streamed data.
///
/// # Errors
///
/// Returns [`EditError::ShapeMismatch`] with the identifier and both shapes, leaving the
/// array unchanged, when either array has no dimension or their shapes differ after the
/// first dimension.
pub fn append_entries<T>(
    id: DataId,
    shape: &mut Vec<usize>,
    values: &mut Vec<T>,
    appended_shape: &Vec<usize>,
    appended: Vec<T>,
    retain: Option<u64>,
) -> (r: Result<(), EditError>)
    requires
        append_fits(old(shape)@, old(values)@.len(), appended_shape@, appended@.len(), retain),
    ensures
        r is Ok <==> shapes_agree(old(shape)@, appended_shape@),
        r matches Err(e) ==> e matches EditError::ShapeMismatch { edit, id: i, existing, appended: a }
            && edit is None && i == id && existing@ == old(shape)@ && a@ == appended_shape@
            && final(shape)@ == old(shape)@ && final(values)@ == old(values)@,
        r is Ok ==> final(shape)@ == spec_appended_shape(old(shape)@, appended_shape@, retain)
            && final(values)@ == (old(values)@ + appended@).skip(discarded_values(old(shape)@, appended_shape@, retain) as int),
{
    let mut agree = shape.len() > 0 && appended_shape.len() > 0 && shape.len() == appended_shape.len();
    let mut i: usize = 1;
    while agree && i < shape.len()
        invariant
            1 <= i,
            agree ==> shape@.len() > 0 && shape@.len() == appended_shape@.len() && i <= shape@.len(),
            agree ==> forall|k: int| 1 <= k < i ==> shape@[k] == appended_shape@[k],
            !agree ==> !shapes_agree(shape@, appended_shape@),
            shape@ == old(shape)@,
        decreases shape.len() - i + (if agree { 1int } else { 0int }),
    {
        if shape[i] != appended_shape[i] {
            assert(shape@.drop_first()[i - 1] != appended_shape@.drop_first()[i - 1]);
            agree = false;
        } else {
            i = i + 1;
        }
    }
    if !agree {
        let mut existing: Vec<usize> = Vec::new();
        let mut k: usize = 0;
        while k < shape.len()
            invariant
                k <= shape@.len(),
                existing@ == shape@.take(k as int),
            decreases shape.len() - k,
        {
            existing.push(shape[k]);
            assert(existing@ =~= shape@.take(k + 1));
            k = k + 1;
        }
        assert(existing@ =~= shape@);
        let mut a: Vec<usize> = Vec::new();
        let mut k: usize = 0;
        while k < appended_shape.len()
            invariant
                k <= appended_shape@.len(),
                a@ == appended_shape@.take(k as int),
            decreases appended_shape.len() - k,
        {
            a.push(appended_shape[k]);
            assert(a@ =~= appended_shape@.take(k + 1));
            k = k + 1;
        }
        assert(a@ =~= appended_shape@);
        return Err(EditError::ShapeMismatch { edit: None, id, existing, appended: a });
    }
    assert(shape@.drop_first() =~= appended_shape@.drop_first());
    let total = shape[0] + appended_shape[0];
    let mut appended = appended;
    values.append(&mut appended);
    let kept: usize = match retain {
        None => total,
        Some(k) => if k <= usize::MAX as u64 { k as usize } else { usize::MAX },
    };
    if kept < total {
        let ghost rest = shape@.drop_first();
        let mut entry: usize = 1;
        let mut j: usize = 1;
        while j < shape.len()
            invariant
                1 <= j <= shape@.len(),
                rest == shape@.drop_first(),
                checked_product(rest) is Some,
                checked_product(rest.take(j - 1)) == Some(entry as nat),
            decreases shape.len() - j,
        {
            assert(rest.take(j as int).drop_last() =~= rest.take(j - 1));
            assert(rest.take(j as int).last() == shape@[j as int]);
            proof {
                lemma_product_prefix_fits(rest, j as int);
            }
            entry = entry * shape[j];
            j = j + 1;
        }
        assert(rest.take(j - 1) =~= rest);
        assert(kept as nat == kept_entries(total as nat, retain));
        assert(checked_product(old(shape)@.drop_first()) == Some(entry as nat));
        let n = values.len();
        assert((total - kept) * entry <= n);
        let discarded = (total - kept) * entry;
        let tail = values.split_off(discarded);
        *values = tail;
        shape.set(0, kept);
    } else {
        shape.set(0, total);
    }
    Ok(())
}

/// Every prefix of a shape whose product fits in a `usize` has a product that fits too.
pub proof fn lemma_product_prefix_fits(shape: Seq<usize>, n: int)
    requires
        0 <= n <= shape.len(),
        checked_product(shape) is Some,
    ensures
        checked_product(shape.take(n)) is Some,
    decreases shape.len() - n,
{
    if n < shape.len() {
        lemma_product_prefix_fits(shape, n + 1);
        assert(shape.take(n + 1).drop_last() =~= shape.take(n));
    } else {
        assert(shape.take(n) =~= shape);
    }
}

/// Whether identifiers ascend strictly, as the keys of a data table do.
pub open spec fn ascending_ids(ids: Seq<DataId>) -> bool {
    forall|i: int, j: int| 0 <= i < j < ids.len() ==> ids[i].0 < ids[j].0
}

/// Returns the identifier that a new array of a data table is given: one more than the
/// largest identifier in use, or, when the largest identifier is taken, the smallest one
/// that is not in use. `used` holds the identifiers of the table in ascending order.
pub fn next_data_id(used: &Vec<DataId>) -> (r: DataId)
    requires
        ascending_ids(used@),
    ensures
        !used@.contains(r),
        used@.len() == 0 ==> r == DataId(0),
        used@.len() > 0 && used@.last().0 < u64::MAX ==> r.0 == used@.last().0 + 1,
        used@.len() > 0 && used@.last().0 == u64::MAX ==> forall|k: u64| k < r.0 ==> used@.contains(DataId(k)),
{
    let n = used.len();
    if n == 0 {
        return DataId(0);
    }
    let last = used[n - 1].0;
    if last < u64::MAX {
        assert forall|j: int| 0 <= j < used@.len() implies used@[j] != DataId((last + 1) as u64) by {
            if j < used@.len() - 1 {
                assert(used@[j].0 < used@[used@.len() - 1].0);
            }
        }
        return DataId(last + 1);
    }
    let mut i: usize = 0;
    while i < n && used[i].0 == i as u64
        invariant
            n == used@.len(),
            i <= n,
            ascending_ids(used@),
            used@.last().0 == u64::MAX,
            forall|k: int| 0 <= k < i ==> used@[k].0 == k,
        decreases n - i,
    {
        i = i + 1;
    }
    if i == n {
        assert(used@[n - 1].0 == n - 1);
        assert(false);
    }
    let candidate = DataId(i as u64);
    assert(used@[i as int].0 > i) by {
        if i > 0 {
            assert(used@[i - 1].0 < used@[i as int].0);
        }
    }
    assert forall|j: int| 0 <= j < used@.len() implies used@[j] != candidate by {
        if j < i {
            assert(used@[j].0 == j);
        } else if j > i {
            assert(used@[i as int].0 < used@[j].0);
        }
    }
    assert forall|k: u64| k < candidate.0 implies used@.contains(DataId(k)) by {
        assert(used@[k as int].0 == k);
        assert(used@[k as int] == DataId(k));
    }
    candidate
}

} // verus!
