use vstd::arithmetic::div_mod::lemma_fundamental_div_mod_converse;
use vstd::prelude::*;

verus! {

/// A fixed-size, tightly packed value that can be sent to the device.
///
/// The packed layout is a sequence of 32-bit words; every value of one type
/// has the same, non-zero number of words.
pub trait Record: Sized {
    /// Number of 32-bit words in the packed layout of this type.
    spec fn word_count() -> nat;

    /// The packed layout of this value.
    spec fn words(&self) -> Seq<u32>;

    /// Every value packs to exactly `word_count()` words, and at least one.
    proof fn lemma_layout(&self)
        ensures
            Self::word_count() > 0,
            self.words().len() == Self::word_count(),
    ;

    fn word_len() -> (n: usize)
        ensures
            n == Self::word_count(),
            n > 0,
    ;

    /// Appends the packed layout of this value to `out`.
    fn encode(&self, out: &mut Vec<u32>)
        ensures
            final(out)@ == old(out)@ + self.words(),
    ;
}

impl Record for u32 {
    open spec fn word_count() -> nat {
        1
    }

    open spec fn words(&self) -> Seq<u32> {
        seq![*self]
    }

    proof fn lemma_layout(&self) {
    }

    fn word_len() -> (n: usize) {
        1
    }

    fn encode(&self, out: &mut Vec<u32>) {
        out.push(*self);
        assert(out@ =~= old(out)@ + self.words());
    }
}

/// The packed layout of a dense sequence of records: record `i` occupies the
/// words `[i * word_count, (i + 1) * word_count)`.
pub open spec fn flatten<T: Record>(records: Seq<T>) -> Seq<u32> {
    Seq::new(
        records.len() * T::word_count(),
        |k: int| records[k / (T::word_count() as int)].words()[k % (T::word_count() as int)],
    )
}

/// Word `k` belongs to record `n` exactly when it lies in that record's slot.
pub proof fn lemma_word_slot(k: int, n: int, wc: int)
    requires
        wc > 0,
        n * wc <= k < (n + 1) * wc,
    ensures
        k / wc == n,
        k % wc == k - n * wc,
{
    assert((n + 1) * wc == n * wc + wc) by (nonlinear_arith);
    lemma_fundamental_div_mod_converse(k, wc, n, k - n * wc);
}

/// `a * wc <= b * wc` for `a <= b`.
pub proof fn lemma_slots_monotonic(a: int, b: int, wc: int)
    requires
        0 <= a <= b,
        wc >= 0,
    ensures
        a * wc <= b * wc,
        (b - a) * wc == b * wc - a * wc,
{
    assert(a * wc <= b * wc) by (nonlinear_arith)
        requires
            0 <= a <= b,
            wc >= 0,
    ;
    assert((b - a) * wc == b * wc - a * wc) by (nonlinear_arith);
}

/// Appending one record appends its packed layout.
pub proof fn lemma_flatten_push<T: Record>(records: Seq<T>, item: T)
    ensures
        flatten(records.push(item)) == flatten(records) + item.words(),
{
    item.lemma_layout();
    let wc = T::word_count() as int;
    let n = records.len() as int;
    let left = flatten(records.push(item));
    let right = flatten(records) + item.words();
    assert((n + 1) * wc == n * wc + wc) by (nonlinear_arith);
    assert(left.len() == right.len());
    assert forall|k: int| 0 <= k < left.len() implies left[k] == right[k] by {
        if k < n * wc {
            assert(k / wc < n) by {
                if k / wc >= n {
                    vstd::arithmetic::div_mod::lemma_fundamental_div_mod(k, wc);
                    vstd::arithmetic::div_mod::lemma_mod_bound(k, wc);
                    assert(wc * (k / wc) >= wc * n) by (nonlinear_arith)
                        requires
                            k / wc >= n,
                            wc > 0,
                    ;
                    assert(wc * n == n * wc) by (nonlinear_arith);
                }
            }
            assert(0 <= k / wc) by {
                vstd::arithmetic::div_mod::lemma_div_pos_is_pos(k, wc);
            }
        } else {
            lemma_word_slot(k, n, wc);
        }
    }
    assert(left =~= right);
}

/// The packed layout of a run of records is the matching run of words.
pub proof fn lemma_flatten_subrange<T: Record>(records: Seq<T>, start: int, end: int)
    requires
        0 <= start <= end <= records.len(),
    ensures
        start * T::word_count() <= end * T::word_count() <= flatten(records).len(),
        flatten(records.subrange(start, end)) == flatten(records).subrange(
            start * T::word_count(),
            end * T::word_count(),
        ),
{
    let wc = T::word_count() as int;
    lemma_slots_monotonic(start, end, wc);
    lemma_slots_monotonic(end, records.len() as int, wc);
    let left = flatten(records.subrange(start, end));
    let right = flatten(records).subrange(start * wc, end * wc);
    assert(left.len() == right.len());
    if wc > 0 {
        assert forall|k: int| 0 <= k < left.len() implies left[k] == right[k] by {
            let q = k / wc;
            vstd::arithmetic::div_mod::lemma_fundamental_div_mod(k, wc);
            vstd::arithmetic::div_mod::lemma_mod_bound(k, wc);
            vstd::arithmetic::div_mod::lemma_div_pos_is_pos(k, wc);
            assert(q < end - start) by {
                if q >= end - start {
                    assert(wc * q >= wc * (end - start)) by (nonlinear_arith)
                        requires
                            q >= end - start,
                            wc > 0,
                    ;
                    assert(wc * (end - start) == (end - start) * wc) by (nonlinear_arith);
                }
            }
            assert((start + q) * wc == start * wc + wc * q) by (nonlinear_arith);
            assert((start + q + 1) * wc == start * wc + wc * q + wc) by (nonlinear_arith);
            lemma_word_slot(start * wc + k, start + q, wc);
        }
    }
    assert(left =~= right);
}

/// Packs the records `[start, end)` of `records` into words.
pub fn encode_range<T: Record>(records: &Vec<T>, start: usize, end: usize) -> (out: Vec<u32>)
    requires
        start <= end <= records.len(),
    ensures
        out@ == flatten(records@.subrange(start as int, end as int)),
        out@.len() == (end - start) * T::word_count(),
{
    let mut out: Vec<u32> = Vec::new();
    let mut i: usize = start;
    assert(records@.subrange(start as int, start as int) =~= Seq::<T>::empty());
    assert(flatten(Seq::<T>::empty()) =~= Seq::<u32>::empty());
    while i < end
        invariant
            start <= i <= end <= records.len(),
            out@ == flatten(records@.subrange(start as int, i as int)),
        decreases end - i,
    {
        records[i].encode(&mut out);
        proof {
            lemma_flatten_push(records@.subrange(start as int, i as int), records@[i as int]);
            assert(records@.subrange(start as int, i as int).push(records@[i as int])
                =~= records@.subrange(start as int, i + 1));
        }
        i += 1;
    }
    out
}

} // verus!
