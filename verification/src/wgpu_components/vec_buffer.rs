use super::record::{encode_range, flatten, lemma_flatten_subrange, lemma_slots_monotonic, Record};
use super::{
    replay, Buffer, BufferSlice, BufferUsages, ContextView, Request, RequestView, ResourceKind,
    WgpuContext,
};
use vstd::prelude::*;

verus! {

/// Which records of a buffer the device has not seen yet.
#[derive(Clone, Copy, Debug, PartialEq, Eq, Structural)]
pub enum Dirty {
    /// The device copy is up to date.
    Clean,
    /// The records `[start, end)` may differ from the device copy.
    Range { start: usize, end: usize },
    /// Every record has to be sent again.
    Full,
}

impl Dirty {
    /// Record `index` is due for upload.
    pub open spec fn covers(self, index: int) -> bool {
        match self {
            Dirty::Clean => false,
            Dirty::Range { start, end } => start <= index < end,
            Dirty::Full => true,
        }
    }

    /// The descriptor after a record was appended at `index`.
    pub open spec fn after_push(self, index: usize) -> Dirty {
        match self {
            Dirty::Clean => Dirty::Range { start: index, end: (index + 1) as usize },
            Dirty::Range { start, end } => Dirty::Range { start, end: (index + 1) as usize },
            Dirty::Full => Dirty::Full,
        }
    }

    /// The descriptor after record `index` was handed out for mutation.
    pub open spec fn after_touch(self, index: usize) -> Dirty {
        match self {
            Dirty::Clean => Dirty::Range { start: index, end: (index + 1) as usize },
            Dirty::Range { start, end } => Dirty::Range {
                start: if index < start {
                    index
                } else {
                    start
                },
                end: if end < index + 1 {
                    (index + 1) as usize
                } else {
                    end
                },
            },
            Dirty::Full => Dirty::Full,
        }
    }
}

/// One mutation of the host sequence between two synchronizations.
pub enum Edit<T> {
    /// `push(item)`.
    Push(T),
    /// `get_mut(index)` followed by storing `item` there.
    Store(usize, T),
}

/// One call on a buffer.
pub enum Step<T> {
    /// `push` or `get_mut`.
    Edit(Edit<T>),
    /// `clear`.
    Clear,
    /// `view`, at a time when the handle that the context hands out next
    /// is the given one.
    View(Buffer),
}

/// The mathematical state of a [`VecBuffer`].
pub struct VecBufferModel<T> {
    /// The host-side records.
    pub data: Seq<T>,
    pub dirty: Dirty,
    /// The device buffer that mirrors `data`.
    pub buffer: Buffer,
    pub usage: BufferUsages,
    /// Number of records the device buffer has room for.
    pub capacity: nat,
    /// The words the device buffer holds once every request issued so far
    /// has been carried out.
    pub device: Seq<u32>,
}

impl<T: Record> VecBufferModel<T> {
    pub open spec fn wf(self) -> bool {
        &&& self.usage.copy_dst
        &&& self.data.len() <= usize::MAX
        &&& self.device.len() == self.capacity * T::word_count()
        &&& self.dirty matches Dirty::Range { start, end } ==> start < end <= self.data.len()
        &&& self.dirty == Dirty::Clean ==> self.data.len() <= self.capacity
        &&& self.dirty != Dirty::Full ==> forall|k: int|
            0 <= k < self.data.len() * T::word_count() && k < self.device.len() && !self.dirty.covers(
                k / (T::word_count() as int),
            ) ==> self.device[k] == #[trigger] flatten(self.data)[k]
    }

    /// The first `data.len()` records on the device equal the host records.
    pub open spec fn in_sync(self) -> bool {
        &&& self.data.len() <= self.capacity
        &&& self.device.subrange(0, (self.data.len() * T::word_count()) as int) == flatten(self.data)
    }

    /// The empty buffer as it is created through the context `ctx`.
    pub open spec fn created(ctx: ContextView) -> Self {
        VecBufferModel {
            data: Seq::empty(),
            dirty: Dirty::Clean,
            buffer: Buffer { id: ctx.next() as usize },
            usage: BufferUsages { vertex: true, uniform: false, copy_dst: true },
            capacity: 0,
            device: Seq::empty(),
        }
    }

    /// The context after an empty buffer for the given use was created.
    pub open spec fn creation_context(ctx: ContextView, usage: BufferUsages) -> ContextView {
        ctx.extended(
            seq![ResourceKind::Buffer],
            seq![
                RequestView::CreateBuffer {
                    buffer: Buffer { id: ctx.next() as usize },
                    usage: BufferUsages { copy_dst: true, ..usage },
                    contents: Seq::empty(),
                },
            ],
        )
    }

    pub open spec fn pushed(self, item: T) -> Self {
        VecBufferModel {
            data: self.data.push(item),
            dirty: self.dirty.after_push(self.data.len() as usize),
            ..self
        }
    }

    pub open spec fn touched(self, index: usize, item: T) -> Self {
        VecBufferModel {
            data: self.data.update(index as int, item),
            dirty: self.dirty.after_touch(index),
            ..self
        }
    }

    /// The state after each record of `items` was appended in turn.
    pub open spec fn pushed_all(self, items: Seq<T>) -> Self
        decreases items.len(),
    {
        if items.len() == 0 {
            self
        } else {
            self.pushed_all(items.drop_last()).pushed(items.last())
        }
    }

    /// The state after `items[k]` was stored at `slots[k]`, for each `k` in turn.
    pub open spec fn stored_all(self, slots: Seq<usize>, items: Seq<T>) -> Self
        recommends
            slots.len() == items.len(),
        decreases slots.len(),
    {
        if slots.len() == 0 || items.len() == 0 {
            self
        } else {
            self.stored_all(slots.drop_last(), items.drop_last()).touched(
                slots.last(),
                items.last(),
            )
        }
    }

    pub open spec fn cleared(self) -> Self {
        VecBufferModel { data: Seq::empty(), dirty: Dirty::Full, ..self }
    }

    /// The device buffer is too small for the host records.
    pub open spec fn must_reallocate(self) -> bool {
        self.capacity < self.data.len()
    }

    /// The requests that bring the device up to date; `fresh` is the handle a
    /// new device buffer gets if one is needed.
    pub open spec fn sync_requests(self, fresh: Buffer) -> Seq<RequestView> {
        if self.data.len() == 0 {
            Seq::empty()
        } else if self.must_reallocate() {
            seq![
                RequestView::DestroyBuffer { buffer: self.buffer },
                RequestView::CreateBuffer {
                    buffer: fresh,
                    usage: self.usage,
                    contents: flatten(self.data),
                },
            ]
        } else {
            match self.dirty {
                Dirty::Clean => Seq::empty(),
                Dirty::Range { start, end } => seq![
                    RequestView::WriteBuffer {
                        buffer: self.buffer,
                        offset: (start * T::word_count()) as nat,
                        contents: flatten(self.data.subrange(start as int, end as int)),
                    },
                ],
                Dirty::Full => seq![
                    RequestView::WriteBuffer {
                        buffer: self.buffer,
                        offset: 0,
                        contents: flatten(self.data),
                    },
                ],
            }
        }
    }

    /// The state after synchronization.
    pub open spec fn synced(self, fresh: Buffer) -> Self {
        if self.data.len() == 0 {
            self
        } else if self.must_reallocate() {
            VecBufferModel {
                dirty: Dirty::Clean,
                buffer: fresh,
                capacity: self.data.len(),
                device: flatten(self.data),
                ..self
            }
        } else {
            VecBufferModel {
                dirty: Dirty::Clean,
                device: Seq::new(
                    self.device.len(),
                    |k: int|
                        if k < self.data.len() * T::word_count() && self.dirty.covers(
                            k / (T::word_count() as int),
                        ) {
                            flatten(self.data)[k]
                        } else {
                            self.device[k]
                        },
                ),
                ..self
            }
        }
    }

    /// The handles that synchronization takes: one buffer if the device
    /// buffer has to be replaced, none otherwise.
    pub open spec fn sync_resources(self) -> Seq<ResourceKind> {
        if self.data.len() > 0 && self.must_reallocate() {
            seq![ResourceKind::Buffer]
        } else {
            Seq::empty()
        }
    }

    /// The state after synchronization through the context `ctx`.
    pub open spec fn synced_in(self, ctx: ContextView) -> Self {
        self.synced(Buffer { id: ctx.next() as usize })
    }

    /// The context after synchronization.
    pub open spec fn sync_context(self, ctx: ContextView) -> ContextView {
        ctx.extended(self.sync_resources(), self.sync_requests(Buffer { id: ctx.next() as usize }))
    }

    /// The view handed out for drawing: exactly the host records, if any.
    pub open spec fn slice(self) -> Option<BufferSlice> {
        if self.data.len() == 0 {
            None
        } else {
            Some(
                BufferSlice {
                    buffer: self.buffer,
                    words: (self.data.len() * T::word_count()) as usize,
                },
            )
        }
    }

    /// An edit that the buffer accepts in this state.
    pub open spec fn admits(self, edit: Edit<T>) -> bool {
        match edit {
            Edit::Push(_) => self.data.len() < usize::MAX,
            Edit::Store(index, _) => index < self.data.len(),
        }
    }

    pub open spec fn edited(self, edit: Edit<T>) -> Self {
        match edit {
            Edit::Push(item) => self.pushed(item),
            Edit::Store(index, item) => self.touched(index, item),
        }
    }

    /// The index that `edit` mutates in this state.
    pub open spec fn edit_index(self, edit: Edit<T>) -> int {
        match edit {
            Edit::Push(_) => self.data.len() as int,
            Edit::Store(index, _) => index as int,
        }
    }

    /// Every edit of `edits` is accepted when its turn comes.
    pub open spec fn admits_all(self, edits: Seq<Edit<T>>) -> bool
        decreases edits.len(),
    {
        edits.len() > 0 ==> self.admits_all(edits.drop_last()) && self.edited_all(
            edits.drop_last(),
        ).admits(edits.last())
    }

    /// The state after the edits of `edits`, in order.
    pub open spec fn edited_all(self, edits: Seq<Edit<T>>) -> Self
        decreases edits.len(),
    {
        if edits.len() == 0 {
            self
        } else {
            self.edited_all(edits.drop_last()).edited(edits.last())
        }
    }
}

impl<T: Record> VecBufferModel<T> {
    /// A call that the buffer accepts in this state.
    pub open spec fn admits_step(self, step: Step<T>) -> bool {
        match step {
            Step::Edit(edit) => self.admits(edit),
            _ => true,
        }
    }

    /// The state after the call `step`.
    pub open spec fn stepped(self, step: Step<T>) -> Self {
        match step {
            Step::Edit(edit) => self.edited(edit),
            Step::Clear => self.cleared(),
            Step::View(fresh) => self.synced(fresh),
        }
    }

    /// The requests that the call `step` issues.
    pub open spec fn step_requests(self, step: Step<T>) -> Seq<RequestView> {
        match step {
            Step::View(fresh) => self.sync_requests(fresh),
            _ => Seq::empty(),
        }
    }

    /// Every call of `steps` is accepted when its turn comes.
    pub open spec fn admits_steps(self, steps: Seq<Step<T>>) -> bool
        decreases steps.len(),
    {
        steps.len() > 0 ==> self.admits_steps(steps.drop_last()) && self.stepped_all(
            steps.drop_last(),
        ).admits_step(steps.last())
    }

    /// The state after the calls of `steps`, in order.
    pub open spec fn stepped_all(self, steps: Seq<Step<T>>) -> Self
        decreases steps.len(),
    {
        if steps.len() == 0 {
            self
        } else {
            self.stepped_all(steps.drop_last()).stepped(steps.last())
        }
    }

    /// All requests that the calls of `steps` issue, in order.
    pub open spec fn history_requests(self, steps: Seq<Step<T>>) -> Seq<RequestView>
        decreases steps.len(),
    {
        if steps.len() == 0 {
            Seq::empty()
        } else {
            self.history_requests(steps.drop_last()) + self.stepped_all(
                steps.drop_last(),
            ).step_requests(steps.last())
        }
    }
}

/// Carrying out two runs of requests one after the other is carrying out
/// the first, and then the second on what the first left.
pub proof fn lemma_replay_concat(
    first: Seq<RequestView>,
    second: Seq<RequestView>,
    buffer: Buffer,
    device: Seq<u32>,
)
    ensures
        replay(first + second, buffer, device) == replay(
            second,
            buffer,
            replay(first, buffer, device),
        ),
    decreases second.len(),
{
    if second.len() == 0 {
        assert(first + second =~= first);
    } else {
        assert((first + second).drop_last() =~= first + second.drop_last());
        assert((first + second).last() == second.last());
        lemma_replay_concat(first, second.drop_last(), buffer, device);
    }
}

impl<T: Record> VecBufferModel<T> {
    /// What the device buffer `buffer` held before the first call of a
    /// history that starts in this state: the mirror of this state, or
    /// nothing if the buffer did not exist yet.
    pub open spec fn held_before(self, buffer: Buffer) -> Seq<u32> {
        if buffer == self.buffer {
            self.device
        } else {
            Seq::empty()
        }
    }
}

/// Upload correctness over a whole history: whatever was pushed, mutated,
/// cleared and viewed, in whatever order, the state stays well-formed,
/// the device buffer holds what carrying out every request issued so far
/// leaves in it, and right after a `view` it holds exactly the host
/// records.
pub proof fn lemma_history_uploads<T: Record>(m: VecBufferModel<T>, steps: Seq<Step<T>>)
    requires
        m.wf(),
        m.admits_steps(steps),
    ensures
        m.stepped_all(steps).wf(),
        m.stepped_all(steps).device == replay(
            m.history_requests(steps),
            m.stepped_all(steps).buffer,
            m.held_before(m.stepped_all(steps).buffer),
        ),
        steps.len() > 0 && steps.last() is View && m.stepped_all(steps).data.len() > 0
            ==> m.stepped_all(steps).in_sync(),
    decreases steps.len(),
{
    if steps.len() > 0 {
        let front = steps.drop_last();
        let before = m.stepped_all(front);
        let after = m.stepped_all(steps);
        let past = m.history_requests(front);
        lemma_history_uploads(m, front);
        match steps.last() {
            Step::Edit(Edit::Push(item)) => {
                lemma_pushed_wf(before, item);
                assert(past + Seq::<RequestView>::empty() =~= past);
            },
            Step::Edit(Edit::Store(index, item)) => {
                lemma_touched_wf(before, index, item);
                assert(past + Seq::<RequestView>::empty() =~= past);
            },
            Step::Clear => {
                assert(past + Seq::<RequestView>::empty() =~= past);
            },
            Step::View(fresh) => {
                let now = before.sync_requests(fresh);
                let start = m.held_before(after.buffer);
                if before.data.len() == 0 {
                    assert(past + now =~= past);
                } else {
                    lemma_sync_uploads(before, fresh);
                    lemma_replay_concat(past, now, after.buffer, start);
                    if before.must_reallocate() {
                        reveal_with_fuel(replay, 3);
                        let left = replay(past, after.buffer, start);
                        assert(now.drop_last() =~= seq![
                            RequestView::DestroyBuffer { buffer: before.buffer },
                        ]);
                        assert(now.drop_last().drop_last() =~= Seq::<RequestView>::empty());
                        assert(replay(now, after.buffer, left) == flatten(before.data));
                    }
                }
            },
        }
    } else {
        reveal_with_fuel(replay, 1);
    }
}

proof fn lemma_word_record<T: Record>(data: Seq<T>, k: int)
    requires
        T::word_count() > 0,
        0 <= k < data.len() * T::word_count(),
    ensures
        0 <= k / (T::word_count() as int) < data.len(),
{
    let wc = T::word_count() as int;
    let q = k / wc;
    vstd::arithmetic::div_mod::lemma_fundamental_div_mod(k, wc);
    vstd::arithmetic::div_mod::lemma_mod_bound(k, wc);
    vstd::arithmetic::div_mod::lemma_div_pos_is_pos(k, wc);
    if q >= data.len() {
        assert(wc * q >= wc * data.len()) by (nonlinear_arith)
            requires
                q >= data.len(),
                wc > 0,
        ;
        assert(wc * data.len() == data.len() * wc) by (nonlinear_arith);
    }
}

/// Appending a record keeps the state well-formed.
pub proof fn lemma_pushed_wf<T: Record>(m: VecBufferModel<T>, item: T)
    requires
        m.wf(),
        m.data.len() < usize::MAX,
    ensures
        m.pushed(item).wf(),
        m.pushed(item).dirty.covers(m.data.len() as int),
        forall|i: int| m.dirty.covers(i) ==> m.pushed(item).dirty.covers(i),
{
    item.lemma_layout();
    let p = m.pushed(item);
    let wc = T::word_count() as int;
    if p.dirty != Dirty::Full {
        assert forall|k: int|
            0 <= k < p.data.len() * T::word_count() && k < p.device.len() && !p.dirty.covers(
                k / wc,
            ) implies p.device[k] == #[trigger] flatten(p.data)[k] by {
            lemma_word_record(p.data, k);
            let q = k / wc;
            assert(q != m.data.len());
            assert(q < m.data.len());
            assert(q * wc <= k) by {
                vstd::arithmetic::div_mod::lemma_fundamental_div_mod(k, wc);
                vstd::arithmetic::div_mod::lemma_mod_bound(k, wc);
                assert(wc * q == q * wc) by (nonlinear_arith);
            }
            assert(k < m.data.len() * wc) by {
                vstd::arithmetic::div_mod::lemma_fundamental_div_mod(k, wc);
                vstd::arithmetic::div_mod::lemma_mod_bound(k, wc);
                assert(wc * q + wc <= m.data.len() * wc) by (nonlinear_arith)
                    requires
                        q + 1 <= m.data.len(),
                        wc > 0,
                ;
            }
            assert(!m.dirty.covers(q));
            assert(m.device[k] == flatten(m.data)[k]);
            assert(p.data[q] == m.data[q]);
        }
    }
}

/// Handing out a record for mutation keeps the state well-formed, whatever
/// is stored there.
pub proof fn lemma_touched_wf<T: Record>(m: VecBufferModel<T>, index: usize, item: T)
    requires
        m.wf(),
        index < m.data.len(),
    ensures
        m.touched(index, item).wf(),
        m.touched(index, item).dirty.covers(index as int),
        forall|i: int| m.dirty.covers(i) ==> m.touched(index, item).dirty.covers(i),
{
    item.lemma_layout();
    let p = m.touched(index, item);
    let wc = T::word_count() as int;
    if p.dirty != Dirty::Full {
        assert forall|k: int|
            0 <= k < p.data.len() * T::word_count() && k < p.device.len() && !p.dirty.covers(
                k / wc,
            ) implies p.device[k] == #[trigger] flatten(p.data)[k] by {
            lemma_word_record(p.data, k);
            let q = k / wc;
            assert(q != index);
            assert(!m.dirty.covers(q));
            assert(m.device[k] == flatten(m.data)[k]);
            assert(p.data[q] == m.data[q]);
        }
    }
}

/// Dirty-range monotonicity: after any run of `push` and `get_mut` calls the
/// dirty descriptor covers every index that one of them mutated, and every
/// index that was due before.
pub proof fn lemma_dirty_covers_edits<T: Record>(m: VecBufferModel<T>, edits: Seq<Edit<T>>)
    requires
        m.wf(),
        m.admits_all(edits),
    ensures
        m.edited_all(edits).wf(),
        forall|i: int| m.dirty.covers(i) ==> m.edited_all(edits).dirty.covers(i),
        forall|j: int|
            0 <= j < edits.len() ==> m.edited_all(edits).dirty.covers(
                #[trigger] m.edited_all(edits.take(j)).edit_index(edits[j]),
            ),
    decreases edits.len(),
{
    if edits.len() > 0 {
        let front = edits.drop_last();
        let before = m.edited_all(front);
        lemma_dirty_covers_edits(m, front);
        match edits.last() {
            Edit::Push(item) => lemma_pushed_wf(before, item),
            Edit::Store(index, item) => lemma_touched_wf(before, index, item),
        }
        let after = m.edited_all(edits);
        assert forall|j: int| 0 <= j < edits.len() implies after.dirty.covers(
            #[trigger] m.edited_all(edits.take(j)).edit_index(edits[j]),
        ) by {
            if j < edits.len() - 1 {
                assert(front.take(j) =~= edits.take(j));
                assert(front[j] == edits[j]);
                assert(before.dirty.covers(m.edited_all(front.take(j)).edit_index(front[j])));
            } else {
                assert(edits.take(j) =~= front);
            }
        }
    }
}

/// Upload correctness: synchronizing a well-formed buffer leaves the device
/// with exactly the host records, and the device content is what the issued
/// requests produce.
pub proof fn lemma_sync_uploads<T: Record>(m: VecBufferModel<T>, fresh: Buffer)
    requires
        m.wf(),
        m.data.len() > 0,
    ensures
        m.synced(fresh).wf(),
        m.synced(fresh).in_sync(),
        m.synced(fresh).dirty == Dirty::Clean,
        m.synced(fresh).data == m.data,
        m.synced(fresh).device == replay(
            m.sync_requests(fresh),
            m.synced(fresh).buffer,
            m.device,
        ),
{
    m.data[0].lemma_layout();
    let s = m.synced(fresh);
    let wc = T::word_count() as int;
    let len = m.data.len() as int;
    let requests = m.sync_requests(fresh);
    reveal_with_fuel(replay, 3);
    if m.must_reallocate() {
        assert(s.device.subrange(0, len * wc) =~= flatten(m.data));
        assert(requests.drop_last() =~= seq![RequestView::DestroyBuffer { buffer: m.buffer }]);
        assert(requests.drop_last().drop_last() =~= Seq::<RequestView>::empty());
    } else {
        lemma_slots_monotonic(len, m.capacity as int, wc);
        assert forall|k: int| 0 <= k < len * wc implies s.device[k] == flatten(m.data)[k] by {
            if !m.dirty.covers(k / wc) {
                assert(m.dirty != Dirty::Full);
            }
        }
        assert(s.device.subrange(0, len * wc) =~= flatten(m.data));
        match m.dirty {
            Dirty::Clean => {
                assert(s.device =~= m.device);
            },
            Dirty::Range { start, end } => {
                lemma_flatten_subrange(m.data, start as int, end as int);
                lemma_slots_monotonic(start as int, end as int, wc);
                let contents = flatten(m.data.subrange(start as int, end as int));
                let written = requests[0].apply_to(m.buffer, m.device);
                assert(requests.drop_last() =~= Seq::<RequestView>::empty());
                assert(start * wc + contents.len() == end * wc);
                assert forall|k: int| 0 <= k < m.device.len() implies s.device[k]
                    == written[k] by {
                    if start * wc <= k < end * wc {
                        assert(start <= k / wc < end) by {
                            lemma_word_lower(k, start as int, wc);
                            lemma_word_upper(k, end as int, wc);
                        }
                        lemma_slots_monotonic(end as int, len, wc);
                    } else if k < len * wc {
                        if k < start * wc {
                            lemma_word_upper(k, start as int, wc);
                        } else {
                            lemma_word_lower(k, end as int, wc);
                        }
                    }
                }
                assert(s.device =~= written);
            },
            Dirty::Full => {
                let written = requests[0].apply_to(m.buffer, m.device);
                assert(requests.drop_last() =~= Seq::<RequestView>::empty());
                assert(s.device =~= written);
            },
        }
    }
}

proof fn lemma_word_upper(k: int, n: int, wc: int)
    requires
        wc > 0,
        0 <= k < n * wc,
    ensures
        k / wc < n,
{
    vstd::arithmetic::div_mod::lemma_fundamental_div_mod(k, wc);
    vstd::arithmetic::div_mod::lemma_mod_bound(k, wc);
    if k / wc >= n {
        assert(wc * (k / wc) >= wc * n) by (nonlinear_arith)
            requires
                k / wc >= n,
                wc > 0,
        ;
        assert(wc * n == n * wc) by (nonlinear_arith);
    }
}

proof fn lemma_word_lower(k: int, n: int, wc: int)
    requires
        wc > 0,
        0 <= n,
        n * wc <= k,
    ensures
        k / wc >= n,
{
    vstd::arithmetic::div_mod::lemma_fundamental_div_mod(k, wc);
    vstd::arithmetic::div_mod::lemma_mod_bound(k, wc);
    if k / wc < n {
        assert(wc * (k / wc) + wc <= wc * n) by (nonlinear_arith)
            requires
                k / wc + 1 <= n,
                wc > 0,
        ;
        assert(wc * n == n * wc) by (nonlinear_arith);
    }
}

/// Idempotent view: synchronizing twice in a row issues no request the
/// second time and leaves the state as the first synchronization left it.
pub proof fn lemma_sync_idempotent<T: Record>(m: VecBufferModel<T>, first: Buffer, second: Buffer)
    requires
        m.wf(),
    ensures
        m.synced(first).sync_requests(second) == Seq::<RequestView>::empty(),
        m.synced(first).synced(second) == m.synced(first),
        m.synced(first).synced(second).slice() == m.synced(first).slice(),
{
    let s = m.synced(first);
    if m.data.len() > 0 {
        lemma_sync_uploads(m, first);
        assert(s.synced(second).device =~= s.device);
    }
}

/// A growable sequence of records mirrored in a device buffer.
///
/// Edits only touch the host copy and remember which records changed; the
/// device copy is brought up to date when [`VecBuffer::view`] is called.
pub struct VecBuffer<T: Record> {
    data: Vec<T>,
    buffer: Buffer,
    usage: BufferUsages,
    capacity: usize,
    update_range: Dirty,
    device: Ghost<Seq<u32>>,
}

impl<T: Record> VecBuffer<T> {
    pub closed spec fn model(&self) -> VecBufferModel<T> {
        VecBufferModel {
            data: self.data@,
            dirty: self.update_range,
            buffer: self.buffer,
            usage: self.usage,
            capacity: self.capacity as nat,
            device: self.device@,
        }
    }

    pub open spec fn wf(&self) -> bool {
        self.model().wf() && self.fits()
    }

    /// The size of the device buffer, counted in words, is a machine integer.
    pub closed spec fn fits(&self) -> bool {
        self.capacity * T::word_count() <= usize::MAX
    }

    /// Creates an empty buffer; its device buffer is created empty and
    /// writable through the queue.
    pub fn new(ctx: &mut WgpuContext, usage: BufferUsages) -> (buffer: Self)
        ensures
            buffer.wf(),
            buffer.model() == (VecBufferModel::<T> {
                data: Seq::empty(),
                dirty: Dirty::Clean,
                buffer: Buffer { id: old(ctx).resources().len() as usize },
                usage: BufferUsages { copy_dst: true, ..usage },
                capacity: 0,
                device: Seq::empty(),
            }),
            final(ctx).resources() == old(ctx).resources().push(ResourceKind::Buffer),
            final(ctx).requests() == old(ctx).requests().push(
                RequestView::CreateBuffer {
                    buffer: buffer.model().buffer,
                    usage: buffer.model().usage,
                    contents: Seq::empty(),
                },
            ),
            final(ctx)@ == VecBufferModel::<T>::creation_context(old(ctx)@, usage),
    {
        let handle = Buffer { id: ctx.create(ResourceKind::Buffer) };
        let usage = usage.with_copy_dst();
        ctx.request(Request::CreateBuffer { buffer: handle, usage, contents: Vec::new() });
        assert(ctx@.resources =~= VecBufferModel::<T>::creation_context(old(ctx)@, usage).resources);
        assert(ctx@.requests =~= VecBufferModel::<T>::creation_context(old(ctx)@, usage).requests);
        VecBuffer {
            data: Vec::new(),
            buffer: handle,
            usage,
            capacity: 0,
            update_range: Dirty::Clean,
            device: Ghost(Seq::empty()),
        }
    }

    pub fn get_ref(&self, index: usize) -> (item: &T)
        requires
            index < self.model().data.len(),
        ensures
            *item == self.model().data[index as int],
    {
        &self.data[index]
    }

    /// Hands out record `index` for mutation in place and marks it as due for
    /// upload.
    pub fn get_mut(&mut self, index: usize) -> (item: &mut T)
        requires
            old(self).wf(),
            index < old(self).model().data.len(),
        ensures
            *item == old(self).model().data[index as int],
            final(self).model() == old(self).model().touched(index, *final(item)),
            final(self).wf(),
    {
        self.update_range = match self.update_range {
            Dirty::Clean => Dirty::Range { start: index, end: index + 1 },
            Dirty::Range { start, end } => Dirty::Range {
                start: if index < start {
                    index
                } else {
                    start
                },
                end: if end < index + 1 {
                    index + 1
                } else {
                    end
                },
            },
            Dirty::Full => Dirty::Full,
        };
        proof {
            assert forall|v: T| #[trigger] old(self).model().touched(index, v).wf() by {
                lemma_touched_wf(old(self).model(), index, v);
            }
        }
        &mut self.data[index]
    }

    /// Appends a record and marks it as due for upload. Returns its index.
    pub fn push(&mut self, item: T) -> (index: usize)
        requires
            old(self).wf(),
        ensures
            index == old(self).model().data.len(),
            final(self).model() == old(self).model().pushed(item),
            final(self).wf(),
    {
        let index = self.data.len();
        self.data.push(item);
        let end = self.data.len();
        self.update_range = match self.update_range {
            Dirty::Clean => Dirty::Range { start: index, end },
            Dirty::Range { start, end: _ } => Dirty::Range { start, end },
            Dirty::Full => Dirty::Full,
        };
        proof {
            lemma_pushed_wf(old(self).model(), item);
        }
        index
    }

    /// Empties the host sequence; whatever is pushed next is sent in full.
    pub fn clear(&mut self)
        requires
            old(self).wf(),
        ensures
            final(self).model() == old(self).model().cleared(),
            final(self).wf(),
    {
        self.data.clear();
        self.update_range = Dirty::Full;
    }

    pub fn len(&self) -> (len: usize)
        ensures
            len == self.model().data.len(),
    {
        self.data.len()
    }

    /// The pending dirty descriptor.
    pub fn dirty(&self) -> (dirty: Dirty)
        ensures
            dirty == self.model().dirty,
    {
        self.update_range
    }

    /// Number of records the device buffer has room for.
    pub fn capacity(&self) -> (capacity: usize)
        ensures
            capacity == self.model().capacity,
    {
        self.capacity
    }

    /// The device buffer that currently mirrors the records.
    pub fn buffer(&self) -> (buffer: Buffer)
        ensures
            buffer == self.model().buffer,
    {
        self.buffer
    }

    /// Brings the device copy up to date and returns a slice over exactly the
    /// host records, or `None` if there are none.
    ///
    /// If the device buffer is too small it is replaced by a new one that
    /// holds all records. Otherwise only the dirty records are written, or
    /// all of them after a `clear`. Nothing is requested when nothing changed.
    pub fn view(&mut self, ctx: &mut WgpuContext) -> (slice: Option<BufferSlice>)
        requires
            old(self).wf(),
        ensures
            final(self).wf(),
            final(self).model() == old(self).model().synced(
                Buffer { id: old(ctx).resources().len() as usize },
            ),
            final(ctx).requests() == old(ctx).requests() + old(self).model().sync_requests(
                Buffer { id: old(ctx).resources().len() as usize },
            ),
            final(ctx).resources() == if old(self).model().data.len() > 0 && old(
                self,
            ).model().must_reallocate() {
                old(ctx).resources().push(ResourceKind::Buffer)
            } else {
                old(ctx).resources()
            },
            final(ctx)@ == old(self).model().sync_context(old(ctx)@),
            slice == final(self).model().slice(),
            slice is Some ==> final(self).model().in_sync(),
    {
        let len = self.data.len();
        let ghost before = self.model();
        let ghost fresh = Buffer { id: ctx.resources().len() as usize };
        if len == 0 {
            assert(ctx.requests() + Seq::<RequestView>::empty() =~= ctx.requests());
            assert(ctx.resources() + Seq::<ResourceKind>::empty() =~= ctx.resources());
            return None;
        }
        proof {
            lemma_sync_uploads(before, fresh);
            self.data@[0].lemma_layout();
        }
        let wc = T::word_len();
        if self.capacity < len {
            let contents = encode_range(&self.data, 0, len);
            assert(self.data@.subrange(0, len as int) =~= self.data@);
            let words = contents.len();
            let handle = Buffer { id: ctx.create(ResourceKind::Buffer) };
            ctx.request(Request::DestroyBuffer { buffer: self.buffer });
            ctx.request(Request::CreateBuffer { buffer: handle, usage: self.usage, contents });
            self.buffer = handle;
            self.capacity = len;
            self.update_range = Dirty::Clean;
            self.device = Ghost(before.synced(fresh).device);
            assert(ctx.requests() =~= old(ctx).requests() + before.sync_requests(fresh));
            assert(ctx.resources() =~= old(ctx).resources() + before.sync_resources());
            Some(BufferSlice { buffer: handle, words })
        } else {
            proof {
                lemma_slots_monotonic(len as int, self.capacity as int, wc as int);
            }
            match self.update_range {
                Dirty::Clean => {},
                Dirty::Range { start, end } => {
                    proof {
                        lemma_slots_monotonic(start as int, len as int, wc as int);
                    }
                    let contents = encode_range(&self.data, start, end);
                    ctx.request(
                        Request::WriteBuffer { buffer: self.buffer, offset: start * wc, contents },
                    );
                },
                Dirty::Full => {
                    let contents = encode_range(&self.data, 0, len);
                    assert(self.data@.subrange(0, len as int) =~= self.data@);
                    ctx.request(Request::WriteBuffer { buffer: self.buffer, offset: 0, contents });
                },
            }
            self.update_range = Dirty::Clean;
            self.device = Ghost(before.synced(fresh).device);
            assert(ctx.requests() =~= old(ctx).requests() + before.sync_requests(fresh));
            assert(ctx.resources() =~= old(ctx).resources() + before.sync_resources());
            Some(BufferSlice { buffer: self.buffer, words: len * wc })
        }
    }
}

} // verus!
