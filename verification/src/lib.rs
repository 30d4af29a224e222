//! Hooks an object's dynamic-dispatch table (virtual method table) by copying
//! the table, letting the caller overwrite individual entries of the copy, and
//! redirecting the object's leading table pointer to the copy. Releasing the
//! hook writes the original table's base address back into the object.
//!
//! The foreign object itself is opaque: the one structural assumption is that
//! its memory layout begins with a machine-word pointer to an array of
//! machine-word function addresses. [`HookedObject`] models exactly that
//! field; the words of the dispatch table are supplied by the caller as a
//! bounded, readable region. That the supplied region really is the memory
//! behind the object's leading pointer cannot be checked here and remains a
//! documented caller obligation, as does keeping any dispatch through the
//! object serialized with the mutating operations of a hook.

use vstd::prelude::*;

verus! {

/// A handle to a foreign object whose memory layout begins with one
/// machine-word pointer to its dispatch table. The handle exposes exactly
/// that leading field; everything else about the object stays opaque.
#[derive(Clone, Copy, PartialEq, Eq, Structural)]
pub struct HookedObject {
    lead: usize,
}

impl HookedObject {
    /// The object's leading dispatch-table pointer, as contracts see it.
    pub closed spec fn lead(&self) -> usize {
        self.lead
    }

    /// Wraps an object whose leading pointer field holds `lead_ptr`.
    pub fn new(lead_ptr: usize) -> (obj: HookedObject)
        ensures
            obj.lead() == lead_ptr,
    {
        HookedObject { lead: lead_ptr }
    }

    /// Reads the leading dispatch-table pointer.
    pub fn lead_ptr(&self) -> (r: usize)
        ensures
            r == self.lead(),
    {
        self.lead
    }
}

/// Why a hook operation was refused.
#[derive(Clone, Copy, Debug, PartialEq, Eq, Structural)]
pub enum HookError {
    /// Auto-detection scanned the whole supplied region without meeting a
    /// zero-valued word.
    SentinelNotFound,
    /// The caller-supplied entry count exceeds the supplied region.
    CountExceedsRegion,
    /// A slot index at or past the table's entry count.
    IndexOutOfRange,
}

/// A hook over one [`HookedObject`]: the immutable view of its original
/// dispatch table, the mutable shadow copy the object was redirected to, and
/// the object handle itself.
pub struct VTableHook {
    /// The hooked object; while the hook is installed its leading pointer
    /// refers to the shadow table.
    object: HookedObject,
    /// Base address the object's leading pointer held before installation.
    original_base: usize,
    /// Pointwise copy of the original table's entries; never mutated.
    original_vtbl: Vec<usize>,
    /// The shadow table: starts as a copy of the original and takes the
    /// caller's replacements. Its length never changes after installation,
    /// so its heap buffer is never reallocated and `new_base` stays valid.
    new_vtbl: Vec<usize>,
    /// Base address of the shadow table's buffer, captured at installation.
    new_base: usize,
}

/// Relies on `Vec::as_ptr`: returns the address of the vector's buffer, which
/// does not change while the vector is not reallocated, and is never null.
#[verifier::external_body]
fn buffer_address(v: &Vec<usize>) -> (r: usize)
    ensures
        r != 0,
{
    v.as_ptr() as usize
}

impl VTableHook {
    /// The entries of the original table, in slot order.
    pub closed spec fn originals(&self) -> Seq<usize> {
        self.original_vtbl@
    }

    /// The entries of the shadow table, in slot order: what the object
    /// currently dispatches through.
    pub closed spec fn currents(&self) -> Seq<usize> {
        self.new_vtbl@
    }

    /// The original table's base address.
    pub closed spec fn original_base(&self) -> usize {
        self.original_base
    }

    /// The shadow table's base address.
    pub closed spec fn shadow_base(&self) -> usize {
        self.new_base
    }

    /// The hooked object handle.
    pub closed spec fn obj(&self) -> HookedObject {
        self.object
    }

    /// Number of entries in the hooked table.
    pub open spec fn count(&self) -> nat {
        self.originals().len()
    }

    /// Installed-hook invariant: the shadow table is as long as the original
    /// table, and the object's leading pointer refers to the shadow table.
    pub open spec fn wf(&self) -> bool {
        &&& self.currents().len() == self.count()
        &&& self.obj().lead() == self.shadow_base()
    }

    /// Scans the supplied region one word at a time and returns the offset of
    /// the first zero-valued word, the detected entry count of a table whose
    /// end is marked by a zero sentinel. Returns `None` when no word of the
    /// region is zero, rather than ever reading past its bound.
    pub fn detect_vtable_methods_count(table: &[usize]) -> (r: Option<usize>)
        ensures
            match r {
                Some(c) => {
                    &&& c < table@.len()
                    &&& table@[c as int] == 0
                    &&& forall|j: int| 0 <= j < c ==> table@[j] != 0
                },
                None => forall|j: int| 0 <= j < table@.len() ==> table@[j] != 0,
            },
    {
        let mut i: usize = 0;
        while i < table.len()
            invariant
                i <= table@.len(),
                forall|j: int| 0 <= j < i ==> table@[j] != 0,
            decreases table@.len() - i,
        {
            if table[i] == 0 {
                return Some(i);
            }
            i = i + 1;
        }
        None
    }

    /// Captures the first `count` words of `table` as the original table,
    /// copies them into a fresh shadow table, and redirects the object's
    /// leading pointer to the shadow table's buffer.
    fn init(object: HookedObject, table: &[usize], count: usize) -> (hook: VTableHook)
        requires
            count <= table@.len(),
        ensures
            hook.wf(),
            hook.count() == count,
            hook.originals() == table@.take(count as int),
            hook.currents() == hook.originals(),
            hook.original_base() == object.lead(),
    {
        let original_base = object.lead_ptr();
        let mut original_vtbl: Vec<usize> = Vec::new();
        let mut new_vtbl: Vec<usize> = Vec::new();
        let mut i: usize = 0;
        while i < count
            invariant
                i <= count,
                count <= table@.len(),
                original_vtbl@ == table@.take(i as int),
                new_vtbl@ == original_vtbl@,
            decreases count - i,
        {
            let entry = table[i];
            original_vtbl.push(entry);
            new_vtbl.push(entry);
            proof {
                assert(table@.take(i + 1) =~= table@.take(i as int).push(table@[i as int]));
            }
            i = i + 1;
        }
        let new_base = buffer_address(&new_vtbl);
        let mut object = object;
        object.lead = new_base;
        VTableHook { object, original_base, original_vtbl, new_vtbl, new_base }
    }

    /// Installs a hook over `object`, auto-detecting the table's entry count
    /// by scanning `table` for a zero sentinel.
    ///
    /// `table` must be the readable words starting at the address held in the
    /// object's leading pointer; that correspondence cannot be checked here
    /// and is the caller's obligation.
    pub fn new(object: HookedObject, table: &[usize]) -> (r: Result<VTableHook, HookError>)
        ensures
            match r {
                Ok(hook) => {
                    &&& hook.wf()
                    &&& hook.count() < table@.len()
                    &&& table@[hook.count() as int] == 0
                    &&& forall|j: int| 0 <= j < hook.count() ==> table@[j] != 0
                    &&& hook.originals() == table@.take(hook.count() as int)
                    &&& hook.currents() == hook.originals()
                    &&& hook.original_base() == object.lead()
                },
                Err(e) => {
                    &&& e == HookError::SentinelNotFound
                    &&& forall|j: int| 0 <= j < table@.len() ==> table@[j] != 0
                },
            },
    {
        match Self::detect_vtable_methods_count(table) {
            Some(count) => Ok(Self::init(object, table, count)),
            None => Err(HookError::SentinelNotFound),
        }
    }

    /// Installs a hook over `object` with a caller-supplied entry count,
    /// refusing a count that exceeds the supplied region.
    ///
    /// The same caller obligation as for [`VTableHook::new`] applies; that
    /// `count` is the table's true entry count is likewise the caller's.
    pub fn with_count(object: HookedObject, table: &[usize], count: usize) -> (r: Result<
        VTableHook,
        HookError,
    >)
        ensures
            match r {
                Ok(hook) => {
                    &&& count <= table@.len()
                    &&& hook.wf()
                    &&& hook.count() == count
                    &&& hook.originals() == table@.take(count as int)
                    &&& hook.currents() == hook.originals()
                    &&& hook.original_base() == object.lead()
                },
                Err(e) => {
                    &&& e == HookError::CountExceedsRegion
                    &&& count > table@.len()
                },
            },
    {
        if count <= table.len() {
            Ok(Self::init(object, table, count))
        } else {
            Err(HookError::CountExceedsRegion)
        }
    }

    /// Number of entries in the hooked table.
    pub fn method_count(&self) -> (r: usize)
        ensures
            r == self.count(),
    {
        self.original_vtbl.len()
    }

    /// Returns the original method address at slot `id` of the table.
    pub fn get_original_method(&self, id: usize) -> (r: usize)
        requires
            id < self.count(),
        ensures
            r == self.originals()[id as int],
    {
        self.original_vtbl[id]
    }

    /// Returns the method address the object currently dispatches through at
    /// slot `id`: the replacement if one was installed, else the original.
    pub fn get_replaced_method(&self, id: usize) -> (r: usize)
        requires
            self.wf(),
            id < self.count(),
        ensures
            r == self.currents()[id as int],
    {
        self.new_vtbl[id]
    }

    /// Overwrites shadow slot `id` with the replacement address `func`,
    /// leaving every other slot and the original table untouched. Refuses an
    /// index at or past the entry count.
    pub fn replace_method(&mut self, id: usize, func: usize) -> (r: Result<(), HookError>)
        requires
            old(self).wf(),
        ensures
            final(self).wf(),
            final(self).originals() == old(self).originals(),
            final(self).original_base() == old(self).original_base(),
            final(self).shadow_base() == old(self).shadow_base(),
            final(self).obj() == old(self).obj(),
            id < old(self).count() ==> {
                &&& r == Ok::<(), HookError>(())
                &&& final(self).currents() == old(self).currents().update(id as int, func)
            },
            id >= old(self).count() ==> {
                &&& r == Err::<(), HookError>(HookError::IndexOutOfRange)
                &&& final(self).currents() == old(self).currents()
            },
    {
        if id < self.new_vtbl.len() {
            self.new_vtbl[id] = func;
            Ok(())
        } else {
            Err(HookError::IndexOutOfRange)
        }
    }

    /// Resets shadow slot `id` to the original table's entry, leaving every
    /// other slot untouched. Refuses an index at or past the entry count.
    pub fn restore_method(&mut self, id: usize) -> (r: Result<(), HookError>)
        requires
            old(self).wf(),
        ensures
            final(self).wf(),
            final(self).originals() == old(self).originals(),
            final(self).original_base() == old(self).original_base(),
            final(self).shadow_base() == old(self).shadow_base(),
            final(self).obj() == old(self).obj(),
            id < old(self).count() ==> {
                &&& r == Ok::<(), HookError>(())
                &&& final(self).currents() == old(self).currents().update(
                    id as int,
                    old(self).originals()[id as int],
                )
            },
            id >= old(self).count() ==> {
                &&& r == Err::<(), HookError>(HookError::IndexOutOfRange)
                &&& final(self).currents() == old(self).currents()
            },
    {
        if id < self.new_vtbl.len() {
            let original = self.original_vtbl[id];
            self.new_vtbl[id] = original;
            Ok(())
        } else {
            Err(HookError::IndexOutOfRange)
        }
    }

    /// Resets every shadow slot to the original table's entry, pointwise.
    pub fn restore_all_methods(&mut self)
        requires
            old(self).wf(),
        ensures
            final(self).wf(),
            final(self).originals() == old(self).originals(),
            final(self).original_base() == old(self).original_base(),
            final(self).shadow_base() == old(self).shadow_base(),
            final(self).obj() == old(self).obj(),
            final(self).currents() == old(self).originals(),
    {
        let mut i: usize = 0;
        while i < self.original_vtbl.len()
            invariant
                old(self).wf(),
                i <= self.original_vtbl@.len(),
                self.original_vtbl@ == old(self).original_vtbl@,
                self.original_base == old(self).original_base,
                self.new_base == old(self).new_base,
                self.object == old(self).object,
                self.new_vtbl@.len() == old(self).new_vtbl@.len(),
                forall|j: int| 0 <= j < i ==> self.new_vtbl@[j] == self.original_vtbl@[j],
            decreases self.original_vtbl@.len() - i,
        {
            let original = self.original_vtbl[i];
            self.new_vtbl[i] = original;
            i = i + 1;
        }
        proof {
            assert(self.new_vtbl@ =~= self.original_vtbl@);
        }
    }

    /// Returns the hooked object handle.
    pub fn object(&self) -> (r: &HookedObject)
        ensures
            *r == self.obj(),
    {
        &self.object
    }

    /// Releases the hook: writes the original table's base address back into
    /// the object's leading pointer and hands the object back. Consuming the
    /// hook makes a second teardown of it impossible.
    pub fn teardown(self) -> (obj: HookedObject)
        ensures
            obj.lead() == self.original_base(),
    {
        let VTableHook { mut object, original_base, original_vtbl: _, new_vtbl: _, new_base: _ } =
            self;
        object.lead = original_base;
        object
    }
}

/// Law: replacing slot `id` makes the current entry at `id` the replacement
/// address and leaves the current entry of every other slot unchanged.
///
/// `pre` is a hook before a replacement; `post` relates to `pre` exactly as
/// [`VTableHook::replace_method`]'s contract relates the hook after an
/// accepted call to the hook before it.
pub proof fn lemma_replace_is_pointwise(pre: VTableHook, post: VTableHook, id: usize, func: usize)
    requires
        pre.wf(),
        id < pre.count(),
        post.currents() == pre.currents().update(id as int, func),
    ensures
        post.currents()[id as int] == func,
        forall|j: int| 0 <= j < pre.count() && j != id ==> post.currents()[j] == pre.currents()[j],
{
}

/// Law: restoring slot `id` after a replacement there makes the current entry
/// at `id` equal the original entry again.
///
/// `replaced` relates to `pre` as after an accepted
/// [`VTableHook::replace_method`], and `restored` to `replaced` as after an
/// accepted [`VTableHook::restore_method`], both at slot `id`.
pub proof fn lemma_restore_undoes_replace(
    pre: VTableHook,
    replaced: VTableHook,
    restored: VTableHook,
    id: usize,
    func: usize,
)
    requires
        pre.wf(),
        id < pre.count(),
        replaced.originals() == pre.originals(),
        replaced.currents() == pre.currents().update(id as int, func),
        restored.currents() == replaced.currents().update(
            id as int,
            replaced.originals()[id as int],
        ),
    ensures
        restored.currents()[id as int] == pre.originals()[id as int],
{
}

/// Law: installing a hook and later tearing it down returns the object's
/// leading pointer to the original table's base address, whatever replacements
/// and restorations happened in between.
///
/// `obj` is the object before installation; `installed` is the hook either
/// constructor returned for it; `current` is the hook after any sequence of
/// mutations, each of which keeps the original table's base address; `released`
/// is what [`VTableHook::teardown`] returned for `current`.
pub proof fn lemma_install_teardown_round_trip(
    obj: HookedObject,
    installed: VTableHook,
    current: VTableHook,
    released: HookedObject,
)
    requires
        installed.original_base() == obj.lead(),
        current.original_base() == installed.original_base(),
        released.lead() == current.original_base(),
    ensures
        released.lead() == obj.lead(),
{
}

} // verus!
