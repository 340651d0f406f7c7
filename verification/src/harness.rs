//! The dispatch harness: buffer allocation and the host/device handoff.
//!
//! A workload moves through a fixed state sequence,
//! `Unsubmitted -> Submitted -> {Completed | TimedOut | Lost}`,
//! and every buffer is owned by exactly one side at any instant: by the
//! host while the workload is `Unsubmitted` or `Completed`, by the device
//! while it is `Submitted`, and by nobody once it is `TimedOut` or `Lost` —
//! after those states the buffers are permanently inaccessible and the
//! workload must be discarded and rebuilt. There is no retry.
//!
//! The accelerator itself is an outside service: the surrounding program
//! enumerates devices, performs the one blocking wait, and reports what
//! happened as a [`DeviceOutcome`]. This module holds the decisions — which
//! transitions are legal, who owns which buffer, what each outcome does to
//! the workload — and every one of them is verified.

use vstd::prelude::*;
use vstd::pervasive::VecAdditionalExecFns;

use crate::descriptor::BindingDecl;
use crate::descriptor::WorkloadDescriptor;
use crate::errors::HarnessError;

verus! {

/// Where a workload stands in its fixed state sequence.
#[derive(Clone, Copy, Debug, PartialEq, Eq, Structural)]
pub enum WorkloadState {
    /// Allocated; buffers are host-owned and writable; not yet submitted.
    Unsubmitted,
    /// Enqueued on the accelerator; buffers are device-owned; no host
    /// access of any kind until the wait settles.
    Submitted,
    /// The accelerator signalled completion; buffers are host-owned again
    /// and hold the device's writes.
    Completed,
    /// The wait exceeded its bound. Buffer ownership is indeterminate and
    /// every later access fails.
    TimedOut,
    /// The accelerator aborted mid-execution; the same access prohibition
    /// as a timeout applies.
    Lost,
}

/// The host owns every buffer of a workload in this state.
pub open spec fn host_owned(s: WorkloadState) -> bool {
    s is Unsubmitted || s is Completed
}

/// The device owns every buffer of a workload in this state.
pub open spec fn device_owned(s: WorkloadState) -> bool {
    s is Submitted
}

/// The workload ended without returning its buffers: after a timeout or a
/// device abort, no side may touch them again.
pub open spec fn terminal_failure(s: WorkloadState) -> bool {
    s is TimedOut || s is Lost
}

/// Each buffer has a single owner at every instant: no state grants the
/// host and the device access at once, and a workload that timed out or
/// was lost grants access to neither side.
pub proof fn lemma_single_owner(s: WorkloadState)
    ensures
        !(host_owned(s) && device_owned(s)),
        terminal_failure(s) ==> !host_owned(s) && !device_owned(s),
{
}

/// What the surrounding program enumerated of the accelerator: whether a
/// compatible device with a compute queue is available at all. Built once,
/// outside, and passed explicitly into every allocation.
pub struct AcceleratorContext {
    /// Whether a compatible accelerator and compute queue were found.
    pub device_available: bool,
}

/// One workload in flight: its validated descriptor, one word buffer per
/// declared binding (in declaration order), and its current state.
pub struct Workload {
    /// The validated description this workload was allocated from.
    pub descriptor: WorkloadDescriptor,
    /// One buffer per binding, parallel to `descriptor.bindings`; each
    /// holds exactly the declared number of elements, one word apiece.
    pub buffers: Vec<Vec<u64>>,
    /// Where the workload stands in its state sequence.
    pub state: WorkloadState,
}

/// The single-use token for one submission. Observing a terminal state
/// through it consumes it; any later use is a configuration error.
pub struct ExecutionHandle {
    used: bool,
}

impl ExecutionHandle {
    /// Whether a terminal state has already been observed through this
    /// handle, spending its single use.
    pub closed spec fn spec_used(&self) -> bool {
        self.used
    }
}

/// What the blocking wait on the accelerator came back with. The
/// surrounding program performs the wait — the only suspension point — and
/// reports the outcome here as plain values.
pub enum DeviceOutcome {
    /// The accelerator signalled completion; the payload is what the
    /// device left in each buffer, in binding order.
    Completed(Vec<Vec<u64>>),
    /// The wait exceeded the caller-supplied bound.
    TimedOut,
    /// The accelerator aborted mid-execution.
    Lost,
}

impl Workload {
    /// A workload is well formed when its buffers are parallel to its
    /// validated descriptor's bindings, each exactly its declared length.
    pub open spec fn wf(&self) -> bool {
        &&& self.descriptor.valid()
        &&& self.buffers@.len() == self.descriptor.bindings@.len()
        &&& forall|i: int|
            0 <= i < self.buffers@.len() ==> (#[trigger] self.buffers@[i])@.len()
                == self.descriptor.bindings@[i].count
    }
}

/// There is a binding of this name among `bs`.
pub open spec fn has_binding(bs: Seq<BindingDecl>, name: Seq<u8>) -> bool {
    exists|i: int| 0 <= i < bs.len() && bs[i].name@ == name
}

/// Device results fit a workload when there is one per buffer and each has
/// exactly that buffer's length.
pub open spec fn results_fit(results: Seq<Vec<u64>>, buffers: Seq<Vec<u64>>) -> bool {
    &&& results.len() == buffers.len()
    &&& forall|i: int|
        0 <= i < results.len() ==> (#[trigger] results[i])@.len() == buffers[i]@.len()
}

/// Finds the binding of the given name, if any.
pub fn find_binding(d: &WorkloadDescriptor, name: &Vec<u8>) -> (r: Option<usize>)
    ensures
        match r {
            Some(i) => i < d.bindings@.len() && d.bindings@[i as int].name@ == name@,
            None => !has_binding(d.bindings@, name@),
        },
{
    let mut i: usize = 0;
    while i < d.bindings.len()
        invariant
            i <= d.bindings@.len(),
            forall|k: int| 0 <= k < i ==> d.bindings@[k].name@ != name@,
        decreases d.bindings@.len() - i,
    {
        if crate::descriptor::bytes_eq(&d.bindings[i].name, name) {
            return Some(i);
        }
        i += 1;
    }
    None
}

/// A vector of `n` zeroed words.
fn zero_words(n: usize) -> (r: Vec<u64>)
    ensures
        r@.len() == n,
        forall|k: int| 0 <= k < n ==> r@[k] == 0,
{
    let mut r: Vec<u64> = Vec::new();
    let mut k: usize = 0;
    while k < n
        invariant
            k <= n,
            r@.len() == k,
            forall|j: int| 0 <= j < k ==> r@[j] == 0,
        decreases n - k,
    {
        r.push(0);
        k += 1;
    }
    r
}

/// Allocates one host-visible buffer per declared binding.
///
/// Consumes the validated descriptor and yields an `Unsubmitted` workload
/// whose buffers have exactly the declared lengths, zero-filled — the
/// content is meaningless until written, and running the device over
/// unwritten buffers is legal but on the caller's head. Fails with
/// [`HarnessError::DeviceError`], before allocating anything, when the
/// context found no compatible accelerator.
pub fn allocate(ctx: &AcceleratorContext, descriptor: WorkloadDescriptor) -> (r: Result<
    Workload,
    HarnessError,
>)
    requires
        descriptor.valid(),
    ensures
        !ctx.device_available ==> r == Err::<Workload, HarnessError>(HarnessError::DeviceError),
        ctx.device_available ==> (r matches Ok(w) && {
            &&& w.descriptor == descriptor
            &&& w.state is Unsubmitted
            &&& w.wf()
            &&& forall|i: int, k: int|
                0 <= i < w.buffers@.len() && 0 <= k < w.buffers@[i]@.len()
                    ==> #[trigger] w.buffers@[i]@[k] == 0
        }),
{
    if !ctx.device_available {
        return Err(HarnessError::DeviceError);
    }
    let mut buffers: Vec<Vec<u64>> = Vec::new();
    let mut i: usize = 0;
    while i < descriptor.bindings.len()
        invariant
            i <= descriptor.bindings@.len(),
            buffers@.len() == i,
            forall|p: int|
                0 <= p < i ==> (#[trigger] buffers@[p])@.len() == descriptor.bindings@[p].count,
            forall|p: int, k: int|
                0 <= p < i && 0 <= k < buffers@[p]@.len() ==> #[trigger] buffers@[p]@[k] == 0,
        decreases descriptor.bindings@.len() - i,
    {
        let b = zero_words(descriptor.bindings[i].count);
        buffers.push(b);
        i += 1;
    }
    Ok(Workload { descriptor, buffers, state: WorkloadState::Unsubmitted })
}

/// Transfers ownership of every buffer to the device and enqueues the
/// dispatch, moving the workload from `Unsubmitted` to `Submitted`.
///
/// Returns the fresh single-use handle for this submission. All buffer
/// writes issued before this call are what the device sees at dispatch
/// time. Submitting from any other state changes nothing and fails with
/// [`HarnessError::ConfigurationError`].
pub fn submit(w: &mut Workload) -> (r: Result<ExecutionHandle, HarnessError>)
    ensures
        old(w).wf() ==> final(w).wf(),
        old(w).state is Unsubmitted ==> (r matches Ok(h) && {
            &&& !h.spec_used()
            &&& final(w).state is Submitted
            &&& final(w).descriptor == old(w).descriptor
            &&& final(w).buffers == old(w).buffers
        }),
        !(old(w).state is Unsubmitted) ==> r == Err::<ExecutionHandle, HarnessError>(
            HarnessError::ConfigurationError,
        ) && *final(w) == *old(w),
{
    match w.state {
        WorkloadState::Unsubmitted => {
            w.state = WorkloadState::Submitted;
            Ok(ExecutionHandle { used: false })
        },
        _ => Err(HarnessError::ConfigurationError),
    }
}

/// Settles a submitted workload with what the blocking wait observed,
/// consuming the handle's single use.
///
/// * `Completed` with results of the declared shape: every buffer takes
///   the device's words, ownership returns to the host, and the state
///   moves to `Completed`.
/// * `Completed` with results of the wrong shape: the device broke its
///   contract; the workload is `Lost` and the call fails with
///   [`HarnessError::DeviceError`].
/// * `TimedOut`: the state moves to `TimedOut` and the call fails with
///   [`HarnessError::TimeoutError`]; the buffers keep their last host
///   content but are permanently inaccessible.
/// * `Lost`: likewise, with [`HarnessError::Lost`].
///
/// A handle that has already been spent, or a workload not `Submitted`,
/// changes nothing and fails with [`HarnessError::ConfigurationError`].
pub fn wait(w: &mut Workload, handle: &mut ExecutionHandle, outcome: DeviceOutcome) -> (r: Result<
    (),
    HarnessError,
>)
    ensures
        old(w).wf() ==> final(w).wf(),
        old(handle).spec_used() || !(old(w).state is Submitted) ==> r == Err::<(), HarnessError>(
            HarnessError::ConfigurationError,
        ) && *final(w) == *old(w) && *final(handle) == *old(handle),
        !old(handle).spec_used() && old(w).state is Submitted ==> {
            &&& final(handle).spec_used()
            &&& final(w).descriptor == old(w).descriptor
            &&& (outcome matches DeviceOutcome::TimedOut ==> {
                &&& final(w).state is TimedOut
                &&& final(w).buffers == old(w).buffers
                &&& r == Err::<(), HarnessError>(HarnessError::TimeoutError)
            })
            &&& (outcome matches DeviceOutcome::Lost ==> {
                &&& final(w).state is Lost
                &&& final(w).buffers == old(w).buffers
                &&& r == Err::<(), HarnessError>(HarnessError::Lost)
            })
            &&& (outcome matches DeviceOutcome::Completed(results) ==> {
                if results_fit(results@, old(w).buffers@) {
                    &&& final(w).state is Completed
                    &&& final(w).buffers == results
                    &&& r == Ok::<(), HarnessError>(())
                } else {
                    &&& final(w).state is Lost
                    &&& final(w).buffers == old(w).buffers
                    &&& r == Err::<(), HarnessError>(HarnessError::DeviceError)
                }
            })
        },
{
    if handle.used {
        return Err(HarnessError::ConfigurationError);
    }
    match w.state {
        WorkloadState::Submitted => {},
        _ => {
            return Err(HarnessError::ConfigurationError);
        },
    }
    handle.used = true;
    match outcome {
        DeviceOutcome::TimedOut => {
            w.state = WorkloadState::TimedOut;
            Err(HarnessError::TimeoutError)
        },
        DeviceOutcome::Lost => {
            w.state = WorkloadState::Lost;
            Err(HarnessError::Lost)
        },
        DeviceOutcome::Completed(results) => {
            if !results_shape_ok(&results, &w.buffers) {
                w.state = WorkloadState::Lost;
                return Err(HarnessError::DeviceError);
            }
            w.buffers = results;
            w.state = WorkloadState::Completed;
            Ok(())
        },
    }
}

fn results_shape_ok(results: &Vec<Vec<u64>>, buffers: &Vec<Vec<u64>>) -> (r: bool)
    ensures
        r == results_fit(results@, buffers@),
{
    if results.len() != buffers.len() {
        return false;
    }
    let mut i: usize = 0;
    while i < results.len()
        invariant
            i <= results@.len(),
            results@.len() == buffers@.len(),
            forall|k: int| 0 <= k < i ==> (#[trigger] results@[k])@.len() == buffers@[k]@.len(),
        decreases results@.len() - i,
    {
        if results[i].len() != buffers[i].len() {
            return false;
        }
        i += 1;
    }
    true
}

/// A scoped read of the named buffer.
///
/// Succeeds exactly when the workload is `Completed` — the device's writes
/// are visible to the host only then — and the name is declared. After a
/// timeout or a loss, and equally while the device owns the buffers or
/// before submission, the read fails with
/// [`HarnessError::ConfigurationError`] rather than surface stale or
/// contended data. The borrow ends with the caller's scope, so release on
/// every exit path comes with the language. One workload is in flight at a
/// time and every transfer has settled once `wait` has returned, so
/// acquisition never has to block here.
pub fn acquire_read<'a>(w: &'a Workload, name: &Vec<u8>) -> (r: Result<&'a Vec<u64>, HarnessError>)
    requires
        w.wf(),
    ensures
        (r is Ok) <==> (w.state is Completed && has_binding(w.descriptor.bindings@, name@)),
        r matches Ok(v) ==> forall|i: int|
            0 <= i < w.descriptor.bindings@.len() && w.descriptor.bindings@[i].name@ == name@
                ==> v@ == w.buffers@[i]@,
        r is Err ==> r == Err::<&'a Vec<u64>, HarnessError>(HarnessError::ConfigurationError),
{
    match w.state {
        WorkloadState::Completed => {},
        _ => {
            return Err(HarnessError::ConfigurationError);
        },
    }
    match find_binding(&w.descriptor, name) {
        Some(i) => {
            proof {
                assert(has_binding(w.descriptor.bindings@, name@));
            }
            Ok(&w.buffers[i])
        },
        None => Err(HarnessError::ConfigurationError),
    }
}

/// A scoped write of the named buffer, replacing its content.
///
/// Succeeds exactly when the host owns the buffers — the workload is
/// `Unsubmitted` or `Completed`, never `Submitted` — the name is declared,
/// and the new content has the buffer's declared length, since a buffer is
/// a fixed-length region. Everything else, in particular any access after
/// a timeout or a loss, changes nothing and fails with
/// [`HarnessError::ConfigurationError`].
pub fn acquire_write(w: &mut Workload, name: &Vec<u8>, values: Vec<u64>) -> (r: Result<
    (),
    HarnessError,
>)
    requires
        old(w).wf(),
    ensures
        final(w).descriptor == old(w).descriptor,
        final(w).state == old(w).state,
        final(w).wf(),
        (r is Ok) <==> (host_owned(old(w).state) && exists|i: int|
            0 <= i < old(w).descriptor.bindings@.len()
                && #[trigger] old(w).descriptor.bindings@[i].name@ == name@ && values@.len()
                == old(w).buffers@[i]@.len()),
        r is Ok ==> {
            &&& final(w).buffers@.len() == old(w).buffers@.len()
            &&& forall|i: int|
                0 <= i < old(w).descriptor.bindings@.len()
                    && old(w).descriptor.bindings@[i].name@ == name@
                    ==> (#[trigger] final(w).buffers@[i])@ == values@
            &&& forall|i: int|
                0 <= i < old(w).buffers@.len() && old(w).descriptor.bindings@[i].name@ != name@
                    ==> #[trigger] final(w).buffers@[i] == old(w).buffers@[i]
        },
        r is Err ==> r == Err::<(), HarnessError>(HarnessError::ConfigurationError)
            && final(w).buffers == old(w).buffers,
{
    match w.state {
        WorkloadState::Unsubmitted | WorkloadState::Completed => {},
        _ => {
            return Err(HarnessError::ConfigurationError);
        },
    }
    match find_binding(&w.descriptor, name) {
        Some(i) => {
            if values.len() == w.buffers[i].len() {
                w.buffers.set(i, values);
                proof {
                    assert(forall|p: int, q: int|
                        0 <= p < q < old(w).descriptor.bindings@.len()
                            ==> old(w).descriptor.bindings@[p].name@
                            != old(w).descriptor.bindings@[q].name@);
                }
                Ok(())
            } else {
                Err(HarnessError::ConfigurationError)
            }
        },
        None => Err(HarnessError::ConfigurationError),
    }
}

} // verus!
