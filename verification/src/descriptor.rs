//! Validated descriptions of a parallel workload.
//!
//! A descriptor declares an ordered list of buffer bindings (name, element
//! type, element count), an optional constant block, and a three-dimensional
//! dispatch extent. Validation happens eagerly at construction: binding
//! names unique, constant names unique, every element count and every extent
//! component strictly positive. A violation fails with a
//! [`HarnessError::ConfigurationError`] before any allocation occurs.

use vstd::prelude::*;

use crate::errors::HarnessError;

verus! {

/// The element type of a buffer binding.
///
/// The harness stores every element in one machine word; a floating-point
/// element travels as its bit pattern, which the surrounding program
/// converts at the edge.
#[derive(Clone, Copy, Debug, PartialEq, Eq, Structural)]
pub enum ElemType {
    /// A 32-bit unsigned integer element.
    U32,
    /// A 64-bit unsigned integer element.
    U64,
    /// A 32-bit floating-point element, carried as its bit pattern.
    F32,
}

/// The value of one constant-block entry, carried as plain words; a
/// floating-point constant travels as its bit pattern.
#[derive(Clone, Copy, Debug, PartialEq, Eq, Structural)]
pub enum ConstantValue {
    /// A 32-bit unsigned integer constant.
    U32(u32),
    /// A 64-bit unsigned integer constant.
    U64(u64),
    /// A 32-bit floating-point constant, as its bit pattern.
    F32Bits(u32),
}

/// One declared buffer binding: a name, an element type, and a fixed
/// element count.
pub struct BindingDecl {
    /// The binding's name, unique within a descriptor.
    pub name: Vec<u8>,
    /// The element type of the bound buffer.
    pub elem: ElemType,
    /// The number of elements; strictly positive in a valid descriptor.
    pub count: usize,
}

/// One constant-block entry: a name and a typed value.
pub struct ConstantDecl {
    /// The constant's name, unique within a descriptor.
    pub name: Vec<u8>,
    /// The constant's value.
    pub value: ConstantValue,
}

/// The three-dimensional dispatch extent: how many work groups run along
/// each axis.
#[derive(Clone, Copy, Debug, PartialEq, Eq, Structural)]
pub struct Extent {
    /// Work groups along the first axis.
    pub x: u32,
    /// Work groups along the second axis.
    pub y: u32,
    /// Work groups along the third axis.
    pub z: u32,
}

/// Every component of the extent is strictly positive.
pub open spec fn extent_positive(e: Extent) -> bool {
    e.x > 0 && e.y > 0 && e.z > 0
}

/// No two bindings share a name.
pub open spec fn binding_names_unique(bs: Seq<BindingDecl>) -> bool {
    forall|i: int, j: int| 0 <= i < j < bs.len() ==> bs[i].name@ != bs[j].name@
}

/// Every binding declares a strictly positive element count.
pub open spec fn binding_counts_positive(bs: Seq<BindingDecl>) -> bool {
    forall|i: int| 0 <= i < bs.len() ==> #[trigger] bs[i].count > 0
}

/// No two constants share a name.
pub open spec fn constant_names_unique(cs: Seq<ConstantDecl>) -> bool {
    forall|i: int, j: int| 0 <= i < j < cs.len() ==> cs[i].name@ != cs[j].name@
}

/// A validated workload description, immutable after construction.
pub struct WorkloadDescriptor {
    /// The ordered buffer bindings.
    pub bindings: Vec<BindingDecl>,
    /// The constant block, possibly empty.
    pub constants: Vec<ConstantDecl>,
    /// The dispatch extent.
    pub extent: Extent,
}

impl WorkloadDescriptor {
    /// What construction validates: unique binding names, strictly positive
    /// element counts, unique constant names, and a strictly positive
    /// extent on every axis.
    pub open spec fn valid(&self) -> bool {
        &&& binding_names_unique(self.bindings@)
        &&& binding_counts_positive(self.bindings@)
        &&& constant_names_unique(self.constants@)
        &&& extent_positive(self.extent)
    }

    /// The total invocation count: the product of the three extent
    /// components and the program's declared per-group invocation count.
    /// That count is a contract with the compiled program which the
    /// descriptor does not itself verify; a mismatch surfaces only as a
    /// device failure or a wrong-length result during validation.
    pub open spec fn spec_total_invocations(&self, local_size: u64) -> int {
        self.extent.x * self.extent.y * self.extent.z * local_size
    }

    /// Builds a descriptor, validating it eagerly.
    ///
    /// Returns `Ok` exactly when the inputs are valid; any violation fails
    /// with [`HarnessError::ConfigurationError`] before any allocation.
    pub fn new(bindings: Vec<BindingDecl>, constants: Vec<ConstantDecl>, extent: Extent) -> (r:
        Result<WorkloadDescriptor, HarnessError>)
        ensures
            ({
                let d = WorkloadDescriptor { bindings, constants, extent };
                if d.valid() {
                    r == Ok::<WorkloadDescriptor, HarnessError>(d)
                } else {
                    r == Err::<WorkloadDescriptor, HarnessError>(HarnessError::ConfigurationError)
                }
            }),
    {
        if !(extent.x > 0 && extent.y > 0 && extent.z > 0) {
            return Err(HarnessError::ConfigurationError);
        }
        if !binding_counts_all_positive(&bindings) {
            return Err(HarnessError::ConfigurationError);
        }
        if !binding_names_all_unique(&bindings) {
            return Err(HarnessError::ConfigurationError);
        }
        if !constant_names_all_unique(&constants) {
            return Err(HarnessError::ConfigurationError);
        }
        Ok(WorkloadDescriptor { bindings, constants, extent })
    }

    /// Re-checks the validation predicate on an already built descriptor,
    /// for callers outside the proof — the surrounding program tests this
    /// before handing a descriptor to the harness.
    pub fn check_valid(&self) -> (r: bool)
        ensures
            r == self.valid(),
    {
        self.extent.x > 0 && self.extent.y > 0 && self.extent.z > 0
            && binding_counts_all_positive(&self.bindings) && binding_names_all_unique(
            &self.bindings,
        ) && constant_names_all_unique(&self.constants)
    }

    /// The total invocation count as a machine word.
    ///
    /// `local_size` is the compiled program's declared per-group invocation
    /// count; the product must fit in a word, which every realistic
    /// dispatch does.
    pub fn total_invocations(&self, local_size: u64) -> (r: u64)
        requires
            extent_positive(self.extent),
            local_size >= 1,
            self.spec_total_invocations(local_size) <= u64::MAX,
        ensures
            r == self.spec_total_invocations(local_size),
    {
        let x = self.extent.x as u64;
        let y = self.extent.y as u64;
        let z = self.extent.z as u64;
        proof {
            lemma_partial_products_bounded(
                x as int,
                y as int,
                z as int,
                local_size as int,
                u64::MAX as int,
            );
        }
        x * y * z * local_size
    }
}

proof fn lemma_partial_products_bounded(x: int, y: int, z: int, l: int, bound: int)
    requires
        x >= 1,
        y >= 1,
        z >= 1,
        l >= 1,
        x * y * z * l <= bound,
    ensures
        x * y <= bound,
        x * y * z <= bound,
{
    assert(x * y <= x * y * z * l && x * y * z <= x * y * z * l) by (nonlinear_arith)
        requires
            x >= 1,
            y >= 1,
            z >= 1,
            l >= 1,
    ;
}

/// Compares two byte strings for equality of content.
pub fn bytes_eq(a: &Vec<u8>, b: &Vec<u8>) -> (r: bool)
    ensures
        r == (a@ == b@),
{
    if a.len() != b.len() {
        return false;
    }
    let mut i: usize = 0;
    while i < a.len()
        invariant
            i <= a@.len(),
            a@.len() == b@.len(),
            forall|k: int| 0 <= k < i ==> a@[k] == b@[k],
        decreases a@.len() - i,
    {
        if a[i] != b[i] {
            return false;
        }
        i += 1;
    }
    proof {
        assert(a@ =~= b@);
    }
    true
}

fn binding_counts_all_positive(bs: &Vec<BindingDecl>) -> (r: bool)
    ensures
        r == binding_counts_positive(bs@),
{
    let mut i: usize = 0;
    while i < bs.len()
        invariant
            i <= bs@.len(),
            forall|k: int| 0 <= k < i ==> #[trigger] bs@[k].count > 0,
        decreases bs@.len() - i,
    {
        if bs[i].count == 0 {
            return false;
        }
        i += 1;
    }
    true
}

fn binding_names_all_unique(bs: &Vec<BindingDecl>) -> (r: bool)
    ensures
        r == binding_names_unique(bs@),
{
    let mut i: usize = 0;
    while i < bs.len()
        invariant
            i <= bs@.len(),
            forall|p: int, q: int| 0 <= p < q < bs@.len() && p < i ==> bs@[p].name@ != bs@[q].name@,
        decreases bs@.len() - i,
    {
        let mut j: usize = i + 1;
        while j < bs.len()
            invariant
                i < j <= bs@.len(),
                forall|q: int| i < q < j ==> bs@[i as int].name@ != bs@[q].name@,
            decreases bs@.len() - j,
        {
            if bytes_eq(&bs[i].name, &bs[j].name) {
                return false;
            }
            j += 1;
        }
        i += 1;
    }
    true
}

fn constant_names_all_unique(cs: &Vec<ConstantDecl>) -> (r: bool)
    ensures
        r == constant_names_unique(cs@),
{
    let mut i: usize = 0;
    while i < cs.len()
        invariant
            i <= cs@.len(),
            forall|p: int, q: int| 0 <= p < q < cs@.len() && p < i ==> cs@[p].name@ != cs@[q].name@,
        decreases cs@.len() - i,
    {
        let mut j: usize = i + 1;
        while j < cs.len()
            invariant
                i < j <= cs@.len(),
                forall|q: int| i < q < j ==> cs@[i as int].name@ != cs@[q].name@,
            decreases cs@.len() - j,
        {
            if bytes_eq(&cs[i].name, &cs[j].name) {
                return false;
            }
            j += 1;
        }
        i += 1;
    }
    true
}

} // verus!
