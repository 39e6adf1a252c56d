//! The tensor model: a shaped, typed, device-located value handle backed by
//! storage. Tensors are immutable value handles once constructed; operations
//! produce new tensors rather than mutating in place.

use vstd::prelude::*;
use crate::dtype::DType;
use crate::gpu::BindGroupEntry;
use crate::shape::Shape;

verus! {

/// Where a tensor's storage lives.
#[derive(Clone, Copy, Debug, PartialEq, Eq, Structural)]
pub enum Device {
    Cpu,
    Gpu,
}

/// The logical view of a tensor: its shape, element type and device.
pub struct StorageView {
    pub shape: Shape,
    pub dtype: DType,
    pub device: Device,
}

impl Clone for StorageView {
    fn clone(&self) -> (r: Self)
        ensures
            r.shape@ == self.shape@,
            r.dtype == self.dtype,
            r.device == self.device,
    {
        StorageView { shape: self.shape.clone(), dtype: self.dtype, device: self.device }
    }
}

impl StorageView {
    pub fn new(shape: Shape, dtype: DType, device: Device) -> (r: Self)
        ensures
            r.shape@ == shape@,
            r.dtype == dtype,
            r.device == device,
    {
        StorageView { shape, dtype, device }
    }
}

/// A tensor handle: its logical view and the handle of the device buffer
/// backing it.
pub struct Tensor {
    pub storage_view: StorageView,
    pub buffer: usize,
}

impl Tensor {
    pub fn new(storage_view: StorageView, buffer: usize) -> (r: Self)
        ensures
            r.storage_view == storage_view,
            r.buffer == buffer,
    {
        Tensor { storage_view, buffer }
    }

    pub fn shape(&self) -> (r: &Shape)
        ensures
            r@ == self.storage_view.shape@,
    {
        &self.storage_view.shape
    }

    /// Number of dimensions.
    pub fn rank(&self) -> (r: usize)
        ensures
            r == self.storage_view.shape@.len(),
    {
        self.storage_view.shape.rank()
    }

    pub fn dt(&self) -> (r: DType)
        ensures
            r == self.storage_view.dtype,
    {
        self.storage_view.dtype
    }

    pub fn device(&self) -> (r: Device)
        ensures
            r == self.storage_view.device,
    {
        self.storage_view.device
    }

    pub fn storage_view(&self) -> (r: &StorageView)
        ensures
            r == self.storage_view,
    {
        &self.storage_view
    }

    /// The binding entry this tensor contributes to a bind group: its
    /// backing buffer.
    pub open spec fn spec_binding(self) -> BindGroupEntry {
        BindGroupEntry { buffer: self.buffer }
    }

    /// The ordered binding entries this tensor contributes: one, its backing
    /// buffer.
    pub fn bindings(&self) -> (r: Vec<BindGroupEntry>)
        ensures
            r@ == seq![self.spec_binding()],
    {
        let mut v: Vec<BindGroupEntry> = Vec::new();
        v.push(BindGroupEntry { buffer: self.buffer });
        proof {
            assert(v@ =~= seq![self.spec_binding()]);
        }
        v
    }
}

impl Clone for Tensor {
    fn clone(&self) -> (r: Self)
        ensures
            r.storage_view.shape@ == self.storage_view.shape@,
            r.storage_view.dtype == self.storage_view.dtype,
            r.storage_view.device == self.storage_view.device,
            r.buffer == self.buffer,
            r.spec_binding() == self.spec_binding(),
    {
        Tensor { storage_view: self.storage_view.clone(), buffer: self.buffer }
    }
}

} // verus!
