use core::marker::PhantomData;
use vstd::prelude::*;
use vstd::slice::slice_to_vec;

use crate::data_type::{raw_data_type, DataType, DataTypeTag};
use crate::error::{CudnnError, STATUS_SUCCESS};
use crate::tensor_format::{
    all_fit_i64, channels_last, channels_last_strides, raw_format, row_major, row_major_strides,
    TensorFormat,
};

verus! {

/// How the layout of a tensor is given: one stride per axis, or a named format.
#[derive(Debug, PartialEq, Eq)]
pub enum Layout {
    Strides(Vec<i32>),
    Format(TensorFormat),
}

pub enum LayoutModel {
    Strides(Seq<i32>),
    Format(TensorFormat),
}

impl View for Layout {
    type V = LayoutModel;

    open spec fn view(&self) -> LayoutModel {
        match self {
            Layout::Strides(s) => LayoutModel::Strides(s@),
            Layout::Format(f) => LayoutModel::Format(*f),
        }
    }
}

pub open spec fn widen_i32(s: Seq<i32>) -> Seq<int> {
    Seq::new(s.len(), |j: int| s[j] as int)
}

pub open spec fn widen_i64(s: Seq<i64>) -> Seq<int> {
    Seq::new(s.len(), |j: int| s[j] as int)
}

/// The strides that a layout gives a tensor of extents `dims`, where they are
/// one number per axis; a format whose feature maps are grouped into vectors is
/// known to the native library by its tag alone.
pub open spec fn layout_strides(dims: Seq<i32>, layout: LayoutModel) -> Option<Seq<int>> {
    match layout {
        LayoutModel::Strides(s) => Some(widen_i32(s)),
        LayoutModel::Format(TensorFormat::Nchw) => Some(row_major_strides(dims)),
        LayoutModel::Format(TensorFormat::Nhwc) => Some(channels_last_strides(dims)),
        LayoutModel::Format(_) => None,
    }
}

/// What downstream operations read of a descriptor: element type, extents and
/// strides.
pub struct Geometry {
    pub data_type: DataTypeTag,
    pub dims: Seq<i32>,
    pub strides: Option<Seq<int>>,
}

/// A configured descriptor: the native handle it owns and what it was
/// configured with.
pub struct DescriptorModel {
    pub handle: u64,
    pub data_type: DataTypeTag,
    pub dims: Seq<i32>,
    pub layout: LayoutModel,
}

impl DescriptorModel {
    pub open spec fn geometry(self) -> Geometry {
        Geometry {
            data_type: self.data_type,
            dims: self.dims,
            strides: layout_strides(self.dims, self.layout),
        }
    }
}

/// Where a construction stands between native calls.
#[derive(Clone, Copy, Debug, PartialEq, Eq, Structural)]
pub enum Phase {
    /// The allocation call has been asked for.
    Creating,
    /// The handle is allocated and the configuration call has been asked for.
    Configuring { handle: u64 },
    /// Configuration failed; the release of the handle has been asked for.
    Releasing { handle: u64, error: CudnnError },
}

/// The outcome of a native call, as the driver reports it.
#[derive(Clone, Copy, Debug, PartialEq, Eq, Structural)]
pub enum Event {
    /// The allocation call returned `status`, and `handle` where it succeeded.
    Created { status: i32, handle: u64 },
    /// The configuration call returned `status`.
    Configured { status: i32 },
    /// The release call returned.
    Destroyed,
}

/// A native call for the driver to issue, with its arguments.
#[derive(Debug, PartialEq, Eq)]
pub enum NativeCall {
    /// Allocate a descriptor handle.
    Create,
    /// Configure `handle` by explicit strides.
    SetNd { handle: u64, data_type: i32, nb_dims: i32, dims: Vec<i32>, strides: Vec<i32> },
    /// Configure `handle` by a named layout.
    SetNdEx { handle: u64, format: i32, data_type: i32, nb_dims: i32, dims: Vec<i32> },
    /// Release `handle`.
    Destroy { handle: u64 },
}

pub enum CallModel {
    Create,
    SetNd { handle: u64, data_type: i32, nb_dims: i32, dims: Seq<i32>, strides: Seq<i32> },
    SetNdEx { handle: u64, format: i32, data_type: i32, nb_dims: i32, dims: Seq<i32> },
    Destroy { handle: u64 },
}

impl View for NativeCall {
    type V = CallModel;

    open spec fn view(&self) -> CallModel {
        match self {
            NativeCall::Create => CallModel::Create,
            NativeCall::SetNd { handle, data_type, nb_dims, dims, strides } => CallModel::SetNd {
                handle: *handle,
                data_type: *data_type,
                nb_dims: *nb_dims,
                dims: dims@,
                strides: strides@,
            },
            NativeCall::SetNdEx { handle, format, data_type, nb_dims, dims } => CallModel::SetNdEx {
                handle: *handle,
                format: *format,
                data_type: *data_type,
                nb_dims: *nb_dims,
                dims: dims@,
            },
            NativeCall::Destroy { handle } => CallModel::Destroy { handle: *handle },
        }
    }
}

/// A descriptor under construction.
pub struct ConstructionModel {
    pub data_type: DataTypeTag,
    pub dims: Seq<i32>,
    pub layout: LayoutModel,
    pub phase: Phase,
}

impl ConstructionModel {
    /// The rank fits the native count, and explicit strides match it.
    pub open spec fn wf(self) -> bool {
        &&& self.dims.len() <= i32::MAX
        &&& self.layout matches LayoutModel::Strides(s) ==> s.len() == self.dims.len()
    }

    /// The handle that this construction alone is answerable for.
    pub open spec fn owned(self) -> Option<u64> {
        match self.phase {
            Phase::Configuring { handle } => Some(handle),
            _ => None,
        }
    }

    /// Whether `e` reports the call that this phase waits on.
    pub open spec fn accepts(self, e: Event) -> bool {
        match self.phase {
            Phase::Creating => e is Created,
            Phase::Configuring { .. } => e is Configured,
            Phase::Releasing { .. } => e is Destroyed,
        }
    }

    pub open spec fn with_phase(self, phase: Phase) -> ConstructionModel {
        ConstructionModel { phase, ..self }
    }

    /// The configuration call for `handle`: element type, rank as the count of
    /// extents, extents, then strides or the layout tag.
    pub open spec fn configure_call(self, handle: u64) -> CallModel {
        match self.layout {
            LayoutModel::Strides(s) => CallModel::SetNd {
                handle,
                data_type: raw_data_type(self.data_type),
                nb_dims: self.dims.len() as i32,
                dims: self.dims,
                strides: s,
            },
            LayoutModel::Format(f) => CallModel::SetNdEx {
                handle,
                format: raw_format(f),
                data_type: raw_data_type(self.data_type),
                nb_dims: self.dims.len() as i32,
                dims: self.dims,
            },
        }
    }

    /// The descriptor that `handle` becomes once configured.
    pub open spec fn descriptor(self, handle: u64) -> DescriptorModel {
        DescriptorModel { handle, data_type: self.data_type, dims: self.dims, layout: self.layout }
    }
}

/// The start of a construction: nothing allocated, the allocation call asked for.
pub open spec fn started(data_type: DataTypeTag, dims: Seq<i32>, layout: LayoutModel) -> ConstructionModel {
    ConstructionModel { data_type, dims, layout, phase: Phase::Creating }
}

/// The call that gives up a configured descriptor.
pub open spec fn release_call(d: DescriptorModel) -> CallModel {
    CallModel::Destroy { handle: d.handle }
}

pub enum StepModel {
    Call(ConstructionModel, CallModel),
    Ready(DescriptorModel),
    Failed(CudnnError),
}

/// One step of a construction. The first failing native call ends it; a
/// handle that was allocated is released before the error is handed back.
pub open spec fn next(c: ConstructionModel, e: Event) -> StepModel {
    match (c.phase, e) {
        (Phase::Creating, Event::Created { status, handle }) => {
            if status == STATUS_SUCCESS {
                StepModel::Call(c.with_phase(Phase::Configuring { handle }), c.configure_call(handle))
            } else {
                StepModel::Failed(CudnnError { status })
            }
        },
        (Phase::Configuring { handle }, Event::Configured { status }) => {
            if status == STATUS_SUCCESS {
                StepModel::Ready(c.descriptor(handle))
            } else {
                StepModel::Call(
                    c.with_phase(Phase::Releasing { handle, error: CudnnError { status } }),
                    CallModel::Destroy { handle },
                )
            }
        },
        (Phase::Releasing { error, .. }, Event::Destroyed) => StepModel::Failed(error),
        _ => arbitrary(),
    }
}

/// A step never loses a handle, nor releases one twice: an allocated handle
/// leaves a construction only by the one call that releases it, or inside the
/// configured descriptor; a release is asked for only of the handle held, which
/// is then no longer held; and a construction that fails holds nothing.
pub proof fn lemma_handle_accounting(c: ConstructionModel, e: Event)
    requires
        c.wf(),
        c.accepts(e),
    ensures
        match next(c, e) {
            StepModel::Call(c2, call) => {
                &&& c2.wf()
                &&& !c2.accepts(e)
                &&& (call matches CallModel::Destroy { handle } ==> c.owned() == Some(handle)
                    && c2.owned() is None)
                &&& (!(call is Destroy) ==> c.owned() is None && (e matches Event::Created {
                    handle,
                    ..
                } && c2.owned() == Some(handle)))
            },
            StepModel::Ready(d) => c.owned() == Some(d.handle),
            StepModel::Failed(_) => c.owned() is None,
        },
{
}

/// A construction whose native calls all succeed issues the allocation and the
/// configuration, releases nothing on the way, and yields a descriptor of the
/// allocated handle; giving that descriptor up releases the handle once.
pub proof fn lemma_successful_construction(
    data_type: DataTypeTag,
    dims: Seq<i32>,
    layout: LayoutModel,
    handle: u64,
)
    requires
        started(data_type, dims, layout).wf(),
    ensures
        ({
            let c = started(data_type, dims, layout);
            let configuring = c.with_phase(Phase::Configuring { handle });
            &&& next(c, Event::Created { status: STATUS_SUCCESS, handle }) == StepModel::Call(
                configuring,
                c.configure_call(handle),
            )
            &&& !(c.configure_call(handle) is Destroy)
            &&& next(configuring, Event::Configured { status: STATUS_SUCCESS }) == StepModel::Ready(
                c.descriptor(handle),
            )
            &&& c.descriptor(handle).handle == handle
            &&& release_call(c.descriptor(handle)) == (CallModel::Destroy { handle })
        }),
{
}

/// Where the allocation fails the construction ends with that status and
/// releases nothing. Where configuration fails, the allocated handle is
/// released by exactly one call, and the construction then ends with the
/// configuration's status.
pub proof fn lemma_failed_construction(
    data_type: DataTypeTag,
    dims: Seq<i32>,
    layout: LayoutModel,
    handle: u64,
    status: i32,
)
    requires
        started(data_type, dims, layout).wf(),
        status != STATUS_SUCCESS,
    ensures
        ({
            let c = started(data_type, dims, layout);
            let configuring = c.with_phase(Phase::Configuring { handle });
            let error = CudnnError { status };
            let releasing = c.with_phase(Phase::Releasing { handle, error });
            &&& next(c, Event::Created { status, handle }) == StepModel::Failed(error)
            &&& next(configuring, Event::Configured { status }) == StepModel::Call(
                releasing,
                CallModel::Destroy { handle },
            )
            &&& releasing.owned() is None
            &&& next(releasing, Event::Destroyed) == StepModel::Failed(error)
        }),
{
}

/// A descriptor configured with explicit row-major strides and one configured
/// with the packed row-major format, over the same extents and element type,
/// read the same to every operation that looks at element type, extents and
/// strides.
pub proof fn lemma_row_major_interchangeable(
    data_type: DataTypeTag,
    dims: Seq<i32>,
    strides: Seq<i32>,
    handle: u64,
)
    requires
        widen_i32(strides) == row_major_strides(dims),
    ensures
        started(data_type, dims, LayoutModel::Strides(strides)).descriptor(handle).geometry()
            == started(data_type, dims, LayoutModel::Format(TensorFormat::Nchw)).descriptor(
            handle,
        ).geometry(),
{
}

/// A generic description of an n-dimensional dataset: the native handle it
/// owns, and the element type, extents and layout it was configured with.
pub struct TensorDescriptor<T: DataType> {
    raw: u64,
    shape: Vec<i32>,
    layout: Layout,
    data_type: PhantomData<T>,
}

impl<T: DataType> View for TensorDescriptor<T> {
    type V = DescriptorModel;

    closed spec fn view(&self) -> DescriptorModel {
        DescriptorModel {
            handle: self.raw,
            data_type: T::spec_tag(),
            dims: self.shape@,
            layout: self.layout@,
        }
    }
}

/// A descriptor on its way from allocation to configuration.
pub struct Construction<T: DataType> {
    shape: Vec<i32>,
    layout: Layout,
    phase: Phase,
    data_type: PhantomData<T>,
}

impl<T: DataType> View for Construction<T> {
    type V = ConstructionModel;

    closed spec fn view(&self) -> ConstructionModel {
        ConstructionModel {
            data_type: T::spec_tag(),
            dims: self.shape@,
            layout: self.layout@,
            phase: self.phase,
        }
    }
}

/// What a step of a construction leads to.
pub enum Step<T: DataType> {
    /// Issue the call, then report its outcome to the construction.
    Call(Construction<T>, NativeCall),
    /// The descriptor is allocated and configured.
    Ready(TensorDescriptor<T>),
    /// A native call failed; nothing is left allocated.
    Failed(CudnnError),
}

impl<T: DataType> View for Step<T> {
    type V = StepModel;

    closed spec fn view(&self) -> StepModel {
        match self {
            Step::Call(c, call) => StepModel::Call(c@, call@),
            Step::Ready(d) => StepModel::Ready(d@),
            Step::Failed(e) => StepModel::Failed(*e),
        }
    }
}

impl<T: DataType> TensorDescriptor<T> {
    /// Starts a descriptor with the given extents and strides, one of each per
    /// axis. The first call to issue is the allocation.
    pub fn new_strides(shape: &[i32], strides: &[i32]) -> (r: (Construction<T>, NativeCall))
        requires
            shape@.len() == strides@.len(),
            shape@.len() <= i32::MAX,
        ensures
            r.0@ == started(T::spec_tag(), shape@, LayoutModel::Strides(strides@)),
            r.1@ == CallModel::Create,
    {
        let c = Construction {
            shape: slice_to_vec(shape),
            layout: Layout::Strides(slice_to_vec(strides)),
            phase: Phase::Creating,
            data_type: PhantomData,
        };
        (c, NativeCall::Create)
    }

    /// Starts a descriptor with the given extents and a named layout. The first
    /// call to issue is the allocation.
    pub fn new_format(shape: &[i32], format: TensorFormat) -> (r: (Construction<T>, NativeCall))
        requires
            shape@.len() <= i32::MAX,
        ensures
            r.0@ == started(T::spec_tag(), shape@, LayoutModel::Format(format)),
            r.1@ == CallModel::Create,
    {
        let c = Construction {
            shape: slice_to_vec(shape),
            layout: Layout::Format(format),
            phase: Phase::Creating,
            data_type: PhantomData,
        };
        (c, NativeCall::Create)
    }

    /// The native handle this descriptor owns.
    pub fn handle(&self) -> (r: u64)
        ensures
            r == self@.handle,
    {
        self.raw
    }

    /// The element type the descriptor was configured with.
    pub fn data_type(&self) -> (r: DataTypeTag)
        ensures
            r == self@.data_type,
    {
        T::tag()
    }

    /// The number of axes.
    pub fn rank(&self) -> (r: usize)
        ensures
            r == self@.dims.len(),
    {
        self.shape.len()
    }

    /// The extent of each axis.
    pub fn dims(&self) -> (r: &[i32])
        ensures
            r@ == self@.dims,
    {
        self.shape.as_slice()
    }

    /// The named layout the descriptor was configured with, if any.
    pub fn format(&self) -> (r: Option<TensorFormat>)
        ensures
            r == (match self@.layout {
                LayoutModel::Format(f) => Some(f),
                LayoutModel::Strides(_) => None,
            }),
    {
        match &self.layout {
            Layout::Format(f) => Some(*f),
            Layout::Strides(_) => None,
        }
    }

    /// The stride of each axis, where the layout gives one per axis and each
    /// fits in an `i64`.
    pub fn strides(&self) -> (r: Option<Vec<i64>>)
        ensures
            self@.geometry().strides is None ==> r is None,
            self@.geometry().strides matches Some(st) ==> (r is Some <==> all_fit_i64(st)),
            self@.geometry().strides matches Some(st) ==> (r matches Some(v) ==> widen_i64(v@)
                == st),
    {
        match &self.layout {
            Layout::Strides(st) => {
                let mut out: Vec<i64> = Vec::new();
                let mut i: usize = 0;
                while i < st.len()
                    invariant
                        i <= st@.len(),
                        out@.len() == i,
                        forall|j: int| 0 <= j < i ==> out@[j] as int == st@[j] as int,
                    decreases st@.len() - i,
                {
                    out.push(st[i] as i64);
                    i = i + 1;
                }
                assert(widen_i64(out@) =~= widen_i32(st@));
                assert(all_fit_i64(widen_i32(st@)));
                Some(out)
            },
            Layout::Format(TensorFormat::Nchw) => {
                let r = row_major(self.shape.as_slice());
                if let Some(v) = &r {
                    assert(widen_i64(v@) =~= row_major_strides(self.shape@));
                }
                r
            },
            Layout::Format(TensorFormat::Nhwc) => {
                let r = channels_last(self.shape.as_slice());
                if let Some(v) = &r {
                    assert(widen_i64(v@) =~= channels_last_strides(self.shape@));
                }
                r
            },
            Layout::Format(_) => None,
        }
    }

    /// Gives up the descriptor: the call that releases its handle. The
    /// descriptor is consumed, so its handle is released once.
    pub fn release(self) -> (r: NativeCall)
        ensures
            r@ == release_call(self@),
    {
        NativeCall::Destroy { handle: self.raw }
    }
}

impl<T: DataType> Construction<T> {
    /// Whether `e` reports the call that this construction waits on.
    pub fn accepts(&self, e: &Event) -> (r: bool)
        ensures
            r == self@.accepts(*e),
    {
        match (self.phase, e) {
            (Phase::Creating, Event::Created { .. }) => true,
            (Phase::Configuring { .. }, Event::Configured { .. }) => true,
            (Phase::Releasing { .. }, Event::Destroyed) => true,
            _ => false,
        }
    }

    /// The phase this construction is in.
    pub fn phase(&self) -> (r: Phase)
        ensures
            r == self@.phase,
    {
        self.phase
    }

    /// Takes the outcome of the call last asked for, and decides what comes next.
    pub fn advance(self, e: Event) -> (r: Step<T>)
        requires
            self@.wf(),
            self@.accepts(e),
        ensures
            r@ == next(self@, e),
            r matches Step::Call(c, _) ==> c@.wf(),
    {
        match (self.phase, e) {
            (Phase::Creating, Event::Created { status, handle }) => {
                if status == STATUS_SUCCESS {
                    let call = self.configure_call(handle);
                    let c = Construction { phase: Phase::Configuring { handle }, ..self };
                    Step::Call(c, call)
                } else {
                    Step::Failed(CudnnError { status })
                }
            },
            (Phase::Configuring { handle }, Event::Configured { status }) => {
                if status == STATUS_SUCCESS {
                    Step::Ready(
                        TensorDescriptor {
                            raw: handle,
                            shape: self.shape,
                            layout: self.layout,
                            data_type: PhantomData,
                        },
                    )
                } else {
                    let error = CudnnError { status };
                    let c = Construction { phase: Phase::Releasing { handle, error }, ..self };
                    Step::Call(c, NativeCall::Destroy { handle })
                }
            },
            (Phase::Releasing { error, .. }, Event::Destroyed) => Step::Failed(error),
            _ => vstd::pervasive::unreached(),
        }
    }

    fn configure_call(&self, handle: u64) -> (r: NativeCall)
        requires
            self@.wf(),
        ensures
            r@ == self@.configure_call(handle),
    {
        let data_type = T::tag().into_raw();
        let nb_dims = self.shape.len() as i32;
        let dims = slice_to_vec(self.shape.as_slice());
        match &self.layout {
            Layout::Strides(s) => NativeCall::SetNd {
                handle,
                data_type,
                nb_dims,
                dims,
                strides: slice_to_vec(s.as_slice()),
            },
            Layout::Format(f) => NativeCall::SetNdEx { handle, format: f.into_raw(), data_type, nb_dims, dims },
        }
    }
}

} // verus!
