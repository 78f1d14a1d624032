use cudnn::data_type::{DataTypeTag, Float32, Float64, Int8};
use cudnn::error::{into_result, CudnnError};
use cudnn::tensor_descriptor::{Construction, Event, NativeCall, Phase, Step, TensorDescriptor};
use cudnn::tensor_format::{channels_last, row_major, TensorFormat};

const BAD_PARAM: i32 = 3;
const ALLOC_FAILED: i32 = 4;

fn call_of<T: cudnn::data_type::DataType>(step: Step<T>) -> (Construction<T>, NativeCall) {
    match step {
        Step::Call(c, call) => (c, call),
        Step::Ready(_) => panic!("expected a call, got a descriptor"),
        Step::Failed(e) => panic!("expected a call, got status {}", e.status()),
    }
}

fn ready_of<T: cudnn::data_type::DataType>(step: Step<T>) -> TensorDescriptor<T> {
    match step {
        Step::Ready(d) => d,
        Step::Call(_, call) => panic!("expected a descriptor, got {:?}", call),
        Step::Failed(e) => panic!("expected a descriptor, got status {}", e.status()),
    }
}

fn failed_of<T: cudnn::data_type::DataType>(step: Step<T>) -> CudnnError {
    match step {
        Step::Failed(e) => e,
        Step::Call(_, call) => panic!("expected a failure, got {:?}", call),
        Step::Ready(_) => panic!("expected a failure, got a descriptor"),
    }
}

fn build<T: cudnn::data_type::DataType>(c: Construction<T>, handle: u64) -> TensorDescriptor<T> {
    let (c, _) = call_of(c.advance(Event::Created { status: 0, handle }));
    ready_of(c.advance(Event::Configured { status: 0 }))
}

#[test]
fn strides_descriptor_of_rank_four() {
    let shape = [5, 5, 10, 25];
    let strides = [1250, 250, 25, 1];
    let (c, first) = TensorDescriptor::<Float32>::new_strides(&shape, &strides);
    assert_eq!(first, NativeCall::Create);
    assert_eq!(c.phase(), Phase::Creating);
    let (c, configure) = call_of(c.advance(Event::Created { status: 0, handle: 7 }));
    assert_eq!(
        configure,
        NativeCall::SetNd {
            handle: 7,
            data_type: 0,
            nb_dims: 4,
            dims: vec![5, 5, 10, 25],
            strides: vec![1250, 250, 25, 1],
        }
    );
    assert_eq!(c.phase(), Phase::Configuring { handle: 7 });
    let d = ready_of(c.advance(Event::Configured { status: 0 }));
    assert_eq!(d.rank(), 4);
    assert_eq!(d.handle(), 7);
    assert_eq!(d.dims(), &[5, 5, 10, 25]);
    assert_eq!(d.data_type(), DataTypeTag::Float);
    assert_eq!(d.format(), None);
    assert_eq!(d.strides(), Some(vec![1250, 250, 25, 1]));
    assert_eq!(d.release(), NativeCall::Destroy { handle: 7 });
}

#[test]
fn row_major_format_descriptor_of_rank_four() {
    let shape = [5, 5, 10, 25];
    let (c, first) = TensorDescriptor::<Float32>::new_format(&shape, TensorFormat::Nchw);
    assert_eq!(first, NativeCall::Create);
    let (c, configure) = call_of(c.advance(Event::Created { status: 0, handle: 9 }));
    assert_eq!(
        configure,
        NativeCall::SetNdEx {
            handle: 9,
            format: 0,
            data_type: 0,
            nb_dims: 4,
            dims: vec![5, 5, 10, 25],
        }
    );
    let d = ready_of(c.advance(Event::Configured { status: 0 }));
    assert_eq!(d.rank(), 4);
    assert_eq!(d.format(), Some(TensorFormat::Nchw));
    assert_eq!(d.strides(), Some(vec![1250, 250, 25, 1]));
    assert_eq!(d.release(), NativeCall::Destroy { handle: 9 });
}

#[test]
fn explicit_and_row_major_descriptors_read_alike() {
    let shape = [5, 5, 10, 25];
    let (a, _) = TensorDescriptor::<Float64>::new_strides(&shape, &[1250, 250, 25, 1]);
    let (b, _) = TensorDescriptor::<Float64>::new_format(&shape, TensorFormat::Nchw);
    let a = build(a, 1);
    let b = build(b, 2);
    assert_eq!(a.data_type(), b.data_type());
    assert_eq!(a.data_type(), DataTypeTag::Double);
    assert_eq!(a.dims(), b.dims());
    assert_eq!(a.rank(), b.rank());
    assert_eq!(a.strides(), b.strides());
}

#[test]
fn successful_construction_releases_nothing_until_given_up() {
    for (shape, strides) in [(vec![3], vec![1]), (vec![2, 3], vec![3, 1]), (vec![4, 1, 2], vec![1, 8, 4])] {
        let (c, first) = TensorDescriptor::<Int8>::new_strides(&shape, &strides);
        assert_eq!(first, NativeCall::Create);
        let (c, configure) = call_of(c.advance(Event::Created { status: 0, handle: 11 }));
        assert!(!matches!(configure, NativeCall::Destroy { .. }));
        let d = ready_of(c.advance(Event::Configured { status: 0 }));
        assert_eq!(d.data_type(), DataTypeTag::Int8);
        assert_eq!(d.rank(), shape.len());
        assert_eq!(d.strides(), Some(strides.iter().map(|&x| x as i64).collect()));
        assert_eq!(d.release(), NativeCall::Destroy { handle: 11 });
    }
}

#[test]
fn configuration_failure_releases_the_handle_once() {
    let (c, _) = TensorDescriptor::<Float32>::new_strides(&[5, 0, 10, 25], &[0, 250, 25, 1]);
    let (c, _) = call_of(c.advance(Event::Created { status: 0, handle: 21 }));
    let (c, release) = call_of(c.advance(Event::Configured { status: BAD_PARAM }));
    assert_eq!(release, NativeCall::Destroy { handle: 21 });
    assert_eq!(
        c.phase(),
        Phase::Releasing { handle: 21, error: CudnnError { status: BAD_PARAM } }
    );
    let e = failed_of(c.advance(Event::Destroyed));
    assert_eq!(e.status(), BAD_PARAM);
}

#[test]
fn format_configuration_failure_releases_the_handle_once() {
    let (c, _) = TensorDescriptor::<Float32>::new_format(&[5, -1, 10, 25], TensorFormat::Nhwc);
    let (c, _) = call_of(c.advance(Event::Created { status: 0, handle: 22 }));
    let (c, release) = call_of(c.advance(Event::Configured { status: BAD_PARAM }));
    assert_eq!(release, NativeCall::Destroy { handle: 22 });
    assert_eq!(failed_of(c.advance(Event::Destroyed)), CudnnError { status: BAD_PARAM });
}

#[test]
fn allocation_failure_releases_nothing() {
    let (c, _) = TensorDescriptor::<Float32>::new_strides(&[2, 2], &[2, 1]);
    let e = failed_of(c.advance(Event::Created { status: ALLOC_FAILED, handle: 0 }));
    assert_eq!(e, CudnnError { status: ALLOC_FAILED });
}

#[test]
fn construction_accepts_only_the_awaited_outcome() {
    let (c, _) = TensorDescriptor::<Float32>::new_format(&[1, 2, 3, 4], TensorFormat::Nchw);
    assert!(c.accepts(&Event::Created { status: 0, handle: 3 }));
    assert!(!c.accepts(&Event::Configured { status: 0 }));
    assert!(!c.accepts(&Event::Destroyed));
    let (c, _) = call_of(c.advance(Event::Created { status: 0, handle: 3 }));
    assert!(c.accepts(&Event::Configured { status: 0 }));
    assert!(!c.accepts(&Event::Destroyed));
}

#[test]
fn channels_last_descriptor_strides() {
    let (c, _) = TensorDescriptor::<Float32>::new_format(&[2, 3, 4, 5], TensorFormat::Nhwc);
    let d = build(c, 5);
    assert_eq!(d.format(), Some(TensorFormat::Nhwc));
    assert_eq!(d.strides(), Some(vec![60, 1, 15, 3]));
}

#[test]
fn vectorised_format_has_no_per_axis_strides() {
    let (c, _) = TensorDescriptor::<Float32>::new_format(&[2, 8, 4, 5], TensorFormat::NchwVectC);
    let (c, configure) = call_of(c.advance(Event::Created { status: 0, handle: 6 }));
    assert_eq!(
        configure,
        NativeCall::SetNdEx { handle: 6, format: 2, data_type: 0, nb_dims: 4, dims: vec![2, 8, 4, 5] }
    );
    let d = ready_of(c.advance(Event::Configured { status: 0 }));
    assert_eq!(d.strides(), None);
}

#[test]
fn row_major_strides_exact() {
    assert_eq!(row_major(&[5, 5, 10, 25]), Some(vec![1250, 250, 25, 1]));
    assert_eq!(row_major(&[7]), Some(vec![1]));
    assert_eq!(row_major(&[]), Some(vec![]));
    assert_eq!(row_major(&[3, 0, 2]), Some(vec![0, 2, 1]));
}

#[test]
fn row_major_strides_overflow() {
    let m = i32::MAX;
    assert_eq!(row_major(&[1, m, m, m, 2]), None);
    assert_eq!(row_major(&[m, m, m]), Some(vec![(m as i64) * (m as i64), m as i64, 1]));
}

#[test]
fn channels_last_strides_exact() {
    assert_eq!(channels_last(&[2, 3, 4, 5]), Some(vec![60, 1, 15, 3]));
    assert_eq!(channels_last(&[1, 16, 8, 8]), Some(vec![1024, 1, 128, 16]));
    assert_eq!(channels_last(&[4, 6]), Some(vec![6, 1]));
    assert_eq!(channels_last(&[9]), Some(vec![1]));
    let m = i32::MAX;
    assert_eq!(channels_last(&[1, m, m, m, 2]), None);
}

#[test]
fn native_constants() {
    assert_eq!(DataTypeTag::Float.into_raw(), 0);
    assert_eq!(DataTypeTag::Double.into_raw(), 1);
    assert_eq!(DataTypeTag::Half.into_raw(), 2);
    assert_eq!(DataTypeTag::Int8.into_raw(), 3);
    assert_eq!(DataTypeTag::Int32.into_raw(), 4);
    assert_eq!(DataTypeTag::Uint8.into_raw(), 6);
    assert_eq!(DataTypeTag::Int64.into_raw(), 10);
    assert_eq!(TensorFormat::Nchw.into_raw(), 0);
    assert_eq!(TensorFormat::Nhwc.into_raw(), 1);
    assert_eq!(TensorFormat::NchwVectC.into_raw(), 2);
}

#[test]
fn status_codes() {
    assert_eq!(into_result(0), Ok(()));
    assert_eq!(into_result(BAD_PARAM), Err(CudnnError { status: BAD_PARAM }));
    assert_eq!(CudnnError { status: 8 }.status(), 8);
}
