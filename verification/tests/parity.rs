use driver_parity::call::{Call, Request, Written};
use driver_parity::handle::{CUcontext, CUdeviceptr, CUuuid};
use driver_parity::parity::{agree, first_divergence, parity, same_written, Level};
use driver_parity::result::CUresult;

fn init(code: u32) -> Call {
    Call {
        request: Request::Init { flags: 0 },
        given: Written::Nothing,
        code: CUresult(code),
        written: Written::Nothing,
    }
}

fn create(code: u32, handle: u64) -> Call {
    Call {
        request: Request::CtxCreate { flags: 0, dev: 0 },
        given: Written::Context(CUcontext(0)),
        code: CUresult(code),
        written: Written::Context(CUcontext(handle)),
    }
}

fn uuid(code: u32, id: u128) -> Call {
    Call {
        request: Request::DeviceGetUuid { dev: 0 },
        given: Written::Uuid(CUuuid(0)),
        code: CUresult(code),
        written: Written::Uuid(CUuuid(id)),
    }
}

#[test]
fn handles_compare_by_being_null_or_not() {
    assert!(same_written(Written::Context(CUcontext(0x10)), Written::Context(CUcontext(0x20))));
    assert!(same_written(Written::Context(CUcontext(0)), Written::Context(CUcontext(0))));
    assert!(!same_written(Written::Context(CUcontext(0)), Written::Context(CUcontext(0x20))));
    assert!(same_written(Written::DevicePtr(CUdeviceptr(8)), Written::DevicePtr(CUdeviceptr(16))));
    assert!(!same_written(Written::DevicePtr(CUdeviceptr(8)), Written::DevicePtr(CUdeviceptr(0))));
}

#[test]
fn values_compare_by_equality() {
    assert!(same_written(Written::Version(3020), Written::Version(3020)));
    assert!(!same_written(Written::Version(3020), Written::Version(3010)));
    assert!(same_written(Written::Uuid(CUuuid(7)), Written::Uuid(CUuuid(7))));
    assert!(!same_written(Written::Uuid(CUuuid(7)), Written::Uuid(CUuuid(8))));
    assert!(same_written(
        Written::PrimaryCtxState { flags: 1, active: 0 },
        Written::PrimaryCtxState { flags: 1, active: 0 }
    ));
    assert!(!same_written(
        Written::PrimaryCtxState { flags: 1, active: 0 },
        Written::PrimaryCtxState { flags: 1, active: 1 }
    ));
    assert!(same_written(Written::Nothing, Written::Nothing));
}

#[test]
fn outputs_of_different_shape_never_compare_equal() {
    assert!(!same_written(Written::Nothing, Written::Version(0)));
    assert!(!same_written(Written::Context(CUcontext(0)), Written::DevicePtr(CUdeviceptr(0))));
}

#[test]
fn kind_looks_at_success_only() {
    assert!(agree(Level::Kind, create(201, 0), create(400, 0)));
    assert!(agree(Level::Kind, create(0, 1), create(0, 2)));
    assert!(!agree(Level::Kind, create(0, 1), create(400, 0)));
}

#[test]
fn codes_look_at_the_code_only() {
    assert!(agree(Level::Codes, create(0, 1), create(0, 0)));
    assert!(!agree(Level::Codes, create(201, 0), create(400, 0)));
}

#[test]
fn answers_look_at_code_and_output() {
    assert!(agree(Level::Answers, uuid(0, 5), uuid(0, 5)));
    assert!(!agree(Level::Answers, uuid(0, 5), uuid(0, 6)));
    assert!(!agree(Level::Answers, uuid(0, 5), uuid(1, 5)));
    assert!(!agree(Level::Answers, create(0, 1), create(0, 0)));
}

#[test]
fn equal_traces_do_not_diverge() {
    let a = vec![init(0), create(0, 0x10), uuid(0, 9)];
    let b = vec![init(0), create(0, 0x99), uuid(0, 9)];
    assert_eq!(first_divergence(Level::Answers, &a, &b), None);
    assert!(parity(Level::Answers, &a, &b));
    assert!(parity(Level::Codes, &a, &b));
    assert!(parity(Level::Kind, &a, &b));
}

#[test]
fn divergence_is_the_first_disagreement() {
    let a = vec![init(0), create(0, 0x10), uuid(0, 9), uuid(0, 9)];
    let b = vec![init(0), create(0, 0x99), uuid(0, 8), uuid(3, 9)];
    assert_eq!(first_divergence(Level::Answers, &a, &b), Some(2));
    assert_eq!(first_divergence(Level::Codes, &a, &b), Some(3));
    assert_eq!(first_divergence(Level::Kind, &a, &b), Some(3));
    assert!(!parity(Level::Codes, &a, &b));
}

#[test]
fn a_longer_trace_diverges_where_the_shorter_ends() {
    let a = vec![init(0), create(0, 0x10)];
    let b = vec![init(0)];
    assert_eq!(first_divergence(Level::Codes, &a, &b), Some(1));
    assert_eq!(first_divergence(Level::Codes, &b, &a), Some(1));
    assert!(!parity(Level::Kind, &a, &b));
}

#[test]
fn empty_traces_agree() {
    assert_eq!(first_divergence(Level::Answers, &Vec::new(), &Vec::new()), None);
    assert_eq!(first_divergence(Level::Answers, &Vec::new(), &vec![init(0)]), Some(0));
}

#[test]
fn agreement_is_reflexive_and_symmetric() {
    let a = vec![init(3), create(101, 0)];
    let b = vec![init(3), create(101, 0)];
    assert!(parity(Level::Answers, &a, &a));
    assert_eq!(parity(Level::Answers, &a, &b), parity(Level::Answers, &b, &a));
}

#[test]
fn stricter_agreement_implies_looser() {
    let a = vec![init(0), uuid(0, 1)];
    let b = vec![init(0), uuid(0, 1)];
    assert!(parity(Level::Answers, &a, &b));
    assert!(parity(Level::Codes, &a, &b));
    assert!(parity(Level::Kind, &a, &b));
    let c = vec![init(0), uuid(0, 2)];
    assert!(!parity(Level::Answers, &a, &c));
    assert!(parity(Level::Codes, &a, &c));
}
