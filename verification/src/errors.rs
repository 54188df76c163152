//! The kinds of failure that the kernel tells apart.

use vstd::prelude::*;
use crate::allocator::HeapInitError;
use crate::idt::HardwareProtocolViolation;
use crate::idt64::TableMismatch;
use crate::interrupts::{Dispatch, ExceptionDetail, VectorClass};
use crate::page_table_manager::PagingError;
use crate::pic::MaskMismatch;

verus! {

#[derive(Copy, Clone, Debug, PartialEq, Eq, Structural)]
pub enum ErrorClass {
    /// A register read back does not hold what was written.
    HardwareProtocolViolation,
    /// No free frame, no room in the heap window, no usable memory.
    ResourceExhausted,
    /// A page fault on an address that has no mapping.
    UnmappedAccess,
    /// A page was mapped that has a mapping already.
    DoubleMapping,
    /// A page was unmapped that has no mapping.
    NotMapped,
    /// A vector or a frame pointer outside what can be.
    InvalidVector,
    /// Any other exception of the CPU.
    FatalException,
}

impl ErrorClass {
    /// Whether the machine halts on a failure of this kind.
    pub fn is_fatal(&self) -> (r: bool)
        ensures
            r == (*self == ErrorClass::UnmappedAccess || *self == ErrorClass::InvalidVector || *self
                == ErrorClass::FatalException),
    {
        match self {
            ErrorClass::UnmappedAccess => true,
            ErrorClass::InvalidVector => true,
            ErrorClass::FatalException => true,
            _ => false,
        }
    }
}

pub open spec fn paging_class(e: PagingError) -> ErrorClass {
    match e {
        PagingError::OutOfFrames => ErrorClass::ResourceExhausted,
        PagingError::AlreadyMapped => ErrorClass::DoubleMapping,
        PagingError::NotMapped { level } => ErrorClass::NotMapped,
    }
}

/// The kind of a failure to map or unmap.
pub fn classify_paging(e: &PagingError) -> (r: ErrorClass)
    ensures
        r == paging_class(*e),
{
    match e {
        PagingError::OutOfFrames => ErrorClass::ResourceExhausted,
        PagingError::AlreadyMapped => ErrorClass::DoubleMapping,
        PagingError::NotMapped { level } => ErrorClass::NotMapped,
    }
}

/// The kind of a failure to set up the heap.
pub fn classify_heap_init(e: &HeapInitError) -> (r: ErrorClass)
    ensures
        r == ErrorClass::ResourceExhausted,
{
    ErrorClass::ResourceExhausted
}

/// The kind of a table register that reads back wrong.
pub fn classify_descriptor(e: &HardwareProtocolViolation) -> (r: ErrorClass)
    ensures
        r == ErrorClass::HardwareProtocolViolation,
{
    ErrorClass::HardwareProtocolViolation
}

/// The kind of a table register of long mode that reads back wrong.
pub fn classify_table(e: &TableMismatch) -> (r: ErrorClass)
    ensures
        r == ErrorClass::HardwareProtocolViolation,
{
    ErrorClass::HardwareProtocolViolation
}

/// The kind of a mask register that reads back wrong.
pub fn classify_mask(e: &MaskMismatch) -> (r: ErrorClass)
    ensures
        r == ErrorClass::HardwareProtocolViolation,
{
    ErrorClass::HardwareProtocolViolation
}

pub open spec fn dispatch_class(d: Dispatch) -> Option<ErrorClass> {
    match d.class {
        VectorClass::Invalid => Some(ErrorClass::InvalidVector),
        VectorClass::Exception => match d.report {
            Some(report) => match report.detail {
                ExceptionDetail::PageFault(info) => if info.protection_violation {
                    Some(ErrorClass::FatalException)
                } else {
                    Some(ErrorClass::UnmappedAccess)
                },
                _ => Some(ErrorClass::FatalException),
            },
            None => Some(ErrorClass::FatalException),
        },
        _ => None,
    }
}

/// The kind of failure that a decision of the dispatcher stands for, if
/// it stands for one: a page fault on a page that is not there is an
/// unmapped access, any other exception is fatal as it is, and what is no
/// vector is an invalid vector.
pub fn classify_dispatch(d: &Dispatch) -> (r: Option<ErrorClass>)
    ensures
        r == dispatch_class(*d),
{
    match d.class {
        VectorClass::Invalid => Some(ErrorClass::InvalidVector),
        VectorClass::Exception => match d.report {
            Some(report) => match report.detail {
                ExceptionDetail::PageFault(info) => if info.protection_violation {
                    Some(ErrorClass::FatalException)
                } else {
                    Some(ErrorClass::UnmappedAccess)
                },
                _ => Some(ErrorClass::FatalException),
            },
            None => Some(ErrorClass::FatalException),
        },
        _ => None,
    }
}

/// Whatever the dispatcher decides to halt for is a fatal kind of
/// failure, and it halts for every such kind.
pub proof fn lemma_halt_iff_fatal(frame: crate::interrupts::InterruptFrame, fault_address: u64)
    ensures
        ({
            let d = crate::interrupts::dispatch_of(frame, fault_address);
            d.halt <==> dispatch_class(d) is Some
        }),
{
}

} // verus!
