use vstd::prelude::*;
use vstd::slice::slice_to_vec;
use vstd::string::StringSliceAdditionalSpecFns;

verus! {

/// The three-character ILP error code of a Reject, as ASCII bytes.
#[derive(Clone, Copy, Debug, PartialEq, Eq)]
pub struct ErrorCode {
    pub bytes: [u8; 3],
}

/// `R00`: a time-related refusal.
pub open spec fn r00_bytes() -> Seq<u8> {
    seq![82u8, 48u8, 48u8]
}

/// `F09`: a response that violates the protocol.
pub open spec fn f09_bytes() -> Seq<u8> {
    seq![70u8, 48u8, 57u8]
}

impl ErrorCode {
    /// `R00_TRANSFER_TIMED_OUT`.
    pub fn transfer_timed_out() -> (c: ErrorCode)
        ensures
            c.bytes@ == r00_bytes(),
    {
        let c = ErrorCode { bytes: [82u8, 48u8, 48u8] };
        assert(c.bytes@ =~= r00_bytes());
        c
    }

    /// `F09_INVALID_PEER_RESPONSE`.
    pub fn invalid_peer_response() -> (c: ErrorCode)
        ensures
            c.bytes@ == f09_bytes(),
    {
        let c = ErrorCode { bytes: [70u8, 48u8, 57u8] };
        assert(c.bytes@ =~= f09_bytes());
        c
    }
}

/// A Prepare packet, as far as a hop reads it. `expires_at` is the expiry
/// instant in milliseconds since the Unix epoch (UTC).
#[derive(Clone, Debug)]
pub struct Prepare {
    pub destination: Vec<u8>,
    pub amount: u64,
    pub expires_at: i64,
    pub execution_condition: [u8; 32],
    pub data: Vec<u8>,
}

/// A Fulfill packet: the preimage of the condition and opaque data.
#[derive(Clone, Debug)]
pub struct Fulfill {
    pub fulfillment: [u8; 32],
    pub data: Vec<u8>,
}

/// A Reject packet.
#[derive(Clone, Debug)]
pub struct Reject {
    pub code: ErrorCode,
    pub message: Vec<u8>,
    pub triggered_by: Vec<u8>,
    pub data: Vec<u8>,
}

/// The message of the Reject that replaces a Fulfill whose preimage does not
/// hash to the condition.
pub const INVALID_FULFILLMENT_MESSAGE: &'static str = "Fulfillment did not match condition";

pub open spec fn invalid_fulfillment_message() -> Seq<u8> {
    INVALID_FULFILLMENT_MESSAGE.spec_bytes()
}

/// A Reject with code `R00` and every other field empty.
pub open spec fn is_timed_out_reject(r: Reject) -> bool {
    &&& r.code.bytes@ == r00_bytes()
    &&& r.message@.len() == 0
    &&& r.triggered_by@.len() == 0
    &&& r.data@.len() == 0
}

/// A Reject with code `F09`, the mismatch message, and empty
/// `triggered_by` and `data`.
pub open spec fn is_invalid_fulfillment_reject(r: Reject) -> bool {
    &&& r.code.bytes@ == f09_bytes()
    &&& r.message@ == invalid_fulfillment_message()
    &&& r.triggered_by@.len() == 0
    &&& r.data@.len() == 0
}

impl Reject {
    /// The Reject for an expired packet or a missed deadline.
    pub fn timed_out() -> (r: Reject)
        ensures
            is_timed_out_reject(r),
    {
        Reject {
            code: ErrorCode::transfer_timed_out(),
            message: Vec::new(),
            triggered_by: Vec::new(),
            data: Vec::new(),
        }
    }

    /// The Reject for a Fulfill that does not match the condition.
    pub fn invalid_fulfillment() -> (r: Reject)
        ensures
            is_invalid_fulfillment_reject(r),
    {
        Reject {
            code: ErrorCode::invalid_peer_response(),
            message: slice_to_vec(INVALID_FULFILLMENT_MESSAGE.as_bytes()),
            triggered_by: Vec::new(),
            data: Vec::new(),
        }
    }
}

} // verus!
