//! The enumerated status and type codes of the native engine's C interface,
//! and the delegate configuration values, as plain verified data.
//!
//! The native interface reports every outcome as a numeric status code and
//! describes every tensor element kind as a numeric type code.  Both sets are
//! closed: a code outside them is not a silent default but an error.  The
//! enumerations here carry that mapping in both directions with exact
//! contracts, so the unverified code that makes the raw calls only ever moves
//! plain integers across the boundary.

use vstd::prelude::*;

verus! {

/// Status code returned by calls into the native engine.
///
/// `kTfLiteOk` is the only success value; every other variant reports a
/// failure of an increasingly specific kind.
#[allow(non_camel_case_types)]
#[derive(Debug, Clone, Copy, PartialEq, Eq, Structural)]
pub enum TfLiteStatus {
    kTfLiteOk,
    kTfLiteError,
    kTfLiteDelegateError,
    kTfLiteApplicationError,
    kTfLiteDelegateDataNotFound,
    kTfLiteDelegateDataWriteError,
    kTfLiteDelegateDataReadError,
    kTfLiteUnresolvedOps,
}

impl TfLiteStatus {
    /// The numeric value this status carries in the C interface.
    pub open spec fn spec_code(self) -> i32 {
        match self {
            TfLiteStatus::kTfLiteOk => 0,
            TfLiteStatus::kTfLiteError => 1,
            TfLiteStatus::kTfLiteDelegateError => 2,
            TfLiteStatus::kTfLiteApplicationError => 3,
            TfLiteStatus::kTfLiteDelegateDataNotFound => 4,
            TfLiteStatus::kTfLiteDelegateDataWriteError => 5,
            TfLiteStatus::kTfLiteDelegateDataReadError => 6,
            TfLiteStatus::kTfLiteUnresolvedOps => 7,
        }
    }

    /// Returns the numeric value this status carries in the C interface.
    pub fn code(self) -> (r: i32)
        ensures
            r == self.spec_code(),
    {
        match self {
            TfLiteStatus::kTfLiteOk => 0,
            TfLiteStatus::kTfLiteError => 1,
            TfLiteStatus::kTfLiteDelegateError => 2,
            TfLiteStatus::kTfLiteApplicationError => 3,
            TfLiteStatus::kTfLiteDelegateDataNotFound => 4,
            TfLiteStatus::kTfLiteDelegateDataWriteError => 5,
            TfLiteStatus::kTfLiteDelegateDataReadError => 6,
            TfLiteStatus::kTfLiteUnresolvedOps => 7,
        }
    }

    /// Maps a numeric status code received from the native engine back to the
    /// enumeration; `None` for a code outside the closed set.
    pub fn from_code(code: i32) -> (r: Option<TfLiteStatus>)
        ensures
            (r is Some) <==> (0 <= code <= 7),
            r matches Some(s) ==> s.spec_code() == code,
    {
        match code {
            0 => Some(TfLiteStatus::kTfLiteOk),
            1 => Some(TfLiteStatus::kTfLiteError),
            2 => Some(TfLiteStatus::kTfLiteDelegateError),
            3 => Some(TfLiteStatus::kTfLiteApplicationError),
            4 => Some(TfLiteStatus::kTfLiteDelegateDataNotFound),
            5 => Some(TfLiteStatus::kTfLiteDelegateDataWriteError),
            6 => Some(TfLiteStatus::kTfLiteDelegateDataReadError),
            7 => Some(TfLiteStatus::kTfLiteUnresolvedOps),
            _ => None,
        }
    }

    /// Maps a numeric status code received from the native engine to the
    /// enumeration, treating a code outside the closed set as the generic
    /// failure: a status the layer cannot name is still a failure, never a
    /// silent success.
    pub fn from_code_lossy(code: i32) -> (r: TfLiteStatus)
        ensures
            0 <= code <= 7 ==> r.spec_code() == code,
            !(0 <= code <= 7) ==> r is kTfLiteError,
    {
        match TfLiteStatus::from_code(code) {
            Some(s) => s,
            None => TfLiteStatus::kTfLiteError,
        }
    }

    /// True exactly for the success status.
    pub fn is_ok(&self) -> (r: bool)
        ensures
            r == (*self is kTfLiteOk),
    {
        *self == TfLiteStatus::kTfLiteOk
    }

    /// True exactly for the non-success statuses.
    pub fn is_error(&self) -> (r: bool)
        ensures
            r == (*self !is kTfLiteOk),
    {
        *self != TfLiteStatus::kTfLiteOk
    }
}

/// Type code the native engine uses to describe a tensor's element kind.
#[allow(non_camel_case_types)]
#[derive(Debug, Clone, Copy, PartialEq, Eq, Structural)]
pub enum TfLiteType {
    kTfLiteNoType,
    kTfLiteFloat32,
    kTfLiteInt32,
    kTfLiteUInt8,
    kTfLiteInt64,
    kTfLiteString,
    kTfLiteBool,
    kTfLiteInt16,
    kTfLiteComplex64,
    kTfLiteInt8,
    kTfLiteFloat16,
    kTfLiteFloat64,
    kTfLiteComplex128,
    kTfLiteUInt64,
    kTfLiteResource,
    kTfLiteVariant,
    kTfLiteUInt32,
}

impl TfLiteType {
    /// The numeric value this type code carries in the C interface.
    pub open spec fn spec_code(self) -> i32 {
        match self {
            TfLiteType::kTfLiteNoType => 0,
            TfLiteType::kTfLiteFloat32 => 1,
            TfLiteType::kTfLiteInt32 => 2,
            TfLiteType::kTfLiteUInt8 => 3,
            TfLiteType::kTfLiteInt64 => 4,
            TfLiteType::kTfLiteString => 5,
            TfLiteType::kTfLiteBool => 6,
            TfLiteType::kTfLiteInt16 => 7,
            TfLiteType::kTfLiteComplex64 => 8,
            TfLiteType::kTfLiteInt8 => 9,
            TfLiteType::kTfLiteFloat16 => 10,
            TfLiteType::kTfLiteFloat64 => 11,
            TfLiteType::kTfLiteComplex128 => 12,
            TfLiteType::kTfLiteUInt64 => 13,
            TfLiteType::kTfLiteResource => 14,
            TfLiteType::kTfLiteVariant => 15,
            TfLiteType::kTfLiteUInt32 => 16,
        }
    }

    /// Returns the numeric value this type code carries in the C interface.
    pub fn code(self) -> (r: i32)
        ensures
            r == self.spec_code(),
    {
        match self {
            TfLiteType::kTfLiteNoType => 0,
            TfLiteType::kTfLiteFloat32 => 1,
            TfLiteType::kTfLiteInt32 => 2,
            TfLiteType::kTfLiteUInt8 => 3,
            TfLiteType::kTfLiteInt64 => 4,
            TfLiteType::kTfLiteString => 5,
            TfLiteType::kTfLiteBool => 6,
            TfLiteType::kTfLiteInt16 => 7,
            TfLiteType::kTfLiteComplex64 => 8,
            TfLiteType::kTfLiteInt8 => 9,
            TfLiteType::kTfLiteFloat16 => 10,
            TfLiteType::kTfLiteFloat64 => 11,
            TfLiteType::kTfLiteComplex128 => 12,
            TfLiteType::kTfLiteUInt64 => 13,
            TfLiteType::kTfLiteResource => 14,
            TfLiteType::kTfLiteVariant => 15,
            TfLiteType::kTfLiteUInt32 => 16,
        }
    }

    /// Maps a numeric type code received from the native engine back to the
    /// enumeration; `None` for a code outside the closed set.
    pub fn from_code(code: i32) -> (r: Option<TfLiteType>)
        ensures
            (r is Some) <==> (0 <= code <= 16),
            r matches Some(t) ==> t.spec_code() == code,
    {
        match code {
            0 => Some(TfLiteType::kTfLiteNoType),
            1 => Some(TfLiteType::kTfLiteFloat32),
            2 => Some(TfLiteType::kTfLiteInt32),
            3 => Some(TfLiteType::kTfLiteUInt8),
            4 => Some(TfLiteType::kTfLiteInt64),
            5 => Some(TfLiteType::kTfLiteString),
            6 => Some(TfLiteType::kTfLiteBool),
            7 => Some(TfLiteType::kTfLiteInt16),
            8 => Some(TfLiteType::kTfLiteComplex64),
            9 => Some(TfLiteType::kTfLiteInt8),
            10 => Some(TfLiteType::kTfLiteFloat16),
            11 => Some(TfLiteType::kTfLiteFloat64),
            12 => Some(TfLiteType::kTfLiteComplex128),
            13 => Some(TfLiteType::kTfLiteUInt64),
            14 => Some(TfLiteType::kTfLiteResource),
            15 => Some(TfLiteType::kTfLiteVariant),
            16 => Some(TfLiteType::kTfLiteUInt32),
            _ => None,
        }
    }

    /// Maps a numeric type code received from the native engine to the
    /// enumeration, treating a code outside the closed set as the "no type"
    /// code, which the supported element kinds exclude: a type the layer
    /// cannot name can never pass for a supported one.
    pub fn from_code_lossy(code: i32) -> (r: TfLiteType)
        ensures
            0 <= code <= 16 ==> r.spec_code() == code,
            !(0 <= code <= 16) ==> r is kTfLiteNoType,
    {
        match TfLiteType::from_code(code) {
            Some(t) => t,
            None => TfLiteType::kTfLiteNoType,
        }
    }
}

/// Enables accelerated inference for signed quantized 8-bit operators.
pub const TFLITE_XNNPACK_DELEGATE_FLAG_QS8: u32 = 0x00000001;

/// Enables accelerated inference for unsigned quantized 8-bit operators.
pub const TFLITE_XNNPACK_DELEGATE_FLAG_QU8: u32 = 0x00000002;

/// Forces half-precision inference for single-precision operators.
pub const TFLITE_XNNPACK_DELEGATE_FLAG_FORCE_FP16: u32 = 0x00000004;

/// Enables acceleration of fully-connected operators with dynamic weights.
pub const TFLITE_XNNPACK_DELEGATE_FLAG_DYNAMIC_FULLY_CONNECTED: u32 = 0x00000008;

/// Enables acceleration of variable-handling operators.
pub const TFLITE_XNNPACK_DELEGATE_FLAG_VARIABLE_OPERATORS: u32 = 0x00000010;

/// Enables a transient indirection buffer to reduce memory use.
pub const TFLITE_XNNPACK_DELEGATE_FLAG_TRANSIENT_INDIRECTION_BUFFER: u32 = 0x00000020;

/// Enables the delegate's latest operators and features.
pub const TFLITE_XNNPACK_DELEGATE_FLAG_ENABLE_LATEST_OPERATORS: u32 = 0x00000040;

/// Enables subgraph reshaping for dynamic tensors.
pub const TFLITE_XNNPACK_DELEGATE_FLAG_ENABLE_SUBGRAPH_RESHAPING: u32 = 0x00000080;

/// Configuration values for an accelerator delegate.
///
/// The native configuration structure additionally carries a raw
/// weights-cache pointer; only the plain-valued fields are represented here,
/// and the pointer is supplied as absent where the native call is made.
#[derive(Debug, Clone)]
pub struct TfLiteXNNPackDelegateOptions {
    /// Number of worker threads the delegate may use.
    pub num_threads: i32,
    /// Bitwise-or of the delegate feature flags above.
    pub flags: u32,
    /// Whether the delegate handles variable-handling operators itself.
    pub handle_variable_ops: bool,
    /// Path of a file used to cache prepared weights, if any.
    pub weight_cache_file_path: Option<String>,
}

impl Default for TfLiteXNNPackDelegateOptions {
    /// The documented defaults: single-threaded execution, with quantized
    /// 8-bit acceleration enabled.
    fn default() -> (r: Self)
        ensures
            r.num_threads == 1,
            r.flags == TFLITE_XNNPACK_DELEGATE_FLAG_QS8 | TFLITE_XNNPACK_DELEGATE_FLAG_QU8,
            !r.handle_variable_ops,
            r.weight_cache_file_path is None,
    {
        TfLiteXNNPackDelegateOptions {
            num_threads: 1,
            flags: TFLITE_XNNPACK_DELEGATE_FLAG_QS8 | TFLITE_XNNPACK_DELEGATE_FLAG_QU8,
            handle_variable_ops: false,
            weight_cache_file_path: None,
        }
    }
}

} // verus!
