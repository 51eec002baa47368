//! Typed tensor views built from the plain values read back across the
//! native boundary.
//!
//! A native tensor lives in memory owned by the engine.  The unverified code
//! that makes the raw calls reads the tensor's name, type code, dimensions
//! and data bytes into a [`RawTensor`]; a null pointer along the way becomes
//! an absent field.  [`Tensor::from_raw`] then validates those values and
//! produces a snapshot view with a checked element type, a shape, and the
//! buffer's bytes.  A view is valid only until the owning interpreter's
//! buffers are resized or reallocated; after that it must be fetched afresh.

use vstd::prelude::*;
use vstd::slice::slice_to_vec;
use crate::error::{Error, ErrorKind};
use crate::minimal_bindings::TfLiteType;

verus! {

/// Bit pattern, in the 32-bit binary interchange format the native interface
/// uses for scales, of a scale of one: the identity mapping.
pub const UNIT_SCALE_BITS: u32 = 0x3F80_0000;

/// Parameters that determine the mapping of quantized values to real values.
///
/// A quantized value maps to the real value
/// `scale * (quantized value - zero_point)`.  The scale is carried as the raw
/// bits of its 32-bit binary representation, so that the verified core holds
/// only plain values; the unverified boundary reinterprets the bits where a
/// real number is needed.
#[derive(Debug, Clone, Copy, PartialEq, Eq, Structural)]
pub struct QuantizationParameters {
    /// Raw bits of the scale's 32-bit binary representation.
    pub scale_bits: u32,

    /// The quantized value that corresponds to the real value zero.
    pub zero_point: i32,
}

/// The supported [`Tensor`] element kinds.
///
/// A native type code outside this set is an error, not a silent default.
#[derive(Debug, Clone, Copy, PartialEq, Eq, Hash, Structural)]
pub enum DataType {
    /// A boolean.
    Bool,
    /// An 8-bit unsigned integer.
    Uint8,
    /// An 8-bit signed integer.
    Int8,
    /// A 16-bit signed integer.
    Int16,
    /// A 32-bit signed integer.
    Int32,
    /// A 64-bit signed integer.
    Int64,
    /// A 16-bit half precision floating point.
    Float16,
    /// A 32-bit single precision floating point.
    Float32,
    /// A 64-bit double precision floating point.
    Float64,
}

impl DataType {
    /// The element kind a native type code stands for; `None` for the codes
    /// that name no supported element kind.
    pub open spec fn spec_new(tflite_type: TfLiteType) -> Option<DataType> {
        match tflite_type {
            TfLiteType::kTfLiteBool => Some(DataType::Bool),
            TfLiteType::kTfLiteUInt8 => Some(DataType::Uint8),
            TfLiteType::kTfLiteInt8 => Some(DataType::Int8),
            TfLiteType::kTfLiteInt16 => Some(DataType::Int16),
            TfLiteType::kTfLiteInt32 => Some(DataType::Int32),
            TfLiteType::kTfLiteInt64 => Some(DataType::Int64),
            TfLiteType::kTfLiteFloat16 => Some(DataType::Float16),
            TfLiteType::kTfLiteFloat32 => Some(DataType::Float32),
            TfLiteType::kTfLiteFloat64 => Some(DataType::Float64),
            _ => None,
        }
    }

    /// Creates a new instance from the given native type code.
    ///
    /// Returns `None` if the code names no supported element kind, otherwise
    /// the corresponding variant.
    pub fn new(tflite_type: TfLiteType) -> (r: Option<DataType>)
        ensures
            r == Self::spec_new(tflite_type),
    {
        match tflite_type {
            TfLiteType::kTfLiteBool => Some(DataType::Bool),
            TfLiteType::kTfLiteUInt8 => Some(DataType::Uint8),
            TfLiteType::kTfLiteInt8 => Some(DataType::Int8),
            TfLiteType::kTfLiteInt16 => Some(DataType::Int16),
            TfLiteType::kTfLiteInt32 => Some(DataType::Int32),
            TfLiteType::kTfLiteInt64 => Some(DataType::Int64),
            TfLiteType::kTfLiteFloat16 => Some(DataType::Float16),
            TfLiteType::kTfLiteFloat32 => Some(DataType::Float32),
            TfLiteType::kTfLiteFloat64 => Some(DataType::Float64),
            _ => None,
        }
    }

    /// The size in bytes of one element of this kind.
    pub open spec fn spec_byte_size(self) -> usize {
        match self {
            DataType::Bool => 1,
            DataType::Uint8 => 1,
            DataType::Int8 => 1,
            DataType::Int16 => 2,
            DataType::Int32 => 4,
            DataType::Int64 => 8,
            DataType::Float16 => 2,
            DataType::Float32 => 4,
            DataType::Float64 => 8,
        }
    }

    /// Returns the size in bytes of one element of this kind.
    pub fn byte_size(self) -> (r: usize)
        ensures
            r == self.spec_byte_size(),
    {
        match self {
            DataType::Bool => 1,
            DataType::Uint8 => 1,
            DataType::Int8 => 1,
            DataType::Int16 => 2,
            DataType::Int32 => 4,
            DataType::Int64 => 8,
            DataType::Float16 => 2,
            DataType::Float32 => 4,
            DataType::Float64 => 8,
        }
    }
}

/// The shape of a [`Tensor`]: an ordered sequence of dimension sizes.
///
/// Rank is the number of dimensions.  A shape is immutable once constructed
/// and its equality is structural.
#[derive(Debug, Clone, PartialEq, Eq, Hash)]
pub struct Shape {
    dimensions: Vec<usize>,
}

impl View for Shape {
    type V = Seq<usize>;

    closed spec fn view(&self) -> Seq<usize> {
        self.dimensions@
    }
}

impl Shape {
    /// Creates a new instance with the given `dimensions`.
    pub fn new(dimensions: Vec<usize>) -> (s: Shape)
        ensures
            s@ == dimensions@,
    {
        Shape { dimensions }
    }

    /// Returns the dimensions of the [`Tensor`].
    pub fn dimensions(&self) -> (r: &Vec<usize>)
        ensures
            r@ == self@,
    {
        &self.dimensions
    }

    /// Returns the rank (number of dimensions) of the [`Tensor`].
    pub fn rank(&self) -> (r: usize)
        ensures
            r == self@.len(),
    {
        self.dimensions.len()
    }
}

/// The plain values read for one native tensor by the unverified boundary
/// code: each field that the native interface hands back through a nullable
/// pointer is absent exactly when that pointer was null.
pub struct RawTensor {
    /// The tensor's name; absent when the native name pointer was null.
    pub name: Option<String>,

    /// The native type code of the tensor's elements.
    pub tflite_type: TfLiteType,

    /// The tensor's dimension sizes, in order.
    pub dimensions: Vec<usize>,

    /// The bytes of the tensor's data buffer; absent when the native data
    /// pointer was null.
    pub data: Option<Vec<u8>>,
}

/// The mathematical value of a [`Tensor`] view.
#[verifier::ext_equal]
pub struct TensorView {
    /// The tensor's name.
    pub name: Seq<char>,

    /// The element kind of the tensor.
    pub data_type: DataType,

    /// The dimension sizes, in order.
    pub shape: Seq<usize>,

    /// The bytes of the data buffer.
    pub data: Seq<u8>,

    /// The quantization parameters, for quantized 8-bit element kinds.
    pub quantization_parameters: Option<QuantizationParameters>,
}

impl TensorView {
    /// This view with its buffer replaced by `data`.
    pub open spec fn with_data(self, data: Seq<u8>) -> TensorView {
        TensorView { data, ..self }
    }
}

/// The quantization parameters a freshly constructed view reports for an
/// element kind.  The minimal native boundary exposes no quantization
/// metadata, so the quantized 8-bit kinds report the identity mapping and
/// every other kind reports none.
pub open spec fn default_quantization(data_type: DataType) -> Option<QuantizationParameters> {
    if data_type is Uint8 || data_type is Int8 {
        Some(QuantizationParameters { scale_bits: UNIT_SCALE_BITS, zero_point: 0 })
    } else {
        None
    }
}

/// An input or output tensor of an interpreter: a snapshot view over the
/// plain values read from the native tensor at construction time.
///
/// The metadata is not refreshed after construction.  A view must not be
/// retained past the next resize, allocation or invocation of the owning
/// interpreter, since those operations may relocate the native buffer; a
/// fresh view must be fetched instead.
#[derive(Debug)]
pub struct Tensor {
    /// The name of the `Tensor`.
    name: String,

    /// The element kind of the `Tensor`.
    data_type: DataType,

    /// The shape of the `Tensor`.
    shape: Shape,

    /// The bytes of the data buffer of the `Tensor`.
    data: Vec<u8>,

    /// The quantization parameters of the `Tensor`, for a quantized model.
    quantization_parameters: Option<QuantizationParameters>,
}

impl View for Tensor {
    type V = TensorView;

    closed spec fn view(&self) -> TensorView {
        TensorView {
            name: self.name@,
            data_type: self.data_type,
            shape: self.shape@,
            data: self.data@,
            quantization_parameters: self.quantization_parameters,
        }
    }
}

impl Tensor {
    /// Validates the values read for one native tensor and constructs the
    /// view.
    ///
    /// `raw` is absent when the native tensor pointer itself was null.  The
    /// construction fails with [`ErrorKind::ReadTensorError`] when the
    /// tensor, its name, or its data pointer was null, and with
    /// [`ErrorKind::InvalidTensorDataType`] when the native type code lies
    /// outside the supported set.
    pub fn from_raw(raw: Option<RawTensor>) -> (r: Result<Tensor, Error>)
        ensures
            (r is Ok) <==> (raw matches Some(rt) && rt.name is Some && rt.data is Some
                && DataType::spec_new(rt.tflite_type) is Some),
            r matches Ok(t) ==> (raw matches Some(rt) && {
                &&& t@.name == rt.name->Some_0@
                &&& Some(t@.data_type) == DataType::spec_new(rt.tflite_type)
                &&& t@.shape == rt.dimensions@
                &&& t@.data == rt.data->Some_0@
                &&& t@.quantization_parameters == default_quantization(t@.data_type)
            }),
            r matches Err(e) ==> e@ == (
                if raw matches Some(rt) && rt.name is Some && rt.data is Some {
                    ErrorKind::InvalidTensorDataType
                } else {
                    ErrorKind::ReadTensorError
                }),
    {
        let rt = match raw {
            Some(rt) => rt,
            None => {
                return Err(Error::new(ErrorKind::ReadTensorError));
            },
        };
        let RawTensor { name, tflite_type, dimensions, data } = rt;
        let name = match name {
            Some(n) => n,
            None => {
                return Err(Error::new(ErrorKind::ReadTensorError));
            },
        };
        let data = match data {
            Some(d) => d,
            None => {
                return Err(Error::new(ErrorKind::ReadTensorError));
            },
        };
        let data_type = match DataType::new(tflite_type) {
            Some(dt) => dt,
            None => {
                return Err(Error::new(ErrorKind::InvalidTensorDataType));
            },
        };
        let shape = Shape::new(dimensions);
        let quantization_parameters = if data_type == DataType::Uint8 || data_type
            == DataType::Int8 {
            Some(QuantizationParameters { scale_bits: UNIT_SCALE_BITS, zero_point: 0 })
        } else {
            None
        };
        Ok(Tensor { name, data_type, shape, data, quantization_parameters })
    }

    /// Returns the [`Shape`] of the tensor.
    pub fn shape(&self) -> (r: &Shape)
        ensures
            r@ == self@.shape,
    {
        &self.shape
    }

    /// Returns the bytes of the tensor's data buffer.
    pub fn data(&self) -> (r: &Vec<u8>)
        ensures
            r@ == self@.data,
    {
        &self.data
    }

    /// Returns the number of elements of the given size in the tensor's
    /// buffer.
    ///
    /// The buffer's byte length must be an exact multiple of the element
    /// size: a typed reading of the buffer is meaningless otherwise, and
    /// violating this is a caller programming error, not a runtime
    /// condition.
    pub fn element_count(&self, element_size: usize) -> (r: usize)
        requires
            element_size > 0,
            self@.data.len() as int % element_size as int == 0,
        ensures
            r == self@.data.len() as int / element_size as int,
    {
        self.data.len() / element_size
    }

    /// Sets the data of the tensor by copying the given bytes into its
    /// buffer.
    ///
    /// `element_count` is the number of typed elements the caller supplied
    /// — the length of the typed slice whose bytes `data` holds; a caller
    /// writing plain bytes supplies the byte count.  It is carried into the
    /// diagnostic and plays no other part.
    ///
    /// Fails with [`ErrorKind::InvalidTensorDataCount`], carrying the
    /// supplied element count and the supplied byte count, and leaves the
    /// tensor unchanged, exactly when the byte count of `data` does not
    /// match the byte length of the tensor's buffer.
    pub fn set_data(&mut self, element_count: usize, data: &[u8]) -> (r: Result<(), Error>)
        ensures
            (r is Ok) <==> data@.len() == old(self)@.data.len(),
            r is Ok ==> final(self)@ == old(self)@.with_data(data@),
            r is Err ==> final(self)@ == old(self)@,
            r matches Err(e) ==> e@ == ErrorKind::InvalidTensorDataCount(
                element_count,
                data@.len() as usize,
            ),
    {
        let len = data.len();
        if self.data.len() != len {
            return Err(Error::new(ErrorKind::InvalidTensorDataCount(element_count, len)));
        }
        self.data = slice_to_vec(data);
        Ok(())
    }

    /// Returns the element kind of the [`Tensor`].
    pub fn data_type(&self) -> (r: DataType)
        ensures
            r == self@.data_type,
    {
        self.data_type
    }

    /// Returns the optional [`QuantizationParameters`] of the [`Tensor`].
    pub fn quantization_parameters(&self) -> (r: Option<QuantizationParameters>)
        ensures
            r == self@.quantization_parameters,
    {
        self.quantization_parameters
    }

    /// Returns the name of the [`Tensor`].
    pub fn name(&self) -> (r: &str)
        ensures
            r@ == self@.name,
    {
        self.name.as_str()
    }
}

/// Writing a full buffer of bytes into a tensor view and reading the buffer
/// back yields exactly the bytes written, and leaves the name, element kind
/// and shape of the view as they were — for every element kind.
pub proof fn lemma_set_data_round_trip(t: TensorView, bytes: Seq<u8>)
    requires
        bytes.len() == t.data.len(),
    ensures
        t.with_data(bytes).data == bytes,
        t.with_data(bytes).name == t.name,
        t.with_data(bytes).data_type == t.data_type,
        t.with_data(bytes).shape == t.shape,
        t.with_data(bytes).quantization_parameters == t.quantization_parameters,
{
}

} // verus!
