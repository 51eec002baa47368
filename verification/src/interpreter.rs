//! The verified model of an interpreter: its allocation state machine, the
//! counts and shapes of its tensors, and the translation of every native
//! outcome into the structured error taxonomy.
//!
//! An interpreter's native handle is owned by the unverified boundary code,
//! which makes the raw calls in the order the caller asked for and feeds each
//! status code back into the model here.  The model decides: whether an index
//! may be handed to a native accessor at all, which structured error a
//! non-success status becomes, and what the interpreter's state and expected
//! input shapes are after each operation.
//!
//! The state machine is `Created -> Allocated -> Ready`, with a back edge to
//! `Created` on a successful resize: tensor buffers must be allocated before
//! data access or invocation, and a resize invalidates every previously
//! obtained tensor view, so views must be fetched afresh after the next
//! successful allocation.

use vstd::prelude::*;
use crate::error::{require_handle, status_to_result, Error, ErrorKind};
use crate::minimal_bindings::TfLiteStatus;
use crate::tensor::Shape;

verus! {

/// The allocation state of an interpreter.
#[derive(Debug, Clone, Copy, PartialEq, Eq, Structural)]
pub enum InterpreterState {
    /// Freshly constructed, or resized since the last allocation: tensor
    /// buffers are not allocated, and must be allocated before tensor data
    /// is read or written and before invocation.
    Created,
    /// Tensor buffers are allocated; tensors may be accessed and the
    /// interpreter may be invoked.
    Allocated,
    /// Invoked since the last allocation: output buffers reflect the inputs.
    Ready,
}

/// The sequence of shape values held by a sequence of [`Shape`]s.
pub open spec fn shapes_view(shapes: Seq<Shape>) -> Seq<Seq<usize>> {
    shapes.map_values(|s: Shape| s@)
}

/// The mathematical value of an [`Interpreter`] model.
#[verifier::ext_equal]
pub struct InterpreterView {
    /// The allocation state.
    pub state: InterpreterState,

    /// The number of output tensors.
    pub output_count: nat,

    /// The expected shape of each input tensor: the shape read at
    /// construction, or the dimensions of the last successful resize.
    pub input_shapes: Seq<Seq<usize>>,
}

impl InterpreterView {
    /// The number of input tensors.
    pub open spec fn input_count(self) -> nat {
        self.input_shapes.len()
    }

    /// Whether `i` may be handed to a native input-tensor accessor: it lies
    /// in `[0, input_count)`.
    pub open spec fn input_index_ok(self, i: int) -> bool {
        0 <= i < self.input_count()
    }

    /// Whether `i` may be handed to a native output-tensor accessor: it
    /// lies in `[0, output_count)`.
    pub open spec fn output_index_ok(self, i: int) -> bool {
        0 <= i < self.output_count
    }

    /// The view after a successful resize of input `i` to `dims`: the
    /// expected shape of input `i` is replaced and the interpreter requires
    /// allocation again before any further tensor access.
    pub open spec fn resized(self, i: int, dims: Seq<usize>) -> InterpreterView {
        InterpreterView {
            state: InterpreterState::Created,
            input_shapes: self.input_shapes.update(i, dims),
            ..self
        }
    }

    /// The view after a successful tensor allocation: the expected shapes
    /// are unchanged and tensors may be accessed.
    pub open spec fn allocated(self) -> InterpreterView {
        InterpreterView { state: InterpreterState::Allocated, ..self }
    }

    /// The view after a successful invocation: the expected shapes are
    /// unchanged and the outputs reflect the inputs.
    pub open spec fn invoked(self) -> InterpreterView {
        InterpreterView { state: InterpreterState::Ready, ..self }
    }
}

/// The verified model of one interpreter.
///
/// The model holds what the safety layer itself guarantees of the native
/// interpreter it stands for: its allocation state, its tensor counts, and
/// the shape each input tensor is expected to have.  The unverified boundary
/// code keeps the native handle beside this model, sequences the raw calls,
/// and reports every status code back into it.
#[derive(Debug)]
pub struct Interpreter {
    /// The allocation state.
    state: InterpreterState,

    /// The number of output tensors, as read from the native engine at
    /// construction.
    output_count: usize,

    /// The expected shape of each input tensor.
    input_shapes: Vec<Shape>,
}

impl View for Interpreter {
    type V = InterpreterView;

    closed spec fn view(&self) -> InterpreterView {
        InterpreterView {
            state: self.state,
            output_count: self.output_count as nat,
            input_shapes: shapes_view(self.input_shapes@),
        }
    }
}

impl Interpreter {
    /// Translates the nullable handle of a freshly created native
    /// interpreter: creation fails with
    /// [`ErrorKind::InterpreterCreationError`] exactly when the native call
    /// returned null (an incompatible delegate, an invalid thread count).
    pub fn create_result(handle_present: bool) -> (r: Result<(), Error>)
        ensures
            (r is Ok) <==> handle_present,
            r matches Err(e) ==> e@ == ErrorKind::InterpreterCreationError,
    {
        require_handle(handle_present, ErrorKind::InterpreterCreationError)
    }

    /// Builds the model of a freshly created interpreter from the input
    /// shapes and output count read back from the native engine.  Tensors
    /// start unallocated.
    pub fn new(input_shapes: Vec<Shape>, output_count: usize) -> (r: Interpreter)
        ensures
            r@.state is Created,
            r@.input_shapes == shapes_view(input_shapes@),
            r@.output_count == output_count,
    {
        Interpreter { state: InterpreterState::Created, output_count, input_shapes }
    }

    /// Returns the number of input tensors.
    pub fn input_count(&self) -> (r: usize)
        ensures
            r == self@.input_count(),
    {
        self.input_shapes.len()
    }

    /// Returns the number of output tensors.
    pub fn output_count(&self) -> (r: usize)
        ensures
            r == self@.output_count,
    {
        self.output_count
    }

    /// Returns the allocation state of the interpreter.
    pub fn state(&self) -> (r: InterpreterState)
        ensures
            r == self@.state,
    {
        self.state
    }

    /// Checks an input index before any native call is made with it:
    /// succeeds exactly when the index lies in `[0, input_count)`, and
    /// otherwise fails with [`ErrorKind::InvalidIndexError`] carrying the
    /// index and the count.  No native accessor may be called with an index
    /// this check refused.
    pub fn check_input_index(&self, index: usize) -> (r: Result<(), Error>)
        ensures
            (r is Ok) <==> self@.input_index_ok(index as int),
            r matches Err(e) ==> e@ == ErrorKind::InvalidIndexError(
                index,
                self@.input_count() as usize,
            ),
    {
        if index < self.input_shapes.len() {
            Ok(())
        } else {
            Err(Error::new(ErrorKind::InvalidIndexError(index, self.input_shapes.len())))
        }
    }

    /// Checks an output index before any native call is made with it:
    /// succeeds exactly when the index lies in `[0, output_count)`, and
    /// otherwise fails with [`ErrorKind::InvalidIndexError`] carrying the
    /// index and the count.  No native accessor may be called with an index
    /// this check refused.
    pub fn check_output_index(&self, index: usize) -> (r: Result<(), Error>)
        ensures
            (r is Ok) <==> self@.output_index_ok(index as int),
            r matches Err(e) ==> e@ == ErrorKind::InvalidIndexError(
                index,
                self@.output_count as usize,
            ),
    {
        if index < self.output_count {
            Ok(())
        } else {
            Err(Error::new(ErrorKind::InvalidIndexError(index, self.output_count)))
        }
    }

    /// Records the outcome of a native resize of input `index` to `dims`.
    ///
    /// On the success status the expected shape of that input becomes
    /// `dims` and the interpreter requires allocation again: every
    /// previously obtained tensor view is invalid from here on, since the
    /// native buffer may move.  On any other status the model is unchanged
    /// and the result is [`ErrorKind::ResizeTensorError`].
    pub fn resize_input(&mut self, index: usize, dims: Vec<usize>, status: TfLiteStatus) -> (r:
        Result<(), Error>)
        requires
            (index as int) < old(self)@.input_count(),
        ensures
            status is kTfLiteOk ==> r is Ok && final(self)@ == old(self)@.resized(
                index as int,
                dims@,
            ),
            status !is kTfLiteOk ==> r is Err && final(self)@ == old(self)@,
            r matches Err(e) ==> e@ == ErrorKind::ResizeTensorError,
    {
        match status_to_result(status, ErrorKind::ResizeTensorError) {
            Ok(_) => {
                self.input_shapes.set(index, Shape::new(dims));
                self.state = InterpreterState::Created;
                proof {
                    assert(self@.input_shapes =~= old(self)@.resized(
                        index as int,
                        dims@,
                    ).input_shapes);
                    assert(self@ =~= old(self)@.resized(index as int, dims@));
                }
                Ok(())
            },
            Err(e) => Err(e),
        }
    }

    /// Records the outcome of a native tensor allocation.
    ///
    /// On the success status the interpreter's tensors are allocated and the
    /// expected shapes are unchanged.  On any other status (a shape the
    /// engine cannot satisfy after a prior resize) the model is unchanged
    /// and the result is [`ErrorKind::AllocateTensorsError`].
    pub fn allocate_tensors(&mut self, status: TfLiteStatus) -> (r: Result<(), Error>)
        ensures
            status is kTfLiteOk ==> r is Ok && final(self)@ == old(self)@.allocated(),
            status !is kTfLiteOk ==> r is Err && final(self)@ == old(self)@,
            r matches Err(e) ==> e@ == ErrorKind::AllocateTensorsError,
    {
        match status_to_result(status, ErrorKind::AllocateTensorsError) {
            Ok(_) => {
                self.state = InterpreterState::Allocated;
                Ok(())
            },
            Err(e) => Err(e),
        }
    }

    /// Records the outcome of a native invocation.
    ///
    /// Invocation requires a prior successful allocation; mirroring the
    /// native engine, which offers no query for it, the layer does not
    /// pre-check that state, and leaves the sequencing to the caller.  On
    /// the success status the outputs reflect the inputs; on any other
    /// status the model is unchanged and the result is
    /// [`ErrorKind::InvokeError`].
    pub fn invoke(&mut self, status: TfLiteStatus) -> (r: Result<(), Error>)
        ensures
            status is kTfLiteOk ==> r is Ok && final(self)@ == old(self)@.invoked(),
            status !is kTfLiteOk ==> r is Err && final(self)@ == old(self)@,
            r matches Err(e) ==> e@ == ErrorKind::InvokeError,
    {
        match status_to_result(status, ErrorKind::InvokeError) {
            Ok(_) => {
                self.state = InterpreterState::Ready;
                Ok(())
            },
            Err(e) => Err(e),
        }
    }

    /// Returns the shape the model holds for input `index`: the shape read
    /// at construction, or the dimensions of the last successful resize of
    /// that input.
    pub fn input_shape(&self, index: usize) -> (r: &Shape)
        requires
            (index as int) < self@.input_count(),
        ensures
            r@ == self@.input_shapes[index as int],
    {
        &self.input_shapes[index]
    }
}

/// After a successful resize of input `i` to `dims` followed by a successful
/// allocation, the interpreter holds `dims` as the expected shape of input
/// `i`, its tensors are allocated, and every other input's expected shape is
/// as it was.
pub proof fn lemma_resize_then_allocate_shape(v: InterpreterView, i: int, dims: Seq<usize>)
    requires
        0 <= i < v.input_count(),
    ensures
        v.resized(i, dims).allocated().input_shapes[i] == dims,
        v.resized(i, dims).allocated().state is Allocated,
        forall|j: int|
            0 <= j < v.input_count() && j != i ==> v.resized(i, dims).allocated().input_shapes[j]
                == v.input_shapes[j],
{
}

/// An index is admitted by an accessor guard exactly when it lies in
/// `[0, count)`: the guard refuses precisely the indices `i < 0` or
/// `i >= count` with the invalid-index error, so a native tensor accessor
/// that is reached only through its guard — as every accessor of this layer
/// is — is never called with an out-of-range index, and no tensor view is
/// ever constructed from such a call.
pub proof fn lemma_out_of_range_index_refused(v: InterpreterView, i: int)
    ensures
        !v.input_index_ok(i) <==> (i < 0 || i >= v.input_count()),
        !v.output_index_ok(i) <==> (i < 0 || i >= v.output_count),
{
}

/// Allocating twice in a row without an intervening resize leaves exactly
/// the state one allocation leaves: allocation is idempotent, and no
/// subsequent tensor access can observe a difference.
pub proof fn lemma_allocate_idempotent(v: InterpreterView)
    ensures
        v.allocated().allocated() == v.allocated(),
{
    assert(v.allocated().allocated() =~= v.allocated());
}

} // verus!
