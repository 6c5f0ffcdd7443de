//! Late-bound COM Automation marshaling: a model of the `VARIANT` tagged
//! union and the argument layout of `IDispatch::Invoke`, with the encodings
//! that the Automation ABI fixes.
pub mod dispatch;
pub mod variant;
