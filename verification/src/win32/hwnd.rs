use vstd::prelude::*;

verus! {

/// A native window handle, as a pointer-sized integer.
#[derive(Debug, Clone, Copy, PartialEq, Eq, Hash, Structural)]
pub struct Hwnd(pub isize);

/// The message of a null window handle.
pub open spec fn null_hwnd_message() -> Seq<char> {
    "HWND must not be null."@
}

impl Hwnd {
    /// A handle for `value`, which must not be null.
    pub fn new(value: isize) -> (r: Result<Self, String>)
        ensures
            r is Ok <==> value != 0,
            r matches Ok(h) ==> h.0 == value,
            r matches Err(e) ==> e@ == null_hwnd_message(),
    {
        if value == 0 {
            return Err(String::from_str("HWND must not be null."));
        }
        Ok(Hwnd(value))
    }
}

} // verus!
