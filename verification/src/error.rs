use vstd::prelude::*;

verus! {

/// The largest error number that a kernel error code carries.
pub const MAX_ERRNO: i32 = 4095;

/// Invalid argument: what an error number out of range is taken for.
pub const EINVAL: i32 = 22;

/// No such entry.
pub const ENOENT: i32 = 2;

/// Whether `errno` is a negated error number that an error code can carry.
pub open spec fn errno_in_range(errno: int) -> bool {
    -(MAX_ERRNO as int) <= errno < 0
}

/// The error number that `Error::from_errno` keeps for `errno`.
pub open spec fn errno_kept(errno: int) -> int {
    if errno_in_range(errno) {
        errno
    } else {
        -(EINVAL as int)
    }
}

/// Whether a pointer-sized value returned by the C API encodes an error:
/// the top `MAX_ERRNO` values of the address space are negated error numbers.
pub open spec fn is_err_ptr(ptr: usize) -> bool {
    ptr as int > usize::MAX as int - MAX_ERRNO as int
}

/// The negated error number that an error pointer encodes.
pub open spec fn ptr_errno(ptr: usize) -> int {
    ptr as int - (usize::MAX as int + 1)
}

/// A kernel error code: a negated error number in `-MAX_ERRNO..0`.
#[derive(Copy, Clone, PartialEq, Eq, Debug, Structural)]
pub struct Error {
    errno: i32,
}

impl Error {
    #[verifier::type_invariant]
    spec fn in_range(self) -> bool {
        errno_in_range(self.errno as int)
    }

    /// The negated error number that this code carries.
    pub closed spec fn code(self) -> int {
        self.errno as int
    }

    /// Creates an error code from a negated error number; a number out of
    /// range is taken for `EINVAL`.
    pub fn from_errno(errno: i32) -> (e: Self)
        ensures
            e.code() == errno_kept(errno as int),
            -4095 <= errno < 0 ==> e.code() == errno,
            errno < -4095 || errno >= 0 ==> e.code() == -22,
    {
        if errno < -MAX_ERRNO || errno >= 0 {
            Error { errno: -EINVAL }
        } else {
            Error { errno }
        }
    }

    /// Returns the negated error number of this code.
    pub fn to_errno(&self) -> (r: i32)
        ensures
            r as int == self.code(),
            errno_in_range(r as int),
    {
        proof {
            use_type_invariant(self);
        }
        self.errno
    }
}

/// Converts the status returned by a C call into a `Result`: a negative status
/// is an error, anything else success.
pub fn to_result(status: i32) -> (r: Result<(), Error>)
    ensures
        match r {
            Ok(()) => status >= 0,
            Err(e) => status < 0 && e.code() == errno_kept(status as int),
        },
        status < 0 ==> r is Err,
        -4095 <= status < 0 ==> (r matches Err(e) && e.code() == status),
        status < -4095 ==> (r matches Err(e) && e.code() == -22),
{
    if status < 0 {
        Err(Error::from_errno(status))
    } else {
        Ok(())
    }
}

/// Converts a pointer returned by the C API into a `Result`: an error pointer
/// becomes the error code it encodes, any other value is handed back.
pub fn from_err_ptr(ptr: usize) -> (r: Result<usize, Error>)
    ensures
        match r {
            Ok(p) => !is_err_ptr(ptr) && p == ptr,
            Err(e) => is_err_ptr(ptr) && e.code() == ptr_errno(ptr),
        },
        r is Ok <==> ptr <= usize::MAX - 4095,
        r matches Err(e) ==> e.code() == -((usize::MAX - ptr) as int) - 1,
{
    if ptr > usize::MAX - 4095 {
        let below: usize = usize::MAX - ptr;
        let errno: i32 = -(below as i32) - 1;
        Err(Error { errno })
    } else {
        Ok(ptr)
    }
}

/// An error code keeps every negated error number in range as it is, and takes
/// every other number for `-EINVAL`.
pub proof fn lemma_errno_kept_exact(errno: int)
    ensures
        -4095 <= errno < 0 ==> errno_kept(errno) == errno,
        errno < -4095 || errno >= 0 ==> errno_kept(errno) == -22,
        -4095 <= errno_kept(errno) < 0,
{
}

/// An error pointer is one of the top 4095 values of the address space, and it
/// encodes the negated distance from the top: the topmost value is -1, the one
/// below it -2, and so on down to -4095.
pub proof fn lemma_err_ptr_exact(ptr: usize)
    ensures
        is_err_ptr(ptr) <==> ptr > usize::MAX - 4095,
        ptr_errno(ptr) == -((usize::MAX - ptr) as int) - 1,
        is_err_ptr(ptr) ==> -4095 <= ptr_errno(ptr) < 0,
{
}

} // verus!
