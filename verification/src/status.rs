//! JNI status codes, booleans and interface versions.

use vstd::prelude::*;

verus! {

/// The call succeeded.
pub const JNI_OK: i32 = 0;

/// An unknown error.
pub const JNI_ERR: i32 = -1;

/// The current thread is not attached to the VM.
pub const JNI_EDETACHED: i32 = -2;

/// The requested JNI version is not supported.
pub const JNI_EVERSION: i32 = -3;

/// Not enough memory.
pub const JNI_ENOMEM: i32 = -4;

/// A VM has already been created.
pub const JNI_EEXIST: i32 = -5;

/// Invalid arguments.
pub const JNI_EINVAL: i32 = -6;

/// The `jboolean` false value.
pub const JNI_FALSE: u8 = 0;

/// The `jboolean` true value.
pub const JNI_TRUE: u8 = 1;

/// A version of the JNI interface.
#[derive(Clone, Copy, Debug, PartialEq, Eq, Structural)]
pub enum JniVersion {
    V1_1,
    V1_2,
    V1_4,
    V1_6,
    V1_8,
    V9,
    V10,
    V19,
    V20,
    V21,
    V24,
}

/// The `jint` by which JNI names a version.
pub open spec fn version_code(v: JniVersion) -> i32 {
    match v {
        JniVersion::V1_1 => 0x00010001,
        JniVersion::V1_2 => 0x00010002,
        JniVersion::V1_4 => 0x00010004,
        JniVersion::V1_6 => 0x00010006,
        JniVersion::V1_8 => 0x00010008,
        JniVersion::V9 => 0x00090000,
        JniVersion::V10 => 0x000a0000,
        JniVersion::V19 => 0x00130000,
        JniVersion::V20 => 0x00140000,
        JniVersion::V21 => 0x00150000,
        JniVersion::V24 => 0x00180000,
    }
}

/// The version that a `jint` names, if it names one.
pub open spec fn version_of_code(c: i32) -> Option<JniVersion> {
    if c == 0x00010001 {
        Some(JniVersion::V1_1)
    } else if c == 0x00010002 {
        Some(JniVersion::V1_2)
    } else if c == 0x00010004 {
        Some(JniVersion::V1_4)
    } else if c == 0x00010006 {
        Some(JniVersion::V1_6)
    } else if c == 0x00010008 {
        Some(JniVersion::V1_8)
    } else if c == 0x00090000 {
        Some(JniVersion::V9)
    } else if c == 0x000a0000 {
        Some(JniVersion::V10)
    } else if c == 0x00130000 {
        Some(JniVersion::V19)
    } else if c == 0x00140000 {
        Some(JniVersion::V20)
    } else if c == 0x00150000 {
        Some(JniVersion::V21)
    } else if c == 0x00180000 {
        Some(JniVersion::V24)
    } else {
        None
    }
}

impl JniVersion {
    /// The `jint` that stands for this version in JNI calls.
    pub fn code(&self) -> (r: i32)
        ensures
            r == version_code(*self),
    {
        match self {
            JniVersion::V1_1 => 0x00010001,
            JniVersion::V1_2 => 0x00010002,
            JniVersion::V1_4 => 0x00010004,
            JniVersion::V1_6 => 0x00010006,
            JniVersion::V1_8 => 0x00010008,
            JniVersion::V9 => 0x00090000,
            JniVersion::V10 => 0x000a0000,
            JniVersion::V19 => 0x00130000,
            JniVersion::V20 => 0x00140000,
            JniVersion::V21 => 0x00150000,
            JniVersion::V24 => 0x00180000,
        }
    }

    /// Reads the version that `GetVersion` reports; `None` for a code that
    /// names no known version.
    pub fn from_code(raw: i32) -> (r: Option<JniVersion>)
        ensures
            r == version_of_code(raw),
            r is None <==> (forall|v: JniVersion| version_code(v) != raw),
    {
        proof {
            if version_of_code(raw) is None {
                assert forall|v: JniVersion| version_code(v) != raw by {
                    match v {
                        JniVersion::V1_1 => {},
                        JniVersion::V1_2 => {},
                        JniVersion::V1_4 => {},
                        JniVersion::V1_6 => {},
                        JniVersion::V1_8 => {},
                        JniVersion::V9 => {},
                        JniVersion::V10 => {},
                        JniVersion::V19 => {},
                        JniVersion::V20 => {},
                        JniVersion::V21 => {},
                        JniVersion::V24 => {},
                    }
                }
            } else {
                assert(version_code(version_of_code(raw)->0) == raw);
            }
        }
        if raw == 0x00010001 {
            Some(JniVersion::V1_1)
        } else if raw == 0x00010002 {
            Some(JniVersion::V1_2)
        } else if raw == 0x00010004 {
            Some(JniVersion::V1_4)
        } else if raw == 0x00010006 {
            Some(JniVersion::V1_6)
        } else if raw == 0x00010008 {
            Some(JniVersion::V1_8)
        } else if raw == 0x00090000 {
            Some(JniVersion::V9)
        } else if raw == 0x000a0000 {
            Some(JniVersion::V10)
        } else if raw == 0x00130000 {
            Some(JniVersion::V19)
        } else if raw == 0x00140000 {
            Some(JniVersion::V20)
        } else if raw == 0x00150000 {
            Some(JniVersion::V21)
        } else if raw == 0x00180000 {
            Some(JniVersion::V24)
        } else {
            None
        }
    }
}

/// Reading a version's code gives the version back, and a code read as a
/// version is that version's code.
pub proof fn lemma_version_code_round_trip(v: JniVersion, c: i32)
    ensures
        version_of_code(version_code(v)) == Some(v),
        version_of_code(c) matches Some(w) ==> version_code(w) == c,
{
}

/// Each version has the code that `jni.h` gives it (`JNI_VERSION_1_1` is
/// `0x00010001`, ..., `JNI_VERSION_24` is `0x00180000`), and each of those
/// codes reads as its version.
pub proof fn lemma_version_constants()
    ensures
        version_code(JniVersion::V1_1) == 0x00010001i32,
        version_code(JniVersion::V1_2) == 0x00010002i32,
        version_code(JniVersion::V1_4) == 0x00010004i32,
        version_code(JniVersion::V1_6) == 0x00010006i32,
        version_code(JniVersion::V1_8) == 0x00010008i32,
        version_code(JniVersion::V9) == 0x00090000i32,
        version_code(JniVersion::V10) == 0x000a0000i32,
        version_code(JniVersion::V19) == 0x00130000i32,
        version_code(JniVersion::V20) == 0x00140000i32,
        version_code(JniVersion::V21) == 0x00150000i32,
        version_code(JniVersion::V24) == 0x00180000i32,
        version_of_code(0x00010001i32) == Some(JniVersion::V1_1),
        version_of_code(0x00010002i32) == Some(JniVersion::V1_2),
        version_of_code(0x00010004i32) == Some(JniVersion::V1_4),
        version_of_code(0x00010006i32) == Some(JniVersion::V1_6),
        version_of_code(0x00010008i32) == Some(JniVersion::V1_8),
        version_of_code(0x00090000i32) == Some(JniVersion::V9),
        version_of_code(0x000a0000i32) == Some(JniVersion::V10),
        version_of_code(0x00130000i32) == Some(JniVersion::V19),
        version_of_code(0x00140000i32) == Some(JniVersion::V20),
        version_of_code(0x00150000i32) == Some(JniVersion::V21),
        version_of_code(0x00180000i32) == Some(JniVersion::V24),
{
}

/// A code that is none of the `jni.h` version codes names no version.
pub proof fn lemma_unknown_version_code(c: i32)
    requires
        c != 0x00010001i32,
        c != 0x00010002i32,
        c != 0x00010004i32,
        c != 0x00010006i32,
        c != 0x00010008i32,
        c != 0x00090000i32,
        c != 0x000a0000i32,
        c != 0x00130000i32,
        c != 0x00140000i32,
        c != 0x00150000i32,
        c != 0x00180000i32,
    ensures
        version_of_code(c) is None,
{
}

/// Each status has the code that `jni.h` gives it (`JNI_OK` is 0,
/// `JNI_ERR` -1, `JNI_EDETACHED` -2, `JNI_EVERSION` -3, `JNI_ENOMEM` -4,
/// `JNI_EEXIST` -5, `JNI_EINVAL` -6), each of those codes reads as its
/// status, and any other code reads as itself under `Other`.
pub proof fn lemma_status_constants(c: i32)
    ensures
        error_code(JniError::Success) == 0i32,
        error_code(JniError::Unknown) == -1i32,
        error_code(JniError::Detached) == -2i32,
        error_code(JniError::Version) == -3i32,
        error_code(JniError::NoMemory) == -4i32,
        error_code(JniError::Exists) == -5i32,
        error_code(JniError::Invalid) == -6i32,
        error_of_code(0i32) == JniError::Success,
        error_of_code(-1i32) == JniError::Unknown,
        error_of_code(-2i32) == JniError::Detached,
        error_of_code(-3i32) == JniError::Version,
        error_of_code(-4i32) == JniError::NoMemory,
        error_of_code(-5i32) == JniError::Exists,
        error_of_code(-6i32) == JniError::Invalid,
        (c < -6 || c > 0) ==> error_of_code(c) == JniError::Other(c),
{
}

/// A JNI status code, read.
#[derive(Clone, Copy, Debug, PartialEq, Eq, Structural)]
pub enum JniError {
    Success,
    Unknown,
    Detached,
    Version,
    NoMemory,
    Exists,
    Invalid,
    /// A code outside the ones that JNI documents.
    Other(i32),
}

/// The status that a code stands for.
pub open spec fn error_of_code(c: i32) -> JniError {
    if c == JNI_OK {
        JniError::Success
    } else if c == JNI_ERR {
        JniError::Unknown
    } else if c == JNI_EDETACHED {
        JniError::Detached
    } else if c == JNI_EVERSION {
        JniError::Version
    } else if c == JNI_ENOMEM {
        JniError::NoMemory
    } else if c == JNI_EEXIST {
        JniError::Exists
    } else if c == JNI_EINVAL {
        JniError::Invalid
    } else {
        JniError::Other(c)
    }
}

/// The code of a status.
pub open spec fn error_code(e: JniError) -> i32 {
    match e {
        JniError::Success => JNI_OK,
        JniError::Unknown => JNI_ERR,
        JniError::Detached => JNI_EDETACHED,
        JniError::Version => JNI_EVERSION,
        JniError::NoMemory => JNI_ENOMEM,
        JniError::Exists => JNI_EEXIST,
        JniError::Invalid => JNI_EINVAL,
        JniError::Other(c) => c,
    }
}

impl JniError {
    /// A status is well formed when `Other` holds no documented code.
    pub open spec fn wf(self) -> bool {
        self matches JniError::Other(c) ==> (JNI_EINVAL <= c <= JNI_OK ==> false)
    }

    /// Reads a status code.
    pub fn from_code(c: i32) -> (r: JniError)
        ensures
            r == error_of_code(c),
            r.wf(),
    {
        if c == JNI_OK {
            JniError::Success
        } else if c == JNI_ERR {
            JniError::Unknown
        } else if c == JNI_EDETACHED {
            JniError::Detached
        } else if c == JNI_EVERSION {
            JniError::Version
        } else if c == JNI_ENOMEM {
            JniError::NoMemory
        } else if c == JNI_EEXIST {
            JniError::Exists
        } else if c == JNI_EINVAL {
            JniError::Invalid
        } else {
            JniError::Other(c)
        }
    }

    /// The code of this status.
    pub fn code(&self) -> (r: i32)
        ensures
            r == error_code(*self),
    {
        match self {
            JniError::Success => JNI_OK,
            JniError::Unknown => JNI_ERR,
            JniError::Detached => JNI_EDETACHED,
            JniError::Version => JNI_EVERSION,
            JniError::NoMemory => JNI_ENOMEM,
            JniError::Exists => JNI_EEXIST,
            JniError::Invalid => JNI_EINVAL,
            JniError::Other(c) => *c,
        }
    }
}

/// Reading a code and writing it back gives the code; writing a well-formed
/// status and reading it back gives the status.
pub proof fn lemma_error_code_round_trip(c: i32, e: JniError)
    requires
        e.wf(),
    ensures
        error_code(error_of_code(c)) == c,
        error_of_code(error_code(e)) == e,
{
}

/// Whether a status code reports success.
pub fn status_ok(status: i32) -> (r: bool)
    ensures
        r == (status == JNI_OK),
{
    status == JNI_OK
}

/// The meaning of a `jboolean`: anything but `JNI_FALSE` is true.
pub open spec fn jboolean_value(b: u8) -> bool {
    b != JNI_FALSE
}

/// The `jboolean` that stands for a `bool`.
pub open spec fn jboolean_of(b: bool) -> u8 {
    if b {
        JNI_TRUE
    } else {
        JNI_FALSE
    }
}

/// Reads a `jboolean` that a JNI call returned.
pub fn jboolean_is_true(b: u8) -> (r: bool)
    ensures
        r == jboolean_value(b),
{
    b != JNI_FALSE
}

/// Writes a `bool` as a `jboolean`.
pub fn to_jboolean(b: bool) -> (r: u8)
    ensures
        r == jboolean_of(b),
{
    if b {
        JNI_TRUE
    } else {
        JNI_FALSE
    }
}

/// A `jboolean` is true exactly when it is not 0, and `bool`s are written as
/// 1 and 0.
pub proof fn lemma_jboolean_meaning(b: u8)
    ensures
        jboolean_value(b) <==> b != 0u8,
        jboolean_of(true) == 1u8,
        jboolean_of(false) == 0u8,
{
}

/// A `bool` written as a `jboolean` reads back as itself.
pub proof fn lemma_jboolean_round_trip(b: bool)
    ensures
        jboolean_value(jboolean_of(b)) == b,
{
}

} // verus!
