//! The JNI environment of a thread.

use vstd::prelude::*;
use crate::object::JObject;
use crate::object::JavaClass;
use crate::object::RefType;

verus! {

/// A thread's JNI environment, held by the address of its `JNIEnv`.
#[derive(Clone, Copy, Debug, PartialEq, Eq, Structural)]
pub struct JavaEnv {
    ptr: usize,
}

impl View for JavaEnv {
    type V = usize;

    closed spec fn view(&self) -> usize {
        self.ptr
    }
}

impl JavaEnv {
    /// The environment at the address that `GetEnv`, `AttachCurrentThread`
    /// or `JNI_CreateJavaVM` gave.
    pub fn from_ptr(ptr: usize) -> (r: JavaEnv)
        ensures
            r@ == ptr,
    {
        JavaEnv { ptr }
    }

    /// The address of the `JNIEnv`.
    pub fn ptr(&self) -> (r: usize)
        ensures
            r == self@,
    {
        self.ptr
    }

    /// Two environments at one address are the same environment.
    pub proof fn lemma_view_determines(a: JavaEnv, b: JavaEnv)
        requires
            a@ == b@,
        ensures
            a == b,
    {
    }

    /// Reads a `FindClass` result: `None` for the null handle, else the
    /// class as a local reference.
    pub fn find_class(&self, found: usize) -> (r: Option<JavaClass>)
        ensures
            found == 0 <==> r is None,
            r matches Some(c) ==> c.env_of() == *self && c.obj_of() == found
                && c.ref_type_of() == RefType::Local,
    {
        if found == 0 {
            None
        } else {
            Some(<JavaClass as JObject>::from(self, found))
        }
    }
}

} // verus!
