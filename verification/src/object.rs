//! Java object references: what kind of reference a handle is, and which JNI
//! call makes or drops one of its kind.

use vstd::prelude::*;
use crate::env::JavaEnv;
use crate::status::jboolean_value;

verus! {

/// The kind of a JNI reference.
#[derive(Clone, Copy, Debug, PartialEq, Eq, Structural)]
pub enum RefType {
    Local,
    Global,
    Weak,
}

/// A JNI call that makes or drops a reference.
#[derive(Clone, Copy, Debug, PartialEq, Eq, Structural)]
pub enum RefCall {
    NewLocalRef,
    NewGlobalRef,
    NewWeakGlobalRef,
    DeleteLocalRef,
    DeleteGlobalRef,
    DeleteWeakGlobalRef,
}

/// The call that makes a further reference of kind `t` to an object.
pub open spec fn acquire_call(t: RefType) -> RefCall {
    match t {
        RefType::Local => RefCall::NewLocalRef,
        RefType::Global => RefCall::NewGlobalRef,
        RefType::Weak => RefCall::NewWeakGlobalRef,
    }
}

/// The call that drops a reference of kind `t`.
pub open spec fn release_call(t: RefType) -> RefCall {
    match t {
        RefType::Local => RefCall::DeleteLocalRef,
        RefType::Global => RefCall::DeleteGlobalRef,
        RefType::Weak => RefCall::DeleteWeakGlobalRef,
    }
}

/// The kind of reference that a call makes, if it makes one.
pub open spec fn created_kind(c: RefCall) -> Option<RefType> {
    match c {
        RefCall::NewLocalRef => Some(RefType::Local),
        RefCall::NewGlobalRef => Some(RefType::Global),
        RefCall::NewWeakGlobalRef => Some(RefType::Weak),
        _ => None,
    }
}

/// The kind of reference that a call drops, if it drops one.
pub open spec fn released_kind(c: RefCall) -> Option<RefType> {
    match c {
        RefCall::DeleteLocalRef => Some(RefType::Local),
        RefCall::DeleteGlobalRef => Some(RefType::Global),
        RefCall::DeleteWeakGlobalRef => Some(RefType::Weak),
        _ => None,
    }
}

/// Whatever the kind of a reference, taking another one makes a reference of
/// that kind and drops none, and dropping it drops exactly that kind and
/// makes none: every reference is released by the call that matches the call
/// that made it.
pub proof fn lemma_acquire_release_match(t: RefType)
    ensures
        created_kind(acquire_call(t)) == Some(t),
        released_kind(acquire_call(t)) is None,
        released_kind(release_call(t)) == Some(t),
        created_kind(release_call(t)) is None,
{
}

/// The reference calls are the JNI ones for their kind: `NewLocalRef`,
/// `NewGlobalRef` and `NewWeakGlobalRef` make local, global and weak
/// references, and `DeleteLocalRef`, `DeleteGlobalRef` and
/// `DeleteWeakGlobalRef` drop them.
pub proof fn lemma_reference_calls()
    ensures
        acquire_call(RefType::Local) == RefCall::NewLocalRef,
        acquire_call(RefType::Global) == RefCall::NewGlobalRef,
        acquire_call(RefType::Weak) == RefCall::NewWeakGlobalRef,
        release_call(RefType::Local) == RefCall::DeleteLocalRef,
        release_call(RefType::Global) == RefCall::DeleteGlobalRef,
        release_call(RefType::Weak) == RefCall::DeleteWeakGlobalRef,
{
}

/// The call that makes a further reference of kind `t`.
pub fn acquire_call_for(t: RefType) -> (r: RefCall)
    ensures
        r == acquire_call(t),
{
    match t {
        RefType::Local => RefCall::NewLocalRef,
        RefType::Global => RefCall::NewGlobalRef,
        RefType::Weak => RefCall::NewWeakGlobalRef,
    }
}

/// The call that drops a reference of kind `t`.
pub fn release_call_for(t: RefType) -> (r: RefCall)
    ensures
        r == release_call(t),
{
    match t {
        RefType::Local => RefCall::DeleteLocalRef,
        RefType::Global => RefCall::DeleteGlobalRef,
        RefType::Weak => RefCall::DeleteWeakGlobalRef,
    }
}

/// A reference to a Java object held through a JNI environment.
///
/// `obj_of` is the address of the JNI handle; the null handle is 0.
pub trait JObject: Sized {
    /// The environment the reference belongs to.
    spec fn env_of(&self) -> JavaEnv;

    /// The JNI handle.
    spec fn obj_of(&self) -> usize;

    /// The kind of the reference.
    spec fn ref_type_of(&self) -> RefType;

    fn get_env(&self) -> (r: JavaEnv)
        ensures
            r == self.env_of(),
    ;

    fn get_obj(&self) -> (r: usize)
        ensures
            r == self.obj_of(),
    ;

    fn ref_type(&self) -> (r: RefType)
        ensures
            r == self.ref_type_of(),
    ;

    /// Wraps a handle that a JNI call returned: a local reference.
    fn from(env: &JavaEnv, ptr: usize) -> (r: Self)
        ensures
            r.env_of() == *env,
            r.obj_of() == ptr,
            r.ref_type_of() == RefType::Local,
    ;

    /// The global reference that `NewGlobalRef` on this object returned.
    fn global(&self, ptr: usize) -> (r: Self)
        ensures
            r.env_of() == self.env_of(),
            r.obj_of() == ptr,
            r.ref_type_of() == RefType::Global,
    ;

    /// The weak reference that `NewWeakGlobalRef` on this object returned.
    fn weak(&self, ptr: usize) -> (r: Self)
        ensures
            r.env_of() == self.env_of(),
            r.obj_of() == ptr,
            r.ref_type_of() == RefType::Weak,
    ;

    /// A copy of this reference that holds the further reference `ptr` that
    /// the call named by `inc_ref` returned.
    fn with_ref(&self, ptr: usize) -> (r: Self)
        ensures
            r.env_of() == self.env_of(),
            r.obj_of() == ptr,
            r.ref_type_of() == self.ref_type_of(),
    ;

    /// The call that takes a further reference of this reference's kind.
    fn inc_ref(&self) -> (r: RefCall)
        ensures
            r == acquire_call(self.ref_type_of()),
    {
        acquire_call_for(self.ref_type())
    }

    /// The call that drops this reference.
    fn dec_ref(&self) -> (r: RefCall)
        ensures
            r == release_call(self.ref_type_of()),
    {
        release_call_for(self.ref_type())
    }

    /// Reads what `IsInstanceOf` returned.
    fn is_instance_of(&self, answer: u8) -> (r: bool)
        ensures
            r == jboolean_value(answer),
    {
        answer != 0
    }

    /// Reads what `IsSameObject` returned for this object and another one.
    fn is_same(&self, answer: u8) -> (r: bool)
        ensures
            r == jboolean_value(answer),
    {
        answer != 0
    }

    /// Reads what `IsSameObject` returned for this object and null.
    fn is_null(&self, answer: u8) -> (r: bool)
        ensures
            r == jboolean_value(answer),
    {
        answer != 0
    }
}

/// The class that `GetObjectClass` returned for `obj`.
pub fn get_class<T: JObject>(obj: &T, class_ptr: usize) -> (r: JavaClass)
    ensures
        r.env_of() == obj.env_of(),
        r.obj_of() == class_ptr,
        r.ref_type_of() == RefType::Local,
{
    let env = obj.get_env();
    <JavaClass as JObject>::from(&env, class_ptr)
}

/// `obj` seen as a plain object, holding the further reference `ptr` that
/// the call named by `inc_ref` returned.
pub fn as_jobject<T: JObject>(obj: &T, ptr: usize) -> (r: JavaObject)
    ensures
        r.env_of() == obj.env_of(),
        r.obj_of() == ptr,
        r.ref_type_of() == obj.ref_type_of(),
{
    JavaObject { env: obj.get_env(), ptr: ptr, rtype: obj.ref_type() }
}

/// Marks the reference types that point at Java arrays.
pub trait JArray: JObject {}

/// A reference to a Java object.
pub struct JavaObject {
    env: JavaEnv,
    ptr: usize,
    rtype: RefType,
}

impl JObject for JavaObject {
    closed spec fn env_of(&self) -> JavaEnv {
        self.env
    }

    closed spec fn obj_of(&self) -> usize {
        self.ptr
    }

    closed spec fn ref_type_of(&self) -> RefType {
        self.rtype
    }

    fn get_env(&self) -> (r: JavaEnv) {
        self.env
    }

    fn get_obj(&self) -> (r: usize) {
        self.ptr
    }

    fn ref_type(&self) -> (r: RefType) {
        self.rtype
    }

    fn from(env: &JavaEnv, ptr: usize) -> (r: Self) {
        JavaObject { env: *env, ptr: ptr, rtype: RefType::Local }
    }

    fn global(&self, ptr: usize) -> (r: Self) {
        JavaObject { env: self.env, ptr: ptr, rtype: RefType::Global }
    }

    fn weak(&self, ptr: usize) -> (r: Self) {
        JavaObject { env: self.env, ptr: ptr, rtype: RefType::Weak }
    }

    fn with_ref(&self, ptr: usize) -> (r: Self) {
        JavaObject { env: self.env, ptr: ptr, rtype: self.rtype }
    }
}

/// A reference to a Java class.
pub struct JavaClass {
    env: JavaEnv,
    ptr: usize,
    rtype: RefType,
}

impl JObject for JavaClass {
    closed spec fn env_of(&self) -> JavaEnv {
        self.env
    }

    closed spec fn obj_of(&self) -> usize {
        self.ptr
    }

    closed spec fn ref_type_of(&self) -> RefType {
        self.rtype
    }

    fn get_env(&self) -> (r: JavaEnv) {
        self.env
    }

    fn get_obj(&self) -> (r: usize) {
        self.ptr
    }

    fn ref_type(&self) -> (r: RefType) {
        self.rtype
    }

    fn from(env: &JavaEnv, ptr: usize) -> (r: Self) {
        JavaClass { env: *env, ptr: ptr, rtype: RefType::Local }
    }

    fn global(&self, ptr: usize) -> (r: Self) {
        JavaClass { env: self.env, ptr: ptr, rtype: RefType::Global }
    }

    fn weak(&self, ptr: usize) -> (r: Self) {
        JavaClass { env: self.env, ptr: ptr, rtype: RefType::Weak }
    }

    fn with_ref(&self, ptr: usize) -> (r: Self) {
        JavaClass { env: self.env, ptr: ptr, rtype: self.rtype }
    }
}

/// A reference to a Java throwable.
pub struct JavaThrowable {
    env: JavaEnv,
    ptr: usize,
    rtype: RefType,
}

impl JObject for JavaThrowable {
    closed spec fn env_of(&self) -> JavaEnv {
        self.env
    }

    closed spec fn obj_of(&self) -> usize {
        self.ptr
    }

    closed spec fn ref_type_of(&self) -> RefType {
        self.rtype
    }

    fn get_env(&self) -> (r: JavaEnv) {
        self.env
    }

    fn get_obj(&self) -> (r: usize) {
        self.ptr
    }

    fn ref_type(&self) -> (r: RefType) {
        self.rtype
    }

    fn from(env: &JavaEnv, ptr: usize) -> (r: Self) {
        JavaThrowable { env: *env, ptr: ptr, rtype: RefType::Local }
    }

    fn global(&self, ptr: usize) -> (r: Self) {
        JavaThrowable { env: self.env, ptr: ptr, rtype: RefType::Global }
    }

    fn weak(&self, ptr: usize) -> (r: Self) {
        JavaThrowable { env: self.env, ptr: ptr, rtype: RefType::Weak }
    }

    fn with_ref(&self, ptr: usize) -> (r: Self) {
        JavaThrowable { env: self.env, ptr: ptr, rtype: self.rtype }
    }
}

/// A reference to a Java string.
pub struct JavaString {
    env: JavaEnv,
    ptr: usize,
    rtype: RefType,
}

impl JObject for JavaString {
    closed spec fn env_of(&self) -> JavaEnv {
        self.env
    }

    closed spec fn obj_of(&self) -> usize {
        self.ptr
    }

    closed spec fn ref_type_of(&self) -> RefType {
        self.rtype
    }

    fn get_env(&self) -> (r: JavaEnv) {
        self.env
    }

    fn get_obj(&self) -> (r: usize) {
        self.ptr
    }

    fn ref_type(&self) -> (r: RefType) {
        self.rtype
    }

    fn from(env: &JavaEnv, ptr: usize) -> (r: Self) {
        JavaString { env: *env, ptr: ptr, rtype: RefType::Local }
    }

    fn global(&self, ptr: usize) -> (r: Self) {
        JavaString { env: self.env, ptr: ptr, rtype: RefType::Global }
    }

    fn weak(&self, ptr: usize) -> (r: Self) {
        JavaString { env: self.env, ptr: ptr, rtype: RefType::Weak }
    }

    fn with_ref(&self, ptr: usize) -> (r: Self) {
        JavaString { env: self.env, ptr: ptr, rtype: self.rtype }
    }
}

/// A reference to a Java array whose elements are `T`.
pub struct JavaArray<T> {
    env: JavaEnv,
    ptr: usize,
    rtype: RefType,
    elements: core::marker::PhantomData<T>,
}

impl<T> JObject for JavaArray<T> {
    closed spec fn env_of(&self) -> JavaEnv {
        self.env
    }

    closed spec fn obj_of(&self) -> usize {
        self.ptr
    }

    closed spec fn ref_type_of(&self) -> RefType {
        self.rtype
    }

    fn get_env(&self) -> (r: JavaEnv) {
        self.env
    }

    fn get_obj(&self) -> (r: usize) {
        self.ptr
    }

    fn ref_type(&self) -> (r: RefType) {
        self.rtype
    }

    fn from(env: &JavaEnv, ptr: usize) -> (r: Self) {
        JavaArray { env: *env, ptr: ptr, rtype: RefType::Local, elements: core::marker::PhantomData }
    }

    fn global(&self, ptr: usize) -> (r: Self) {
        JavaArray { env: self.env, ptr: ptr, rtype: RefType::Global, elements: core::marker::PhantomData }
    }

    fn weak(&self, ptr: usize) -> (r: Self) {
        JavaArray { env: self.env, ptr: ptr, rtype: RefType::Weak, elements: core::marker::PhantomData }
    }

    fn with_ref(&self, ptr: usize) -> (r: Self) {
        JavaArray { env: self.env, ptr: ptr, rtype: self.rtype, elements: core::marker::PhantomData }
    }
}

impl<T> JArray for JavaArray<T> {}

impl JavaClass {
    /// The class named by a `FindClass` result that the caller found not to
    /// be null.
    pub fn find(env: &JavaEnv, found: usize) -> (r: JavaClass)
        requires
            found != 0,
        ensures
            r.env_of() == *env,
            r.obj_of() == found,
            r.ref_type_of() == RefType::Local,
    {
        <JavaClass as JObject>::from(env, found)
    }

    /// The superclass that `GetSuperclass` returned for this class.
    pub fn get_super(&self, super_ptr: usize) -> (r: JavaClass)
        ensures
            r.env_of() == self.env_of(),
            r.obj_of() == super_ptr,
            r.ref_type_of() == RefType::Local,
    {
        <JavaClass as JObject>::from(&self.env, super_ptr)
    }

    /// The object that `AllocObject` returned for this class.
    pub fn alloc_instance(&self, obj_ptr: usize) -> (r: JavaObject)
        ensures
            r.env_of() == self.env_of(),
            r.obj_of() == obj_ptr,
            r.ref_type_of() == RefType::Local,
    {
        <JavaObject as JObject>::from(&self.env, obj_ptr)
    }
}

} // verus!
