//! Java VM start-up arguments, the VM handle, and what the results of
//! `JNI_CreateJavaVM`, `GetEnv` and `AttachCurrentThread` lead to.

use vstd::prelude::*;
use vstd::string::StringSliceAdditionalSpecFns;
use vstd::utf8::encode_utf8;
use crate::object::JavaObject;
use crate::status::error_of_code;
use crate::status::jboolean_of;
use crate::status::to_jboolean;
use crate::status::version_code;
use crate::status::JniError;
use crate::status::JniVersion;
use crate::status::JNI_EDETACHED;
use crate::status::JNI_EVERSION;
use crate::status::JNI_OK;
use crate::text::c_compatible;
use crate::text::c_string_of;
use crate::text::nul_free;
use crate::text::lemma_c_string_round_trip;
use crate::text::lemma_c_ok_iff_no_nul_char;
use crate::text::text_or_empty;
use crate::text::to_c_bytes;

verus! {

/// One option handed to the VM at start-up, such as `-Xmx64m`.
///
/// `extraInfo` is the address that the VM receives along with the option.
#[allow(non_snake_case)]
pub struct JavaVMOption {
    pub optionString: String,
    pub extraInfo: usize,
}

impl Clone for JavaVMOption {
    fn clone(&self) -> (r: Self)
        ensures
            r == *self,
    {
        JavaVMOption { optionString: self.optionString.clone(), extraInfo: self.extraInfo }
    }
}

impl JavaVMOption {
    /// The option `option`, with `extra` as its extra information.
    pub fn new(option: &str, extra: usize) -> (r: JavaVMOption)
        ensures
            r.optionString@ == option@,
            r.extraInfo == extra,
    {
        JavaVMOption { optionString: option.to_owned(), extraInfo: extra }
    }

    /// Whether the option can be handed to the VM as a C string.
    pub open spec fn c_ok(self) -> bool {
        nul_free(encode_utf8(self.optionString@))
    }
}

/// An option laid out as the VM reads it: a NUL-terminated UTF-8 string and
/// the extra information.
#[allow(non_snake_case)]
pub struct JavaVMOptionImpl {
    pub optionString: Vec<u8>,
    pub extraInfo: usize,
}

/// Lays out `opt` as the VM reads it.
#[allow(non_snake_case)]
pub fn JavaVMOptionImpl_new(opt: &JavaVMOption) -> (r: JavaVMOptionImpl)
    requires
        opt.c_ok(),
    ensures
        r.optionString@ == c_string_of(encode_utf8(opt.optionString@)),
        r.extraInfo == opt.extraInfo,
{
    let s = opt.optionString.as_str();
    JavaVMOptionImpl { optionString: to_c_bytes(s), extraInfo: opt.extraInfo }
}

/// An option laid out for the VM is its text followed by one NUL, with no
/// NUL before it, and reads back, up to that NUL, as the option itself.
pub proof fn lemma_laid_out_option_reads_back(opt: JavaVMOption, laid: JavaVMOptionImpl)
    requires
        opt.c_ok(),
        laid.optionString@ == c_string_of(encode_utf8(opt.optionString@)),
    ensures
        laid.optionString@.last() == 0u8,
        nul_free(laid.optionString@.drop_last()),
        text_or_empty(laid.optionString@.drop_last()) == opt.optionString@,
{
    assert(laid.optionString@.drop_last() =~= encode_utf8(opt.optionString@));
    lemma_c_string_round_trip(opt.optionString@);
}

/// The arguments with which a VM is created.
#[allow(non_snake_case)]
pub struct JavaVMInitArgs {
    pub version: JniVersion,
    pub options: Vec<JavaVMOption>,
    pub ignoreUnrecognized: bool,
}

/// The start-up arguments laid out as `JNI_CreateJavaVM` reads them.
#[allow(non_snake_case)]
pub struct JavaVMInitArgsImpl {
    pub version: i32,
    pub nOptions: i32,
    pub options: Vec<JavaVMOptionImpl>,
    pub ignoreUnrecognized: u8,
}

impl JavaVMInitArgs {
    /// Arguments for `version` with a copy of `options`.
    pub fn new(version: JniVersion, options: &[JavaVMOption], ignoreUnrecognized: bool) -> (r:
        JavaVMInitArgs)
        ensures
            r.version == version,
            r.options@ == options@,
            r.ignoreUnrecognized == ignoreUnrecognized,
    {
        let mut copied: Vec<JavaVMOption> = Vec::new();
        let n = options.len();
        let mut i: usize = 0;
        while i < n
            invariant
                n == options@.len(),
                0 <= i <= n,
                copied@ == options@.take(i as int),
            decreases n - i,
        {
            copied.push(options[i].clone());
            i += 1;
            assert(copied@ =~= options@.take(i as int));
        }
        assert(copied@ =~= options@);
        JavaVMInitArgs { version, options: copied, ignoreUnrecognized }
    }

    /// Whether every option can be handed to the VM as a C string.
    pub open spec fn options_c_ok(self) -> bool {
        forall|i: int| 0 <= i < self.options@.len() ==> (#[trigger] self.options@[i]).c_ok()
    }

    /// The arguments can be handed to the VM exactly when no option holds
    /// the character NUL; in particular, when there are no options.
    pub proof fn lemma_options_c_ok_meaning(self)
        ensures
            self.options_c_ok() <==> (forall|i: int, j: int|
                0 <= i < self.options@.len() && 0 <= j < self.options@[i].optionString@.len()
                    ==> #[trigger] self.options@[i].optionString@[j] != '\0'),
            self.options@.len() == 0 ==> self.options_c_ok(),
    {
        if self.options_c_ok() {
            assert forall|i: int, j: int|
                0 <= i < self.options@.len() && 0 <= j < self.options@[i].optionString@.len()
                implies #[trigger] self.options@[i].optionString@[j] != '\0' by {
                assert(self.options@[i].c_ok());
                lemma_c_ok_iff_no_nul_char(self.options@[i].optionString@);
            }
        } else {
            let i = choose|i: int| 0 <= i < self.options@.len() && !(#[trigger] self.options@[i]).c_ok();
            lemma_c_ok_iff_no_nul_char(self.options@[i].optionString@);
            let j = choose|j: int|
                0 <= j < self.options@[i].optionString@.len() && self.options@[i].optionString@[j] == '\0';
            assert(self.options@[i].optionString@[j] == '\0');
        }
    }

    /// Checks that every option can be handed to the VM as a C string: true
    /// exactly when no option holds the character NUL.
    pub fn options_c_compatible(&self) -> (r: bool)
        ensures
            r == self.options_c_ok(),
            r <==> (forall|i: int, j: int|
                0 <= i < self.options@.len() && 0 <= j < self.options@[i].optionString@.len()
                    ==> #[trigger] self.options@[i].optionString@[j] != '\0'),
    {
        proof {
            self.lemma_options_c_ok_meaning();
        }
        let n = self.options.len();
        let mut i: usize = 0;
        while i < n
            invariant
                n == self.options@.len(),
                0 <= i <= n,
                forall|j: int| 0 <= j < i ==> (#[trigger] self.options@[j]).c_ok(),
            decreases n - i,
        {
            if !c_compatible(self.options[i].optionString.as_str()) {
                return false;
            }
            i += 1;
        }
        true
    }

    /// Lays out the arguments as `JNI_CreateJavaVM` reads them: the version
    /// code, the option count as a `jint`, each option as a C string, and
    /// the flag as a `jboolean`.
    pub fn to_impl(&self) -> (r: JavaVMInitArgsImpl)
        requires
            self.options_c_ok(),
        ensures
            r.version == version_code(self.version),
            r.nOptions == self.options@.len() as i32,
            r.ignoreUnrecognized == jboolean_of(self.ignoreUnrecognized),
            r.options@.len() == self.options@.len(),
            forall|i: int|
                0 <= i < self.options@.len() ==> (#[trigger] r.options@[i]).optionString@
                    == c_string_of(encode_utf8(self.options@[i].optionString@))
                    && r.options@[i].extraInfo == self.options@[i].extraInfo,
    {
        let n = self.options.len();
        let mut opts: Vec<JavaVMOptionImpl> = Vec::new();
        let mut i: usize = 0;
        while i < n
            invariant
                n == self.options@.len(),
                self.options_c_ok(),
                0 <= i <= n,
                opts@.len() == i,
                forall|j: int|
                    0 <= j < i ==> (#[trigger] opts@[j]).optionString@ == c_string_of(
                        encode_utf8(self.options@[j].optionString@),
                    ) && opts@[j].extraInfo == self.options@[j].extraInfo,
            decreases n - i,
        {
            assert(self.options@[i as int].c_ok());
            opts.push(JavaVMOptionImpl_new(&self.options[i]));
            i += 1;
        }
        let flag = to_jboolean(self.ignoreUnrecognized);
        JavaVMInitArgsImpl {
            version: self.version.code(),
            nOptions: n as i32,
            options: opts,
            ignoreUnrecognized: flag,
        }
    }
}

/// The arguments with which a thread attaches to a VM.
pub struct JavaVMAttachArgs {
    pub version: JniVersion,
    pub name: String,
    pub group: JavaObject,
}

impl JavaVMAttachArgs {
    /// Arguments for `version`, naming the thread `name`, in `group`.
    pub fn new(version: JniVersion, name: &str, group: JavaObject) -> (r: JavaVMAttachArgs)
        ensures
            r.version == version,
            r.name@ == name@,
            r.group == group,
    {
        JavaVMAttachArgs { version, name: name.to_owned(), group }
    }
}

/// Attach arguments laid out as `AttachCurrentThread` reads them: the
/// version code, the thread name as a C string, and the group's handle.
pub struct JavaVMAttachArgsImpl {
    pub version: i32,
    pub name: Vec<u8>,
    pub group: usize,
}

/// Why no environment could be had for the current thread.
#[derive(Clone, Copy, Debug, PartialEq, Eq, Structural)]
pub enum EnvFailure {
    /// `GetEnv` does not support the VM's version.
    VersionNotSupported(JniVersion),
    /// `GetEnv` failed otherwise.
    GetEnvError(JniError),
    /// Attaching the thread failed.
    AttachError(JniError),
}

/// What follows a `GetEnv` call.
pub enum EnvStep {
    /// The thread is attached: the environment that `GetEnv` gave is ready.
    Ready,
    /// The thread is detached: attach it with these arguments.
    Attach(JavaVMAttachArgsImpl),
    /// No environment can be had.
    Fail(EnvFailure),
}

/// A Java VM, held by the address of its `JavaVM` structure.
///
/// A VM that this library created is owned and is destroyed when dropped; a
/// VM that was only looked up is not.
pub struct JavaVM {
    ptr: usize,
    version: JniVersion,
    name: String,
    owned: bool,
}

impl JavaVM {
    /// The thread name can be handed to the VM as a C string.
    #[verifier::type_invariant]
    closed spec fn name_fits(self) -> bool {
        nul_free(encode_utf8(self.name@))
    }

    /// The address of the VM.
    pub closed spec fn ptr_of(self) -> usize {
        self.ptr
    }

    /// The JNI version that the VM is used with.
    pub closed spec fn version_of(self) -> JniVersion {
        self.version
    }

    /// The name under which threads are attached to the VM.
    pub closed spec fn name_of(self) -> Seq<char> {
        self.name@
    }

    /// Whether the VM is destroyed when this handle is dropped.
    pub closed spec fn owned_of(self) -> bool {
        self.owned
    }

    /// The VM that `JNI_CreateJavaVM` made from `args`, given its status
    /// and the VM address it wrote; threads will attach under `name`. Any
    /// status but `JNI_OK` is the creation's error.
    pub fn new(args: JavaVMInitArgs, name: &str, created: i32, vm_ptr: usize) -> (r: Result<
        JavaVM,
        JniError,
    >)
        requires
            nul_free(name.spec_bytes()),
        ensures
            r is Ok <==> created == JNI_OK,
            r matches Ok(vm) ==> vm.ptr_of() == vm_ptr && vm.version_of() == args.version
                && vm.name_of() == name@ && vm.owned_of(),
            r matches Err(e) ==> e == error_of_code(created),
    {
        if created == JNI_OK {
            Ok(JavaVM { ptr: vm_ptr, version: args.version, name: name.to_owned(), owned: true })
        } else {
            Err(JniError::from_code(created))
        }
    }

    /// A VM that was looked up, not created here, before its version is
    /// known: version 1.1, no thread name, not owned.
    pub fn from(ptr: usize) -> (r: JavaVM)
        ensures
            r.ptr_of() == ptr,
            r.version_of() == JniVersion::V1_1,
            r.name_of() == Seq::<char>::empty(),
            !r.owned_of(),
    {
        let name = String::new();
        assert(encode_utf8(name@) =~= Seq::<u8>::empty());
        JavaVM { ptr, version: JniVersion::V1_1, name, owned: false }
    }

    /// The same VM, used with `version`, which its environment reported.
    pub fn with_version(self, version: JniVersion) -> (r: JavaVM)
        ensures
            r.ptr_of() == self.ptr_of(),
            r.version_of() == version,
            r.name_of() == self.name_of(),
            r.owned_of() == self.owned_of(),
    {
        proof {
            use_type_invariant(&self);
        }
        JavaVM { ptr: self.ptr, version, name: self.name, owned: self.owned }
    }

    /// The address of the VM.
    pub fn ptr(&self) -> (r: usize)
        ensures
            r == self.ptr_of(),
    {
        self.ptr
    }

    /// The JNI version that the VM is used with.
    pub fn version(&self) -> (r: JniVersion)
        ensures
            r == self.version_of(),
    {
        self.version
    }

    /// Whether dropping this handle must destroy the VM.
    pub fn is_owned(&self) -> (r: bool)
        ensures
            r == self.owned_of(),
    {
        self.owned
    }

    /// What follows the status of `GetEnv` for the VM's version: with
    /// `JNI_OK` the environment is ready; with `JNI_EDETACHED` the thread is
    /// attached under the VM's version and name, in no group; any other
    /// status is a failure.
    pub fn on_get_env(&self, status: i32) -> (r: EnvStep)
        ensures
            status == JNI_OK ==> r is Ready,
            status == JNI_EDETACHED ==> (r matches EnvStep::Attach(a) && a.version == version_code(
                self.version_of(),
            ) && a.name@ == c_string_of(encode_utf8(self.name_of())) && a.group == 0),
            status == JNI_EVERSION ==> r == EnvStep::Fail(
                EnvFailure::VersionNotSupported(self.version_of()),
            ),
            status != JNI_OK && status != JNI_EDETACHED && status != JNI_EVERSION ==> r
                == EnvStep::Fail(EnvFailure::GetEnvError(error_of_code(status))),
    {
        proof {
            use_type_invariant(self);
        }
        if status == JNI_OK {
            EnvStep::Ready
        } else if status == JNI_EDETACHED {
            let name = to_c_bytes(self.name.as_str());
            EnvStep::Attach(JavaVMAttachArgsImpl { version: self.version.code(), name, group: 0 })
        } else if status == JNI_EVERSION {
            EnvStep::Fail(EnvFailure::VersionNotSupported(self.version))
        } else {
            EnvStep::Fail(EnvFailure::GetEnvError(JniError::from_code(status)))
        }
    }

    /// What follows the status of attaching the thread: the environment
    /// that the attach call gave is ready exactly on `JNI_OK`.
    pub fn on_attach(&self, status: i32) -> (r: Result<(), EnvFailure>)
        ensures
            r is Ok <==> status == JNI_OK,
            r matches Err(e) ==> e == EnvFailure::AttachError(error_of_code(status)),
    {
        if status == JNI_OK {
            Ok(())
        } else {
            Err(EnvFailure::AttachError(JniError::from_code(status)))
        }
    }
}

} // verus!
