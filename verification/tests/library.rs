use jni::env::JavaEnv;
use jni::object::acquire_call_for;
use jni::object::as_jobject;
use jni::object::get_class;
use jni::object::release_call_for;
use jni::object::JObject;
use jni::object::JavaArray;
use jni::object::JavaClass;
use jni::object::JavaObject;
use jni::object::JavaString;
use jni::object::JavaThrowable;
use jni::object::RefCall;
use jni::object::RefType;
use jni::status::jboolean_is_true;
use jni::status::status_ok;
use jni::status::to_jboolean;
use jni::status::JniError;
use jni::status::JniVersion;
use jni::status::JNI_EDETACHED;
use jni::status::JNI_EEXIST;
use jni::status::JNI_EINVAL;
use jni::status::JNI_ENOMEM;
use jni::status::JNI_ERR;
use jni::status::JNI_EVERSION;
use jni::status::JNI_OK;
use jni::text::c_compatible;
use jni::text::to_c_bytes;
use jni::text::utf8_or_empty;
use jni::vm::EnvFailure;
use jni::vm::EnvStep;
use jni::vm::JavaVM;
use jni::vm::JavaVMAttachArgs;
use jni::vm::JavaVMInitArgs;
use jni::vm::JavaVMOption;
use jni::vm::JavaVMOptionImpl_new;

#[test]
fn version_codes_are_the_jni_ones() {
    assert_eq!(JniVersion::V1_1.code(), 0x00010001);
    assert_eq!(JniVersion::V1_2.code(), 0x00010002);
    assert_eq!(JniVersion::V1_4.code(), 0x00010004);
    assert_eq!(JniVersion::V1_6.code(), 0x00010006);
    assert_eq!(JniVersion::V1_8.code(), 0x00010008);
    assert_eq!(JniVersion::V9.code(), 0x00090000);
    assert_eq!(JniVersion::V21.code(), 0x00150000);
}

#[test]
fn version_read_from_code() {
    assert_eq!(JniVersion::from_code(0x00010006), Some(JniVersion::V1_6));
    assert_eq!(JniVersion::from_code(0x00180000), Some(JniVersion::V24));
    assert_eq!(JniVersion::from_code(0), None);
    assert_eq!(JniVersion::from_code(0x00010003), None);
}

#[test]
fn version_round_trip_for_every_version() {
    let all = [
        JniVersion::V1_1,
        JniVersion::V1_2,
        JniVersion::V1_4,
        JniVersion::V1_6,
        JniVersion::V1_8,
        JniVersion::V9,
        JniVersion::V10,
        JniVersion::V19,
        JniVersion::V20,
        JniVersion::V21,
        JniVersion::V24,
    ];
    for v in all.iter() {
        assert_eq!(JniVersion::from_code(v.code()), Some(*v));
    }
}

#[test]
fn status_codes_read_and_written() {
    assert_eq!(JniError::from_code(JNI_OK), JniError::Success);
    assert_eq!(JniError::from_code(JNI_ERR), JniError::Unknown);
    assert_eq!(JniError::from_code(JNI_EDETACHED), JniError::Detached);
    assert_eq!(JniError::from_code(JNI_EVERSION), JniError::Version);
    assert_eq!(JniError::from_code(JNI_ENOMEM), JniError::NoMemory);
    assert_eq!(JniError::from_code(JNI_EEXIST), JniError::Exists);
    assert_eq!(JniError::from_code(JNI_EINVAL), JniError::Invalid);
    assert_eq!(JniError::from_code(-42), JniError::Other(-42));
    for c in -10..10 {
        assert_eq!(JniError::from_code(c).code(), c);
    }
}

#[test]
fn status_and_jboolean_readers() {
    assert!(status_ok(0));
    assert!(!status_ok(-1));
    assert!(!status_ok(1));
    assert!(!jboolean_is_true(0));
    assert!(jboolean_is_true(1));
    assert!(jboolean_is_true(255));
    assert_eq!(to_jboolean(true), 1);
    assert_eq!(to_jboolean(false), 0);
    assert!(jboolean_is_true(to_jboolean(true)));
    assert!(!jboolean_is_true(to_jboolean(false)));
}

#[test]
fn c_strings_of_text() {
    assert!(c_compatible("-Xmx64m"));
    assert!(c_compatible(""));
    assert!(!c_compatible("a\0b"));
    assert_eq!(to_c_bytes("abc"), vec![b'a', b'b', b'c', 0]);
    assert_eq!(to_c_bytes("h\u{e9}"), vec![b'h', 0xC3, 0xA9, 0]);
    assert_eq!(to_c_bytes(""), vec![0]);
}

#[test]
fn utf8_decoded_or_empty() {
    assert_eq!(utf8_or_empty(vec![0x68, 0x69]), "hi");
    assert_eq!(utf8_or_empty(vec![0xE2, 0x82, 0xAC]), "\u{20ac}");
    assert_eq!(utf8_or_empty(vec![0xFF]), "");
    assert_eq!(utf8_or_empty(vec![0x61, 0xC3]), "");
    assert_eq!(utf8_or_empty(vec![]), "");
}

#[test]
fn c_string_reads_back_as_the_text() {
    for s in ["", "plain", "gr\u{fc}\u{df}e", "\u{1f600} smile"].iter() {
        let mut bytes = to_c_bytes(s);
        assert_eq!(bytes.pop(), Some(0));
        assert_eq!(utf8_or_empty(bytes), *s);
    }
}

#[test]
fn reference_calls_pair_up() {
    assert_eq!(acquire_call_for(RefType::Local), RefCall::NewLocalRef);
    assert_eq!(acquire_call_for(RefType::Global), RefCall::NewGlobalRef);
    assert_eq!(acquire_call_for(RefType::Weak), RefCall::NewWeakGlobalRef);
    assert_eq!(release_call_for(RefType::Local), RefCall::DeleteLocalRef);
    assert_eq!(release_call_for(RefType::Global), RefCall::DeleteGlobalRef);
    assert_eq!(release_call_for(RefType::Weak), RefCall::DeleteWeakGlobalRef);
}

#[test]
fn objects_from_handles() {
    let env = JavaEnv::from_ptr(0x1000);
    assert_eq!(env.ptr(), 0x1000);
    let obj = <JavaObject as JObject>::from(&env, 0x20);
    assert_eq!(obj.get_env(), env);
    assert_eq!(obj.get_obj(), 0x20);
    assert_eq!(obj.ref_type(), RefType::Local);
    assert_eq!(obj.inc_ref(), RefCall::NewLocalRef);
    assert_eq!(obj.dec_ref(), RefCall::DeleteLocalRef);

    let g = obj.global(0x30);
    assert_eq!(g.get_env(), env);
    assert_eq!(g.get_obj(), 0x30);
    assert_eq!(g.ref_type(), RefType::Global);
    assert_eq!(g.inc_ref(), RefCall::NewGlobalRef);
    assert_eq!(g.dec_ref(), RefCall::DeleteGlobalRef);

    let w = obj.weak(0x40);
    assert_eq!(w.get_obj(), 0x40);
    assert_eq!(w.ref_type(), RefType::Weak);
    assert_eq!(w.dec_ref(), RefCall::DeleteWeakGlobalRef);

    let g2 = g.with_ref(0x50);
    assert_eq!(g2.get_env(), env);
    assert_eq!(g2.get_obj(), 0x50);
    assert_eq!(g2.ref_type(), RefType::Global);
}

#[test]
fn class_and_plain_object_views() {
    let env = JavaEnv::from_ptr(7);
    let t = <JavaThrowable as JObject>::from(&env, 0x70).weak(0x71);
    let c = get_class(&t, 0x72);
    assert_eq!(c.get_env(), env);
    assert_eq!(c.get_obj(), 0x72);
    assert_eq!(c.ref_type(), RefType::Local);
    let o = as_jobject(&t, 0x73);
    assert_eq!(o.get_obj(), 0x73);
    assert_eq!(o.ref_type(), RefType::Weak);
    assert!(o.is_instance_of(1));
    assert!(!o.is_instance_of(0));
    assert!(o.is_same(1));
    assert!(!o.is_null(0));
}

#[test]
fn find_class_reads_null_as_none() {
    let env = JavaEnv::from_ptr(9);
    assert!(env.find_class(0).is_none());
    let c = env.find_class(0x99).unwrap();
    assert_eq!(c.get_obj(), 0x99);
    assert_eq!(c.get_env(), env);
    assert_eq!(c.ref_type(), RefType::Local);
    let f = JavaClass::find(&env, 0x98);
    assert_eq!(f.get_obj(), 0x98);
    let s = f.get_super(0x97);
    assert_eq!(s.get_obj(), 0x97);
    assert_eq!(s.ref_type(), RefType::Local);
    let a = f.alloc_instance(0x96);
    assert_eq!(a.get_obj(), 0x96);
    assert_eq!(a.get_env(), env);
}

#[test]
fn arrays_are_objects() {
    let env = JavaEnv::from_ptr(3);
    let arr: JavaArray<i32> = <JavaArray<i32> as JObject>::from(&env, 0x33);
    let g = arr.global(0x34);
    assert_eq!(g.get_obj(), 0x34);
    assert_eq!(g.ref_type(), RefType::Global);
}

#[test]
fn java_string_text() {
    let env = JavaEnv::from_ptr(5);
    let s = JavaString::new(env, 0x55);
    assert_eq!(s.get_obj(), 0x55);
    assert_eq!(s.ref_type(), RefType::Local);
    let chars = s.chars(0x56, 0x1234, 1);
    assert!(chars.needs_release());
    assert_eq!(chars.chars_ptr(), 0x1234);
    assert_eq!(chars.string().get_obj(), 0x56);
    assert_eq!(chars.to_str(vec![0x6A, 0x61, 0x76, 0x61]), "java");
    let lent = s.chars(0x57, 0x1235, 0);
    assert!(!lent.needs_release());
    assert_eq!(s.to_str(vec![0xC3, 0xA9]), "\u{e9}");
    assert_eq!(s.to_str(vec![0xC3]), "");
    let buffer = [0x68u8, 0x65, 0x6C, 0x6C, 0x6F];
    assert_eq!(s.region(&buffer, 3), "hel");
    assert_eq!(s.region(&buffer, 0), "");
    assert_eq!(s.region(&[0xE2u8, 0x82, 0xAC], 2), "");
}

#[test]
fn vm_options_and_arguments() {
    let opt = JavaVMOption::new("-Xmx64m", 0xABC);
    assert_eq!(opt.optionString, "-Xmx64m");
    assert_eq!(opt.extraInfo, 0xABC);
    let copy = opt.clone();
    assert_eq!(copy.optionString, "-Xmx64m");
    assert_eq!(copy.extraInfo, 0xABC);

    let laid = JavaVMOptionImpl_new(&opt);
    assert_eq!(laid.optionString, b"-Xmx64m\0".to_vec());
    assert_eq!(laid.extraInfo, 0xABC);

    let opts = [opt, JavaVMOption::new("-verbose:jni", 0)];
    let args = JavaVMInitArgs::new(JniVersion::V1_6, &opts, true);
    assert_eq!(args.version, JniVersion::V1_6);
    assert!(args.ignoreUnrecognized);
    assert_eq!(args.options.len(), 2);
    assert_eq!(args.options[1].optionString, "-verbose:jni");
    assert!(args.options_c_compatible());

    let imp = args.to_impl();
    assert_eq!(imp.version, 0x00010006);
    assert_eq!(imp.nOptions, 2);
    assert_eq!(imp.ignoreUnrecognized, 1);
    assert_eq!(imp.options[0].optionString, b"-Xmx64m\0".to_vec());
    assert_eq!(imp.options[1].optionString, b"-verbose:jni\0".to_vec());
    assert_eq!(imp.options[0].extraInfo, 0xABC);

    let empty = JavaVMInitArgs::new(JniVersion::V1_2, &[], false);
    let imp = empty.to_impl();
    assert_eq!(imp.nOptions, 0);
    assert_eq!(imp.ignoreUnrecognized, 0);

    let bad = JavaVMInitArgs::new(JniVersion::V1_2, &[JavaVMOption::new("-Dx=a\0b", 0)], false);
    assert!(!bad.options_c_compatible());
}

#[test]
fn attach_arguments() {
    let env = JavaEnv::from_ptr(1);
    let group = <JavaObject as JObject>::from(&env, 0x11);
    let a = JavaVMAttachArgs::new(JniVersion::V1_4, "worker", group);
    assert_eq!(a.version, JniVersion::V1_4);
    assert_eq!(a.name, "worker");
    assert_eq!(a.group.get_obj(), 0x11);
}

#[test]
fn created_vm_is_owned() {
    let args = JavaVMInitArgs::new(JniVersion::V1_6, &[], false);
    let vm = JavaVM::new(args, "main", JNI_OK, 0xBEEF).ok().unwrap();
    assert_eq!(vm.ptr(), 0xBEEF);
    assert_eq!(vm.version(), JniVersion::V1_6);
    assert!(vm.is_owned());
}

#[test]
fn failed_creation_reports_status() {
    let args = JavaVMInitArgs::new(JniVersion::V1_6, &[], false);
    match JavaVM::new(args, "main", JNI_EEXIST, 0) {
        Err(e) => assert_eq!(e, JniError::Exists),
        Ok(_) => panic!("creation must fail"),
    }
    let args = JavaVMInitArgs::new(JniVersion::V1_6, &[], false);
    match JavaVM::new(args, "main", 17, 0) {
        Err(e) => assert_eq!(e, JniError::Other(17)),
        Ok(_) => panic!("creation must fail"),
    }
}

#[test]
fn looked_up_vm_is_not_owned() {
    let vm = JavaVM::from(0xCAFE);
    assert_eq!(vm.ptr(), 0xCAFE);
    assert_eq!(vm.version(), JniVersion::V1_1);
    assert!(!vm.is_owned());
    let vm = vm.with_version(JniVersion::V1_8);
    assert_eq!(vm.version(), JniVersion::V1_8);
    assert_eq!(vm.ptr(), 0xCAFE);
    assert!(!vm.is_owned());
}

#[test]
fn get_env_steps() {
    let args = JavaVMInitArgs::new(JniVersion::V1_6, &[], false);
    let vm = JavaVM::new(args, "main", JNI_OK, 0xBEEF).ok().unwrap();
    assert!(matches!(vm.on_get_env(JNI_OK), EnvStep::Ready));
    match vm.on_get_env(JNI_EDETACHED) {
        EnvStep::Attach(a) => {
            assert_eq!(a.version, 0x00010006);
            assert_eq!(a.name, b"main\0".to_vec());
            assert_eq!(a.group, 0);
        }
        _ => panic!("a detached thread must be attached"),
    }
    match vm.on_get_env(JNI_EVERSION) {
        EnvStep::Fail(f) => assert_eq!(f, EnvFailure::VersionNotSupported(JniVersion::V1_6)),
        _ => panic!("an unsupported version must fail"),
    }
    match vm.on_get_env(JNI_ENOMEM) {
        EnvStep::Fail(f) => assert_eq!(f, EnvFailure::GetEnvError(JniError::NoMemory)),
        _ => panic!("an error must fail"),
    }
    assert_eq!(vm.on_attach(JNI_OK), Ok(()));
    assert_eq!(vm.on_attach(JNI_ERR), Err(EnvFailure::AttachError(JniError::Unknown)));
}

#[test]
fn looked_up_vm_attaches_with_empty_name() {
    let vm = JavaVM::from(0x10).with_version(JniVersion::V1_2);
    match vm.on_get_env(JNI_EDETACHED) {
        EnvStep::Attach(a) => {
            assert_eq!(a.version, 0x00010002);
            assert_eq!(a.name, vec![0u8]);
        }
        _ => panic!("a detached thread must be attached"),
    }
}

#[test]
fn laid_out_option_reads_back() {
    let opt = JavaVMOption::new("-Dname=\u{e9}t\u{e9}", 0);
    let mut laid = JavaVMOptionImpl_new(&opt).optionString;
    assert_eq!(laid.pop(), Some(0));
    assert!(!laid.contains(&0));
    assert_eq!(utf8_or_empty(laid), opt.optionString);
}
