//! Verified core of a binding to the Java Native Interface.
//!
//! The library holds what the binding decides on its own: how JNI status
//! codes and versions are read, how Java VM start-up options are laid out as
//! NUL-terminated C strings, what `GetEnv` and `AttachCurrentThread` results
//! lead to, which reference call creates and which one releases a local,
//! global or weak reference, and how UTF-8 text that comes back from the VM is
//! turned into a `String`. Pointers that the VM hands out are kept as plain
//! addresses (`usize`); the calls through the JNI function tables are made by
//! the caller, which hands their results to the functions here.

pub mod status;
pub mod text;
pub mod object;
pub mod env;
pub mod string;
pub mod vm;
