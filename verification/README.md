# jni

A binding to the Java Native Interface whose decisions are verified with Verus.

- `src/` is the verified library. It keeps VM pointers and JNI handles as
  addresses and holds what the binding decides: JNI status codes, booleans and
  versions (`status`), NUL-terminated UTF-8 strings going to the VM and UTF-8
  text coming back (`text`), reference kinds and the calls that make and drop
  each kind (`object`), the thread environment (`env`), Java strings and their
  lent characters (`string`), and VM start-up arguments, VM creation and the
  `GetEnv` / `AttachCurrentThread` protocol (`vm`).
- `app/` makes the calls through the JNI function tables (with `jni-sys`) and
  hands their results to the library.
- `tests/` runs the library on concrete values.
