# void_client

A client that is loaded into a Java game's process: it finds the JVM, looks up the game's
class loader, hooks methods of the game's player through the JNIHook library, and hands
key presses to toggleable modules.

- `src/` is the verified library (Verus): the logger's life cycle (`util::logger`), the
  search for the JVM and for the game's class loader (`util::jvm`, `util::search`), the
  JNI calls it makes (`util::jni_calls`, trusted), and the hook plan, JNIHook result
  messages and key handling (`void`).
- `app/` is the Windows-side shell: file and console output, the operating-system and
  JNIHook calls, the native hook functions, start-up and exit.
- `tests/` runs the library's decisions on concrete replies.
