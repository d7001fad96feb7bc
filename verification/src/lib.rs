//! Decision logic of an in-process JVM hooking client: the logger's life cycle, the
//! search for the process's JVM, the search for the game's class loader through JNI,
//! and the plan of the methods that get hooked.

pub mod util;
pub mod void;
