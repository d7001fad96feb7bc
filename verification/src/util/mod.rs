pub mod logger;
pub mod jni_calls;
pub mod search;
pub mod jvm;
