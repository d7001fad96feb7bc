//! The JNI surface that the library calls. Every call goes to a live JVM, so what comes
//! back depends on the state of that JVM: none of these items promises anything of what the
//! JVM gives. The calls that reach the JVM are methods of `JniSession`, which keeps a ghost
//! log of what each call was handed and what it gave back, so that the functions of the
//! library can state exactly which calls they made.

use jni::objects::{JMethodID, JObject, JObjectArray, JString, JValueGen};
use jni::JNIEnv;
use vstd::prelude::*;

use crate::void::MethodLookup;

verus! {

/// `jni::JNIEnv`, a thread's handle to the JVM; opaque here.
#[verifier::external_type_specification]
#[verifier::external_body]
pub struct ExJNIEnv<'local>(jni::JNIEnv<'local>);

/// `jni::objects::JObject`, a local reference to a Java object (possibly null); opaque here.
#[verifier::external_type_specification]
#[verifier::external_body]
pub struct ExJObject<'local>(jni::objects::JObject<'local>);

/// `jni::sys::_jobject`, the JVM's object type that a `JObject` points to; opaque here.
#[verifier::external_type_specification]
#[verifier::external_body]
pub struct ExJobjectTarget(jni::sys::_jobject);

/// `jni::objects::JObjectArray`, a local reference to a Java object array; opaque here.
#[verifier::external_type_specification]
#[verifier::external_body]
pub struct ExJObjectArray<'local>(jni::objects::JObjectArray<'local>);

/// `jni::objects::JString`, a local reference to a Java string; opaque here.
#[verifier::external_type_specification]
#[verifier::external_body]
pub struct ExJString<'local>(jni::objects::JString<'local>);

/// `jni::objects::JMethodID`, the id of a Java method; opaque here.
#[verifier::external_type_specification]
#[verifier::external_body]
pub struct ExJMethodID(jni::objects::JMethodID);

/// What one JNI call was handed and what it gave back. A `result` of `None` is an error;
/// for a method call, `Some(None)` is a value that holds no object.
#[allow(inconsistent_fields)]
pub enum CallRecord<'local> {
    Static {
        class: Seq<char>,
        name: Seq<char>,
        sig: Seq<char>,
        result: Option<Option<JObject<'local>>>,
    },
    Method {
        receiver: JObject<'local>,
        name: Seq<char>,
        sig: Seq<char>,
        arg: Option<JString<'local>>,
        result: Option<Option<JObject<'local>>>,
    },
    Length { array: JObject<'local>, result: Option<i32> },
    Element { array: JObject<'local>, index: i32, result: Option<JObject<'local>> },
    NewString { text: Seq<char>, result: Option<JString<'local>> },
    Delete { target: JObject<'local>, deleted: bool },
    MethodId { class: Seq<char>, name: Seq<char>, sig: Seq<char>, result: Option<JMethodID> },
}

/// What a call that gives a value was answered, as a record holds it: `None` for an error,
/// `Some(None)` for a value that holds no object, and `Some(Some(o))` for the object `o`.
pub open spec fn value_outcome<'a>(r: Result<Result<JObject<'a>, String>, String>) -> Option<
    Option<JObject<'a>>,
> {
    match r {
        Ok(Ok(o)) => Some(Some(o)),
        Ok(Err(_)) => Some(None),
        Err(_) => None,
    }
}

/// What a call was answered, as a record holds it: `None` for an error.
pub open spec fn call_outcome<T>(r: Result<T, String>) -> Option<T> {
    match r {
        Ok(v) => Some(v),
        Err(_) => None,
    }
}

/// Whether a JNI signature has no `(` after its opening one: it describes no argument of
/// method type, which the jni crate's argument check does not handle.
pub open spec fn simple_signature(sig: Seq<char>) -> bool {
    forall|i: int| 0 < i < sig.len() ==> sig[i] != '('
}

/// A thread's JNI environment together with the log of the calls made through it. The
/// environment can only be reached through the methods below, and each of them appends the
/// record of its call to the log, so the log holds every call made through the session.
pub struct JniSession<'a, 'local> {
    env: &'a mut JNIEnv<'local>,
    log: Ghost<Seq<CallRecord<'local>>>,
}

impl<'a, 'local> JniSession<'a, 'local> {
    /// The records of the calls made through the session, oldest first.
    pub closed spec fn calls(&self) -> Seq<CallRecord<'local>> {
        self.log@
    }

    /// A session on `env` through which no call has been made yet.
    pub fn new(env: &'a mut JNIEnv<'local>) -> (r: Self)
        ensures
            r.calls() == Seq::<CallRecord<'local>>::empty(),
    {
        JniSession { env, log: Ghost(Seq::empty()) }
    }

    /// `JNIEnv::call_static_method` with no arguments, its value turned into the object it
    /// holds by `JValueGen::l`: the outer `Err` when the call returned an error, the inner
    /// one when the value holds no object, each with the error's `Debug` text. Nothing is
    /// claimed of what the JVM gives; the log gains the record of what the call was handed
    /// and what it gave.
    #[verifier::external_body]
    pub(crate) fn call_static_method(&mut self, class: &str, name: &str, sig: &str) -> (r: Result<
        Result<JObject<'local>, String>,
        String,
    >)
        ensures
            final(self).calls() == old(self).calls().push(
                CallRecord::Static { class: class@, name: name@, sig: sig@, result: value_outcome(r) },
            ),
    {
        let result = match self.env.call_static_method(class, name, sig, &[]) {
            Ok(value) => Ok(match value.l() { Ok(o) => Ok(o), Err(e) => Err(format!("{:?}", e)) }),
            Err(e) => Err(format!("{:?}", e)),
        };
        let ghost record = CallRecord::Static { class: class@, name: name@, sig: sig@, result: value_outcome(result) };
        self.log = Ghost(self.log@.push(record));
        result
    }

    /// `JNIEnv::call_method` on `obj`, with `arg` as the one object argument when it is given
    /// and with no argument otherwise, its value turned into the object it holds by
    /// `JValueGen::l`: the outer `Err` when the call returned an error, the inner one when
    /// the value holds no object, each with the error's `Debug` text. With an argument, the
    /// signature may not describe an argument of method type (the jni crate's argument check
    /// reaches `unreachable!` on one). Nothing is claimed of what the JVM gives; the log
    /// gains the record of what the call was handed and what it gave.
    #[verifier::external_body]
    pub(crate) fn call_method(
        &mut self,
        obj: &JObject<'local>,
        name: &str,
        sig: &str,
        arg: Option<&JString<'local>>,
    ) -> (r: Result<Result<JObject<'local>, String>, String>)
        requires
            arg is Some ==> simple_signature(sig@),
        ensures
            final(self).calls() == old(self).calls().push(
                CallRecord::Method {
                    receiver: *obj,
                    name: name@,
                    sig: sig@,
                    arg: match arg {
                        Some(a) => Some(*a),
                        None => None,
                    },
                    result: value_outcome(r),
                },
            ),
    {
        let answer = match arg {
            Some(s) => self.env.call_method(obj, name, sig, &[JValueGen::Object(&**s)]),
            None => self.env.call_method(obj, name, sig, &[]),
        };
        let result = match answer {
            Ok(value) => Ok(match value.l() { Ok(o) => Ok(o), Err(e) => Err(format!("{:?}", e)) }),
            Err(e) => Err(format!("{:?}", e)),
        };
        let ghost given = match arg { Some(a) => Some(*a), None => None };
        let ghost record = CallRecord::Method { receiver: *obj, name: name@, sig: sig@, arg: given, result: value_outcome(result) };
        self.log = Ghost(self.log@.push(record));
        result
    }

    /// `JNIEnv::get_array_length` on `array`, viewed as an object array (jni's
    /// `From<&JObject> for &JObjectArray`): `Err` with the error's `Debug` text when it
    /// returned an error. Nothing is claimed of what the JVM gives; the log gains the record
    /// of the array and what it gave.
    #[verifier::external_body]
    pub(crate) fn get_array_length(&mut self, array: &JObject<'local>) -> (r: Result<i32, String>)
        ensures
            final(self).calls() == old(self).calls().push(
                CallRecord::Length { array: *array, result: call_outcome(r) },
            ),
    {
        let result = match self.env.get_array_length(<&JObjectArray>::from(array)) {
            Ok(n) => Ok(n),
            Err(e) => Err(format!("{:?}", e)),
        };
        self.log = Ghost(self.log@.push(CallRecord::Length { array: *array, result: call_outcome(result) }));
        result
    }

    /// `JNIEnv::get_object_array_element` on `array`, viewed as an object array (jni's
    /// `From<&JObject> for &JObjectArray`): `Err` with the error's `Debug` text when it
    /// returned an error. Nothing is claimed of what the JVM gives; the log gains the record
    /// of the array, the index and what it gave.
    #[verifier::external_body]
    pub(crate) fn get_object_array_element(&mut self, array: &JObject<'local>, index: i32) -> (r:
        Result<JObject<'local>, String>)
        ensures
            final(self).calls() == old(self).calls().push(
                CallRecord::Element { array: *array, index: index, result: call_outcome(r) },
            ),
    {
        let result = match self.env.get_object_array_element(<&JObjectArray>::from(array), index) {
            Ok(o) => Ok(o),
            Err(e) => Err(format!("{:?}", e)),
        };
        let ghost record = CallRecord::Element { array: *array, index, result: call_outcome(result) };
        self.log = Ghost(self.log@.push(record));
        result
    }

    /// `JNIEnv::new_string`: `Err` with the error's `Debug` text when it returned an error.
    /// Nothing is claimed of what the JVM gives; the log gains the record of the text and
    /// what it gave.
    #[verifier::external_body]
    pub(crate) fn new_string(&mut self, text: &str) -> (r: Result<JString<'local>, String>)
        ensures
            final(self).calls() == old(self).calls().push(
                CallRecord::NewString { text: text@, result: call_outcome(r) },
            ),
    {
        let result = match self.env.new_string(text) {
            Ok(s) => Ok(s),
            Err(e) => Err(format!("{:?}", e)),
        };
        self.log = Ghost(self.log@.push(CallRecord::NewString { text: text@, result: call_outcome(result) }));
        result
    }

    /// `JNIEnv::delete_local_ref`: whether it returned `Ok`. Its source fails only when the
    /// environment pointer or its function table is unusable, which cannot be stated over an
    /// opaque environment, so nothing is claimed of the result; the log gains the record of
    /// the reference deleted and the result.
    #[verifier::external_body]
    pub(crate) fn delete_local_ref(&mut self, obj: JObject<'local>) -> (r: bool)
        ensures
            final(self).calls() == old(self).calls().push(
                CallRecord::Delete { target: obj, deleted: r },
            ),
    {
        let ghost target = obj;
        let deleted = self.env.delete_local_ref(obj).is_ok();
        self.log = Ghost(self.log@.push(CallRecord::Delete { target, deleted }));
        deleted
    }

    /// `JNIEnv::get_method_id` for the class, name and signature of `lookup`: `None` when it
    /// returned an error. Nothing is claimed of what the JVM gives; the log gains the record
    /// of what the lookup was handed and what it gave.
    #[verifier::external_body]
    pub(crate) fn get_method_id(&mut self, lookup: &MethodLookup) -> (r: Option<JMethodID>)
        ensures
            final(self).calls() == old(self).calls().push(
                CallRecord::MethodId {
                    class: lookup.class@,
                    name: lookup.name@,
                    sig: lookup.signature@,
                    result: r,
                },
            ),
    {
        let result = self.env.get_method_id(lookup.class, lookup.name, lookup.signature).ok();
        let ghost record = CallRecord::MethodId {
            class: lookup.class@, name: lookup.name@, sig: lookup.signature@, result,
        };
        self.log = Ghost(self.log@.push(record));
        result
    }
}

/// Whether the raw pointer inside a reference is null: what `is_null` gives for it.
pub uninterp spec fn object_is_null(o: JObject) -> bool;

/// `JObject::null`: a reference whose raw pointer is null.
#[verifier::external_body]
pub(crate) fn null_object() -> (r: JObject<'static>)
    ensures
        object_is_null(r),
{
    JObject::null()
}

/// Whether the raw pointer inside `obj` is null (`is_null` through `JObject`'s `Deref`),
/// which depends on the reference alone.
#[verifier::external_body]
pub(crate) fn is_null(obj: &JObject) -> (r: bool)
    ensures
        r == object_is_null(*obj),
{
    obj.is_null()
}

} // verus!
