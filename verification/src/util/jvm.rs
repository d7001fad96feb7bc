//! Finding the process's JVM, and finding the class loader of the game inside it.

use jni::objects::{JObject, JString};
use vstd::prelude::*;

use crate::util::jni_calls::{
    is_null, null_object, object_is_null, simple_signature, CallRecord, JniSession,
};
use crate::void::{decimal, decimal_string};
use crate::util::search::{
    announce, in_thread, initial_state, law_step_progress, lemma_request_signatures, lemma_run_push,
    request, request_spec,
    run, ClassLoaderSearch, JniCall, JniRequest, Phase, Reply, SearchOutcome, SearchStep, Slot,
};

verus! {

/// The module that holds the JVM.
pub const JVM_MODULE: &'static str = "jvm.dll";

/// The exported function of the JVM module that lists the JVMs created in the process.
pub const CREATED_VMS_SYMBOL: &'static str = "JNI_GetCreatedJavaVMs";

/// Why the client gives up on the JVM and unloads itself.
#[derive(PartialEq, Eq, Structural, Clone, Copy, Debug)]
pub enum ExitReason {
    /// The JVM module, its function or the list of JVMs could not be had.
    NoJvm,
    /// The first JVM listed is a null pointer.
    NullVm,
}

impl ExitReason {
    /// The message logged before unloading.
    pub fn message(&self) -> (r: &'static str)
        ensures
            *self == ExitReason::NoJvm ==> r@ == "No JVM Was found, exiting..."@,
            *self == ExitReason::NullVm ==> r@ == "First VM was null, exiting..."@,
    {
        match self {
            ExitReason::NoJvm => "No JVM Was found, exiting...",
            ExitReason::NullVm => "First VM was null, exiting...",
        }
    }
}

/// What the search for the JVM asks for next, or how it ended.
#[derive(PartialEq, Eq, Structural, Clone, Copy, Debug)]
pub enum DiscoveryStep {
    /// Look up the handle of the module `JVM_MODULE`.
    FindModule,
    /// Look up the address of `CREATED_VMS_SYMBOL` in that module.
    FindSymbol,
    /// Call that function with a buffer that has room for `capacity` JVMs.
    ListVms { capacity: usize },
    /// Take the first JVM of the list.
    PickFirst,
    /// Use the JVM at this address.
    UseVm(usize),
    /// Give up, for this reason.
    Exit(ExitReason),
}

/// Where the search for the JVM stands.
#[derive(PartialEq, Eq, Structural, Clone, Copy, Debug)]
pub enum DiscoveryPhase {
    Module,
    Symbol,
    List,
    Pick,
    Done,
}

/// The search for the process's JVM: the JVM module, its function that lists the JVMs,
/// the list, and the first JVM in it.
pub struct JvmDiscovery {
    phase: DiscoveryPhase,
}

impl View for JvmDiscovery {
    type V = DiscoveryPhase;

    closed spec fn view(&self) -> DiscoveryPhase {
        self.phase
    }
}

impl JvmDiscovery {
    /// A new search, and its first request: the JVM module's handle.
    pub fn start() -> (r: (JvmDiscovery, DiscoveryStep))
        ensures
            r.0@ == DiscoveryPhase::Module,
            r.1 == DiscoveryStep::FindModule,
    {
        (JvmDiscovery { phase: DiscoveryPhase::Module }, DiscoveryStep::FindModule)
    }

    /// Takes the module handle (0 when the module is not loaded): without a module there is
    /// no JVM, otherwise the function is looked up.
    pub fn module_found(&mut self, handle: usize) -> (r: DiscoveryStep)
        requires
            old(self)@ == DiscoveryPhase::Module,
        ensures
            handle == 0 ==> r == DiscoveryStep::Exit(ExitReason::NoJvm),
            handle == 0 ==> final(self)@ == DiscoveryPhase::Done,
            handle != 0 ==> r == DiscoveryStep::FindSymbol,
            handle != 0 ==> final(self)@ == DiscoveryPhase::Symbol,
    {
        if handle == 0 {
            self.phase = DiscoveryPhase::Done;
            DiscoveryStep::Exit(ExitReason::NoJvm)
        } else {
            self.phase = DiscoveryPhase::Symbol;
            DiscoveryStep::FindSymbol
        }
    }

    /// Takes the function's address (0 when it is not exported): without it there is no
    /// JVM, otherwise the JVMs are listed into a buffer with room for one.
    pub fn symbol_found(&mut self, address: usize) -> (r: DiscoveryStep)
        requires
            old(self)@ == DiscoveryPhase::Symbol,
        ensures
            address == 0 ==> r == DiscoveryStep::Exit(ExitReason::NoJvm),
            address == 0 ==> final(self)@ == DiscoveryPhase::Done,
            address != 0 ==> r == (DiscoveryStep::ListVms { capacity: 1 }),
            address != 0 ==> final(self)@ == DiscoveryPhase::List,
    {
        if address == 0 {
            self.phase = DiscoveryPhase::Done;
            DiscoveryStep::Exit(ExitReason::NoJvm)
        } else {
            self.phase = DiscoveryPhase::List;
            DiscoveryStep::ListVms { capacity: 1 }
        }
    }

    /// Takes the status that the listing returned: a non-zero status means there is no
    /// JVM; otherwise the first JVM listed is to be picked.
    pub fn vms_listed(&mut self, status: i32) -> (r: DiscoveryStep)
        requires
            old(self)@ == DiscoveryPhase::List,
        ensures
            status != 0 ==> r == DiscoveryStep::Exit(ExitReason::NoJvm),
            status != 0 ==> final(self)@ == DiscoveryPhase::Done,
            status == 0 ==> r == DiscoveryStep::PickFirst,
            status == 0 ==> final(self)@ == DiscoveryPhase::Pick,
    {
        if status != 0 {
            self.phase = DiscoveryPhase::Done;
            DiscoveryStep::Exit(ExitReason::NoJvm)
        } else {
            self.phase = DiscoveryPhase::Pick;
            DiscoveryStep::PickFirst
        }
    }

    /// How many entries of the list to keep: the count that the listing reported, cut to
    /// the room the buffer had, and none for a negative count.
    pub fn kept_count(count: i32, capacity: usize) -> (r: usize)
        ensures
            count <= 0 ==> r == 0,
            0 < count <= capacity ==> r == count,
            count > 0 && count > capacity ==> r == capacity,
    {
        if count <= 0 {
            0
        } else if (count as u64) <= (capacity as u64) {
            count as usize
        } else {
            capacity
        }
    }

    /// Takes the first JVM listed: it is used unless it is null.
    pub fn first_vm(&mut self, vm: usize) -> (r: DiscoveryStep)
        requires
            old(self)@ == DiscoveryPhase::Pick,
        ensures
            final(self)@ == DiscoveryPhase::Done,
            vm == 0 ==> r == DiscoveryStep::Exit(ExitReason::NullVm),
            vm != 0 ==> r == DiscoveryStep::UseVm(vm),
    {
        self.phase = DiscoveryPhase::Done;
        if vm == 0 {
            DiscoveryStep::Exit(ExitReason::NullVm)
        } else {
            DiscoveryStep::UseVm(vm)
        }
    }
}

/// One call of the search as the log reports it: the call, the JVM's reply, and the error
/// text that the call gave, if it gave one.
pub struct Progress {
    pub call: JniCall,
    pub reply: Reply,
    pub detail: Option<String>,
}

/// Deleting a local reference failed while the class loader was searched for.
#[derive(PartialEq, Eq, Structural, Clone, Copy, Debug)]
pub struct LocalRefNotDeleted;

/// The reply that a reference stands for: `Null` for a null reference, `Object` otherwise.
pub open spec fn reference_reply(o: JObject) -> Reply {
    if object_is_null(o) {
        Reply::Null
    } else {
        Reply::Object
    }
}

/// The reply that a reference the JVM gave stands for.
fn reply_for(obj: &JObject) -> (r: Reply)
    ensures
        r == reference_reply(*obj),
{
    if is_null(obj) {
        Reply::Null
    } else {
        Reply::Object
    }
}

/// The object a call gave, or a null reference with the conversion's error text when it
/// gave a value without an object.
fn object_or_null<'local>(given: Result<JObject<'local>, String>) -> (r: (
    JObject<'local>,
    Option<String>,
))
    ensures
        given matches Ok(o) ==> r.0 == o && r.1 is None,
        given is Err ==> object_is_null(r.0) && r.1 is Some,
{
    match given {
        Ok(obj) => (obj, None),
        Err(text) => (null_object(), Some(text)),
    }
}

/// Whether a recorded call came with an error text: one that returned an error, or a method
/// call whose value held no object. (A failed deletion gives no text.)
pub open spec fn error_text_given<'a>(rec: CallRecord<'a>) -> bool {
    match rec {
        CallRecord::Static { result, .. } => !(result matches Some(Some(_))),
        CallRecord::Method { result, .. } => !(result matches Some(Some(_))),
        CallRecord::Length { result, .. } => result is None,
        CallRecord::Element { result, .. } => result is None,
        CallRecord::NewString { result, .. } => result is None,
        _ => false,
    }
}

/// Whether a slot holds an object reference (every slot but the one of the class name,
/// which holds a Java string).
pub open spec fn object_slot(s: Slot) -> bool {
    s != Slot::ClassName
}

/// The slot that keeps the reference a request gives, if it gives one.
pub open spec fn into_slot(req: JniRequest) -> Option<Slot> {
    match req {
        JniRequest::CallStatic { into, .. } => Some(into),
        JniRequest::CallMethod { into, .. } => Some(into),
        JniRequest::ArrayElement { into, .. } => Some(into),
        JniRequest::NewString { .. } => Some(Slot::ClassName),
        _ => None,
    }
}

/// The slot whose reference a request deletes, if it deletes one.
pub open spec fn deleted_slot(req: JniRequest) -> Option<Slot> {
    match req {
        JniRequest::Delete { slot } => Some(slot),
        _ => None,
    }
}

/// The slot that making `req` with reply `reply` changes: the deleted one, or the one that
/// keeps what a successful call gave.
pub open spec fn touched(req: JniRequest, reply: Reply) -> Option<Slot> {
    if deleted_slot(req) is Some {
        deleted_slot(req)
    } else if reply != Reply::Failed {
        into_slot(req)
    } else {
        None
    }
}

/// The object reference that a recorded call gave, if it gave one.
pub open spec fn object_given<'a>(rec: CallRecord<'a>) -> Option<JObject<'a>> {
    match rec {
        CallRecord::Static { result, .. } => match result {
            Some(Some(o)) => Some(o),
            _ => None,
        },
        CallRecord::Method { result, .. } => match result {
            Some(Some(o)) => Some(o),
            _ => None,
        },
        CallRecord::Element { result, .. } => result,
        _ => None,
    }
}

/// The reply that a method call's result stands for: `Failed` for an error, `Null` for a
/// value without an object, and for an object the reply its reference stands for.
pub open spec fn value_reply<'a>(result: Option<Option<JObject<'a>>>) -> Reply {
    match result {
        None => Reply::Failed,
        Some(None) => Reply::Null,
        Some(Some(o)) => reference_reply(o),
    }
}

/// Whether the reply that the search took from a recorded call is the one the call gave:
/// an error is `Failed`, a length is that length, a deletion is `Deleted`, a value without
/// an object is `Null`, and a reference is `Null` exactly when it is null.
pub open spec fn reply_fits<'a>(rec: CallRecord<'a>, reply: Reply) -> bool {
    match rec {
        CallRecord::Static { result, .. } => reply == value_reply(result),
        CallRecord::Method { result, .. } => reply == value_reply(result),
        CallRecord::Length { result, .. } => match result {
            None => reply == Reply::Failed,
            Some(n) => reply == Reply::Length(n),
        },
        CallRecord::Element { result, .. } => match result {
            None => reply == Reply::Failed,
            Some(o) => reply == reference_reply(o),
        },
        CallRecord::NewString { result, .. } => (result is None <==> reply == Reply::Failed) && (
        result is Some ==> reply == Reply::Object),
        CallRecord::Delete { deleted, .. } => (deleted ==> reply == Reply::Deleted) && (!deleted
            ==> reply == Reply::Failed),
        CallRecord::MethodId { .. } => false,
    }
}

/// The call that the search announces after `replies` (the first call, once it has ended).
pub open spec fn announced_call(replies: Seq<Reply>) -> JniCall {
    match announce(run(initial_state(), replies)) {
        SearchStep::Call(c) => c,
        SearchStep::Finish(_) => JniCall::GetAllStackTraces,
    }
}

/// Whether the search has not ended after `replies`: a call is still to be made.
pub open spec fn searching(replies: Seq<Reply>) -> bool {
    !(run(initial_state(), replies).phase is Done)
}

/// The object reference that the search holds in an object slot after the recorded calls:
/// the one given by the last successful call that fills the slot; none after the slot's
/// reference was deleted, before any call filled it, or when that call gave no object.
pub open spec fn held<'a>(replies: Seq<Reply>, records: Seq<CallRecord<'a>>, slot: Slot) -> Option<
    JObject<'a>,
>
    decreases replies.len(),
{
    if replies.len() == 0 || records.len() != replies.len() {
        None
    } else {
        let req = request_spec(announced_call(replies.drop_last()));
        if into_slot(req) == Some(slot) && replies.last() != Reply::Failed {
            object_given(records.last())
        } else if deleted_slot(req) == Some(slot) {
            None
        } else {
            held(replies.drop_last(), records.drop_last(), slot)
        }
    }
}

/// The Java string with the class name that the search holds after the recorded calls: the
/// one given by the last successful string creation.
pub open spec fn held_name<'a>(replies: Seq<Reply>, records: Seq<CallRecord<'a>>) -> Option<
    JString<'a>,
>
    decreases replies.len(),
{
    if replies.len() == 0 || records.len() != replies.len() {
        None
    } else if request_spec(announced_call(replies.drop_last())) is NewString && replies.last()
        != Reply::Failed {
        match records.last() {
            CallRecord::NewString { result, .. } => result,
            _ => None,
        }
    } else {
        held_name(replies.drop_last(), records.drop_last())
    }
}

/// Whether the recorded call `rec` is the call that `req` describes, made after the calls
/// recorded in `replies` and `records`: the same kind of call with the same class, names,
/// signature, index or text, on the reference held in the receiver slot, with the class
/// name held as argument exactly when the request has one, and deleting the reference held.
pub open spec fn made_as_requested<'a>(
    rec: CallRecord<'a>,
    req: JniRequest,
    replies: Seq<Reply>,
    records: Seq<CallRecord<'a>>,
) -> bool {
    match req {
        JniRequest::CallStatic { class, name, signature, .. } => rec matches CallRecord::Static {
            class: c,
            name: n,
            sig: g,
            ..
        } && c == class@ && n == name@ && g == signature@,
        JniRequest::CallMethod { on, name, signature, with_class_name, .. } => {
            &&& rec matches CallRecord::Method { receiver, name: n, sig: g, arg, .. }
            &&& rec->Method_name == name@
            &&& rec->Method_sig == signature@
            &&& held(replies, records, on) matches Some(o) ==> rec->Method_receiver == o
            &&& with_class_name ==> rec->Method_arg is Some
            &&& !with_class_name ==> rec->Method_arg is None
            &&& with_class_name && held_name(replies, records) is Some ==> rec->Method_arg
                == held_name(replies, records)
        },
        JniRequest::ArrayLength => rec matches CallRecord::Length { array, .. } && (held(
            replies,
            records,
            Slot::ThreadsArray,
        ) matches Some(o) ==> array == o),
        JniRequest::ArrayElement { index, .. } => rec matches CallRecord::Element {
            array,
            index: i,
            ..
        } && i == index && (held(replies, records, Slot::ThreadsArray) matches Some(o) ==> array
            == o),
        JniRequest::NewString { text } => rec matches CallRecord::NewString { text: t, .. } && t
            == text@,
        JniRequest::Delete { slot } => rec matches CallRecord::Delete { target, .. } && (held(
            replies,
            records,
            slot,
        ) matches Some(o) ==> target == o),
    }
}

/// The references that the search holds between its calls.
struct Holders<'local> {
    stack_traces: JObject<'local>,
    threads_set: JObject<'local>,
    threads_array: Option<JObject<'local>>,
    thread: Option<JObject<'local>>,
    class_loader: JObject<'local>,
    class_name: Option<JString<'local>>,
    found_class: Option<JObject<'local>>,
}

impl<'local> Holders<'local> {
    /// Whether `slot` holds a reference.
    spec fn filled(&self, slot: Slot) -> bool {
        match slot {
            Slot::ThreadsArray => self.threads_array is Some,
            Slot::Thread => self.thread is Some,
            Slot::ClassName => self.class_name is Some,
            Slot::FoundClass => self.found_class is Some,
            _ => true,
        }
    }

    /// The object reference in an object slot.
    spec fn object_in(&self, slot: Slot) -> JObject<'local> {
        match slot {
            Slot::StackTraces => self.stack_traces,
            Slot::ThreadsSet => self.threads_set,
            Slot::ThreadsArray => self.threads_array->Some_0,
            Slot::Thread => self.thread->Some_0,
            Slot::ClassLoader => self.class_loader,
            _ => self.found_class->Some_0,
        }
    }

    /// Whether `self` holds what `other` holds in every slot but `changed`.
    spec fn keeps(&self, other: &Self, changed: Option<Slot>) -> bool {
        &&& forall|s: Slot| Some(s) != changed ==> #[trigger] self.filled(s) == other.filled(s)
        &&& forall|s: Slot|
            Some(s) != changed && object_slot(s) && other.filled(s) ==> #[trigger] self.object_in(s)
                == other.object_in(s)
        &&& changed != Some(Slot::ClassName) ==> self.class_name == other.class_name
    }

    /// Whether `req` can be made with the references held: its receiver and argument are
    /// held, the slots it names fit what it does, and a signature given an argument
    /// describes no argument of method type.
    spec fn ready(&self, req: JniRequest) -> bool {
        match req {
            JniRequest::CallStatic { into, .. } => object_slot(into),
            JniRequest::CallMethod { on, signature, with_class_name, into, .. } => {
                &&& object_slot(on) && self.filled(on)
                &&& with_class_name ==> self.filled(Slot::ClassName) && simple_signature(signature@)
                &&& object_slot(into)
            },
            JniRequest::ArrayLength => self.filled(Slot::ThreadsArray),
            JniRequest::ArrayElement { into, .. } => self.filled(Slot::ThreadsArray) && object_slot(
                into,
            ),
            JniRequest::NewString { .. } => true,
            JniRequest::Delete { slot } => (slot == Slot::Thread || slot == Slot::FoundClass)
                && self.filled(slot),
        }
    }

    /// Whether the recorded call `rec` is the call `req` made on these references.
    spec fn performed(&self, rec: CallRecord<'local>, req: JniRequest) -> bool {
        match req {
            JniRequest::CallStatic { class, name, signature, .. } => rec matches CallRecord::Static {
                class: c,
                name: n,
                sig: g,
                ..
            } && c == class@ && n == name@ && g == signature@,
            JniRequest::CallMethod { on, name, signature, with_class_name, .. } => rec matches CallRecord::Method {
                receiver,
                name: n,
                sig: g,
                arg,
                ..
            } && receiver == self.object_in(on) && n == name@ && g == signature@ && arg == (if with_class_name {
                self.class_name
            } else {
                None
            }),
            JniRequest::ArrayLength => rec matches CallRecord::Length { array, .. } && array
                == self.object_in(Slot::ThreadsArray),
            JniRequest::ArrayElement { index, .. } => rec matches CallRecord::Element {
                array,
                index: i,
                ..
            } && i == index && array == self.object_in(Slot::ThreadsArray),
            JniRequest::NewString { text } => rec matches CallRecord::NewString { text: t, .. } && t
                == text@,
            JniRequest::Delete { slot } => rec matches CallRecord::Delete { target, .. } && target
                == self.object_in(slot),
        }
    }

    /// The reference in an object slot.
    fn receiver(&self, slot: Slot) -> (r: &JObject<'local>)
        requires
            object_slot(slot),
            self.filled(slot),
        ensures
            *r == self.object_in(slot),
    {
        match slot {
            Slot::StackTraces => &self.stack_traces,
            Slot::ThreadsSet => &self.threads_set,
            Slot::ThreadsArray => self.threads_array.as_ref().unwrap(),
            Slot::Thread => self.thread.as_ref().unwrap(),
            Slot::ClassLoader => &self.class_loader,
            _ => self.found_class.as_ref().unwrap(),
        }
    }

    /// Keeps `obj` in `slot`; the other slots keep what they held.
    fn put(&mut self, slot: Slot, obj: JObject<'local>)
        requires
            object_slot(slot),
        ensures
            final(self).filled(slot),
            final(self).object_in(slot) == obj,
            final(self).keeps(&*old(self), Some(slot)),
    {
        match slot {
            Slot::StackTraces => self.stack_traces = obj,
            Slot::ThreadsSet => self.threads_set = obj,
            Slot::ThreadsArray => self.threads_array = Some(obj),
            Slot::Thread => self.thread = Some(obj),
            Slot::ClassLoader => self.class_loader = obj,
            _ => self.found_class = Some(obj),
        }
    }

    /// Takes the reference out of the slot of the current thread or of the found class.
    fn take(&mut self, slot: Slot) -> (r: JObject<'local>)
        requires
            slot == Slot::Thread || slot == Slot::FoundClass,
            old(self).filled(slot),
        ensures
            r == old(self).object_in(slot),
            !final(self).filled(slot),
            final(self).keeps(&*old(self), Some(slot)),
    {
        if slot == Slot::Thread {
            self.thread.take().unwrap()
        } else {
            self.found_class.take().unwrap()
        }
    }
}

/// Makes the call that `req` describes through the session, on the references held, keeps
/// the reference it gives in the slot it names, and gives the JVM's reply with the record of
/// the call, the one record that the session's log gains: it shows the call made with
/// exactly the request's class, names, signature, index or text, on the reference in the
/// receiver slot, with the class name as argument when the request has one, and the reply is
/// the one the record's result stands for. The second part is the error text the call gave,
/// if it gave one.
fn perform<'a, 'local>(
    session: &mut JniSession<'a, 'local>,
    req: &JniRequest,
    holders: &mut Holders<'local>,
) -> (r: (Reply, Option<String>, Ghost<CallRecord<'local>>))
    requires
        old(holders).ready(*req),
    ensures
        final(session).calls() == old(session).calls().push(r.2@),
        old(holders).performed(r.2@, *req),
        reply_fits(r.2@, r.0),
        r.1 is Some <==> error_text_given(r.2@),
        final(holders).keeps(&*old(holders), touched(*req, r.0)),
        r.0 != Reply::Failed && into_slot(*req) is Some ==> final(holders).filled(into_slot(*req)->Some_0),
        r.0 != Reply::Failed && into_slot(*req) is Some && object_slot(into_slot(*req)->Some_0)
            && object_given(r.2@) is Some ==> final(holders).object_in(into_slot(*req)->Some_0)
            == object_given(r.2@)->Some_0,
        r.0 != Reply::Failed && into_slot(*req) is Some && object_slot(into_slot(*req)->Some_0)
            && object_given(r.2@) is None ==> object_is_null(
            final(holders).object_in(into_slot(*req)->Some_0),
        ),
        r.0 != Reply::Failed && *req is NewString ==> (r.2@ matches CallRecord::NewString {
            result,
            ..
        } && final(holders).class_name == result),
{
    match *req {
        JniRequest::CallStatic { class, name, signature, into } => {
            let answer = session.call_static_method(class, name, signature);
            let ghost record = session.calls().last();
            match answer {
                Ok(given) => {
                    let (obj, detail) = object_or_null(given);
                    let reply = reply_for(&obj);
                    holders.put(into, obj);
                    (reply, detail, Ghost(record))
                },
                Err(text) => (Reply::Failed, Some(text), Ghost(record)),
            }
        },
        JniRequest::CallMethod { on, name, signature, with_class_name, into } => {
            let answer = if with_class_name {
                session.call_method(
                    holders.receiver(on),
                    name,
                    signature,
                    holders.class_name.as_ref(),
                )
            } else {
                session.call_method(holders.receiver(on), name, signature, None)
            };
            let ghost record = session.calls().last();
            match answer {
                Ok(given) => {
                    let (obj, detail) = object_or_null(given);
                    let reply = reply_for(&obj);
                    holders.put(into, obj);
                    (reply, detail, Ghost(record))
                },
                Err(text) => (Reply::Failed, Some(text), Ghost(record)),
            }
        },
        JniRequest::ArrayLength => {
            let answer = session.get_array_length(holders.receiver(Slot::ThreadsArray));
            let ghost record = session.calls().last();
            match answer {
                Ok(n) => (Reply::Length(n), None, Ghost(record)),
                Err(text) => (Reply::Failed, Some(text), Ghost(record)),
            }
        },
        JniRequest::ArrayElement { index, into } => {
            let answer = session.get_object_array_element(
                holders.receiver(Slot::ThreadsArray),
                index,
            );
            let ghost record = session.calls().last();
            match answer {
                Ok(obj) => {
                    let reply = reply_for(&obj);
                    holders.put(into, obj);
                    (reply, None, Ghost(record))
                },
                Err(text) => (Reply::Failed, Some(text), Ghost(record)),
            }
        },
        JniRequest::NewString { text } => {
            let answer = session.new_string(text);
            let ghost record = session.calls().last();
            match answer {
                Ok(s) => {
                    holders.class_name = Some(s);
                    (Reply::Object, None, Ghost(record))
                },
                Err(error) => (Reply::Failed, Some(error), Ghost(record)),
            }
        },
        JniRequest::Delete { slot } => {
            let obj = holders.take(slot);
            let deleted = session.delete_local_ref(obj);
            let ghost record = session.calls().last();
            if deleted {
                (Reply::Deleted, None, Ghost(record))
            } else {
                (Reply::Failed, None, Ghost(record))
            }
        },
    }
}

} // verus!
verus! {

/// Searches the threads of the JVM for a context class loader that can load the game's
/// main class, `net.minecraft.client.Minecraft`, and gives the class loader that the
/// search holds at its end: the one that found the class, or else the one of the last
/// thread whose context class loader could be had (null when there was none).
///
/// The second part of the result reports each call made, in order, with the JVM's reply and
/// the error text the call gave (see `progress_lines`). The third part holds the replies
/// that the search took, the fourth the records of the calls made: exactly what the
/// session's log gains, so no other call is made through it. Every call is made before the search ends, and is the one
/// the search announced, made as `request` describes it on the references held; each reply
/// is the one that the call's result stands for. The first part is `Ok(None)` exactly when
/// the search ended because one of its four opening calls failed, an error exactly when
/// deleting a local reference failed, and otherwise the class loader held: the reference
/// that the last successful context-class-loader call gave.
pub fn get_class_loader<'a, 'local>(session: &mut JniSession<'a, 'local>) -> (r: (
    Result<Option<JObject<'local>>, LocalRefNotDeleted>,
    Vec<Progress>,
    Ghost<Seq<Reply>>,
    Ghost<Seq<CallRecord<'local>>>,
))
    ensures
        final(session).calls() == old(session).calls() + r.3@,
        r.3@.len() == r.2@.len(),
        r.1@.len() == r.2@.len(),
        forall|k: int|
            0 <= k < r.2@.len() ==> {
                &&& (#[trigger] r.1@[k]).call == announced_call(r.2@.take(k))
                &&& r.1@[k].reply == r.2@[k]
                &&& (r.1@[k].detail is Some <==> error_text_given(r.3@[k]))
            },
        forall|k: int|
            0 <= k < r.2@.len() ==> #[trigger] searching(r.2@.take(k)),
        forall|k: int|
            0 <= k < r.2@.len() ==> made_as_requested(
                #[trigger] r.3@[k],
                request_spec(announced_call(r.2@.take(k))),
                r.2@.take(k),
                r.3@.take(k),
            ),
        forall|k: int| 0 <= k < r.2@.len() ==> reply_fits(#[trigger] r.3@[k], r.2@[k]),
        ({
            let end = run(initial_state(), r.2@).phase;
            &&& end is Done
            &&& (end == Phase::Done(SearchOutcome::SetupFailed) <==> r.0 matches Ok(None))
            &&& (end == Phase::Done(SearchOutcome::DeleteFailed) <==> r.0 is Err)
            &&& (end matches Phase::Done(SearchOutcome::Loader(_)) <==> r.0 matches Ok(Some(_)))
            &&& ((end matches Phase::Done(SearchOutcome::Loader(_))) && held(
                r.2@,
                r.3@,
                Slot::ClassLoader,
            ) is Some) ==> r.0 == Ok::<Option<JObject<'local>>, LocalRefNotDeleted>(
                Some(held(r.2@, r.3@, Slot::ClassLoader)->Some_0),
            )
            &&& ((end matches Phase::Done(SearchOutcome::Loader(_))) && held(
                r.2@,
                r.3@,
                Slot::ClassLoader,
            ) is None) ==> (r.0 matches Ok(Some(o)) && object_is_null(o))
        }),
{
    let (mut search, mut step) = ClassLoaderSearch::start();
    let ghost mut replies: Seq<Reply> = Seq::empty();
    let ghost mut records: Seq<CallRecord<'local>> = Seq::empty();
    let ghost start = session.calls();
    let mut trace: Vec<Progress> = Vec::new();
    let mut holders = Holders {
        stack_traces: null_object(),
        threads_set: null_object(),
        threads_array: None,
        thread: None,
        class_loader: null_object(),
        class_name: None,
        found_class: None,
    };
    loop
        invariant
            search@.wf(),
            search@ == run(initial_state(), replies),
            records.len() == replies.len(),
            trace@.len() == replies.len(),
            forall|k: int|
                0 <= k < replies.len() ==> {
                    &&& (#[trigger] trace@[k]).call == announced_call(replies.take(k))
                    &&& trace@[k].reply == replies[k]
                    &&& (trace@[k].detail is Some <==> error_text_given(records[k]))
                },
            session.calls() == start + records,
            start == old(session).calls(),
            step == announce(search@),
            (search@.phase == Phase::ArrayLength || in_thread(search@.phase)) ==> holders.filled(
                Slot::ThreadsArray,
            ),
            (in_thread(search@.phase) && search@.phase != Phase::ThreadElement) ==> holders.filled(
                Slot::Thread,
            ),
            search@.phase == Phase::FindClass ==> holders.filled(Slot::ClassName),
            search@.phase == Phase::DeleteClass ==> holders.filled(Slot::FoundClass),
            forall|k: int|
                0 <= k < replies.len() ==> #[trigger] searching(replies.take(k)),
            forall|k: int|
                0 <= k < replies.len() ==> made_as_requested(
                    #[trigger] records[k],
                    request_spec(announced_call(replies.take(k))),
                    replies.take(k),
                    records.take(k),
                ),
            forall|k: int| 0 <= k < replies.len() ==> reply_fits(#[trigger] records[k], replies[k]),
            forall|s: Slot|
                object_slot(s) && #[trigger] held(replies, records, s) is Some ==> holders.filled(s)
                    && holders.object_in(s) == held(replies, records, s)->Some_0,
            held(replies, records, Slot::ClassLoader) is None ==> object_is_null(
                holders.class_loader,
            ),
            held_name(replies, records) is Some ==> holders.class_name == held_name(
                replies,
                records,
            ),
        decreases search@.setup_left(), search@.calls_left(),
    {
        match step {
            SearchStep::Finish(outcome) => {
                let result = match outcome {
                    SearchOutcome::SetupFailed => Ok(None),
                    SearchOutcome::DeleteFailed => Err(LocalRefNotDeleted),
                    SearchOutcome::Loader(_) => Ok(Some(holders.class_loader)),
                };
                return (result, trace, Ghost(replies), Ghost(records));
            },
            SearchStep::Call(call) => {
                let req = request(call);
                proof {
                    lemma_request_signatures(call);
                }
                let ghost before = holders;
                let (reply, detail, record) = perform(session, &req, &mut holders);
                trace.push(Progress { call, reply, detail });
                proof {
                    lemma_run_push(initial_state(), replies, reply);
                    law_step_progress(search@, reply);
                    let rs = replies.push(reply);
                    let recs = records.push(record@);
                    assert(rs.drop_last() =~= replies);
                    assert(recs.drop_last() =~= records);
                    assert(session.calls() =~= start + recs);
                    assert(rs.take(replies.len() as int) =~= replies);
                    assert(recs.take(replies.len() as int) =~= records);
                    assert forall|k: int| 0 <= k < replies.len() implies rs.take(k) =~= replies.take(k)
                        && recs.take(k) =~= records.take(k) && recs[k] == records[k] && rs[k]
                        == replies[k] by {}
                    assert(announced_call(replies) == call);
                    assert forall|k: int| 0 <= k < rs.len() implies #[trigger] searching(rs.take(k)) by {
                        if k < replies.len() {
                            assert(rs.take(k) =~= replies.take(k));
                        }
                    }
                    assert forall|k: int| 0 <= k < rs.len() implies made_as_requested(
                        #[trigger] recs[k],
                        request_spec(announced_call(rs.take(k))),
                        rs.take(k),
                        recs.take(k),
                    ) by {
                        if k < replies.len() {
                            assert(rs.take(k) =~= replies.take(k));
                            assert(recs.take(k) =~= records.take(k));
                        }
                    }
                    assert forall|k: int| 0 <= k < rs.len() implies {
                        &&& (#[trigger] trace@[k]).call == announced_call(rs.take(k))
                        &&& trace@[k].reply == rs[k]
                        &&& (trace@[k].detail is Some <==> error_text_given(recs[k]))
                    } by {
                        if k < replies.len() {
                            assert(rs.take(k) =~= replies.take(k));
                        }
                    }
                    assert forall|k: int| 0 <= k < rs.len() implies reply_fits(
                        #[trigger] recs[k],
                        rs[k],
                    ) by {}
                    assert forall|s: Slot|
                        object_slot(s) && #[trigger] held(rs, recs, s) is Some implies holders.filled(s)
                            && holders.object_in(s) == held(rs, recs, s)->Some_0 by {
                        if !(into_slot(req) == Some(s) && reply != Reply::Failed) && deleted_slot(req)
                            != Some(s) {
                            assert(held(rs, recs, s) == held(replies, records, s));
                        }
                    }
                    assert(held(rs, recs, Slot::ClassLoader) is None ==> object_is_null(
                        holders.class_loader,
                    )) by {
                        if !(into_slot(req) == Some(Slot::ClassLoader) && reply != Reply::Failed) {
                            assert(deleted_slot(req) != Some(Slot::ClassLoader));
                            assert(held(rs, recs, Slot::ClassLoader) == held(
                                replies,
                                records,
                                Slot::ClassLoader,
                            ));
                            assert(holders.object_in(Slot::ClassLoader) == before.object_in(
                                Slot::ClassLoader,
                            ));
                        }
                    }
                    replies = rs;
                    records = recs;
                }
                step = search.step(reply);
            },
        }
    }
}

/// The text of an error, as a sequence of characters (empty when there is none).
pub open spec fn detail_text(detail: Option<String>) -> Seq<char> {
    match detail {
        Some(d) => d@,
        None => Seq::empty(),
    }
}

/// The texts of a sequence of strings.
pub open spec fn texts(v: Seq<String>) -> Seq<Seq<char>> {
    v.map_values(|s: String| s@)
}

/// The log lines for a call that gives an object: the failure line with the error text;
/// or the success line, followed, when the value held no object, by the conversion's failure
/// line with its text.
pub open spec fn value_lines(
    done: Seq<char>,
    failed: Seq<char>,
    unconverted: Seq<char>,
    reply: Reply,
    detail: Option<String>,
) -> Seq<Seq<char>> {
    if reply == Reply::Failed {
        seq![failed + detail_text(detail)]
    } else if detail is Some {
        seq![done, unconverted + detail_text(detail)]
    } else {
        seq![done]
    }
}

/// The line printed to the console before a call of the search, if any: the index of the
/// thread about to be fetched.
pub open spec fn progress_print(call: JniCall) -> Option<Seq<char>> {
    match call {
        JniCall::ThreadElement(i) => Some("Processing thread index: "@ + decimal(i as int)),
        _ => None,
    }
}

/// The lines logged after a call of the search, given the JVM's reply and the error text the
/// call gave.
pub open spec fn progress_log(call: JniCall, reply: Reply, detail: Option<String>) -> Seq<Seq<char>> {
    match call {
        JniCall::GetAllStackTraces => value_lines(
            "Successfully retrieved all stack traces."@,
            "Failed to call getAllStackTraces: "@,
            "Failed to convert stack traces to JObject: "@,
            reply,
            detail,
        ),
        JniCall::KeySet => value_lines(
            "Successfully retrieved the key set from stack traces map."@,
            "Failed to call keySet on stack traces map: "@,
            "Failed to convert key set to JObject: "@,
            reply,
            detail,
        ),
        JniCall::ToArray => value_lines(
            "Successfully converted key set to array."@,
            "Failed to call toArray on threads set: "@,
            "Failed to convert to array: "@,
            reply,
            detail,
        ),
        JniCall::ArrayLength => match reply {
            Reply::Length(n) => seq![
                "Successfully retrieved threads array length: "@ + decimal(n as int),
                "Threads: "@ + decimal(n as int),
            ],
            _ => seq!["Failed to get array length: "@ + detail_text(detail)],
        },
        JniCall::ThreadElement(i) => if reply == Reply::Failed {
            seq!["Failed to get thread at index "@ + decimal(i as int) + ": "@ + detail_text(detail)]
        } else {
            seq!["Successfully retrieved thread at index "@ + decimal(i as int)]
        },
        JniCall::ContextClassLoader => value_lines(
            "Successfully retrieved context class loader."@,
            "Failed to call getContextClassLoader: "@,
            "Failed to convert context class loader to JObject: "@,
            reply,
            detail,
        ),
        JniCall::NewClassName => if reply == Reply::Failed {
            seq!["Failed to create new string: "@ + detail_text(detail)]
        } else {
            seq!["Successfully created string for Minecraft class."@]
        },
        JniCall::FindClass => value_lines(
            "Successfully called findClass on class loader."@,
            "Failed to call findClass: "@,
            "Failed to convert Minecraft class to JObject: "@,
            reply,
            detail,
        ) + if reply == Reply::Object {
            seq!["Found Minecraft class"@]
        } else {
            Seq::empty()
        },
        JniCall::DeleteClass | JniCall::DeleteThread => Seq::empty(),
    }
}

/// `text` followed by the error text, if there is one.
fn with_detail(text: &str, detail: &Option<String>) -> (s: String)
    ensures
        s@ == text@ + detail_text(*detail),
{
    let mut s = String::from_str(text);
    match detail {
        Some(d) => s.append(d.as_str()),
        None => {},
    }
    s
}

/// The log lines for a call that gives an object (see `value_lines`).
fn value_report(
    done: &str,
    failed: &str,
    unconverted: &str,
    reply: Reply,
    detail: &Option<String>,
) -> (v: Vec<String>)
    ensures
        texts(v@) == value_lines(done@, failed@, unconverted@, reply, *detail),
{
    let mut v: Vec<String> = Vec::new();
    if reply == Reply::Failed {
        v.push(with_detail(failed, detail));
    } else {
        v.push(String::from_str(done));
        if detail.is_some() {
            v.push(with_detail(unconverted, detail));
        }
    }
    assert(texts(v@) =~= value_lines(done@, failed@, unconverted@, reply, *detail));
    v
}

/// What the console and the log show for one call of the search: the line printed before
/// it, if any, and the lines logged after it.
pub fn progress_lines(p: &Progress) -> (r: (Option<String>, Vec<String>))
    ensures
        r.0 is Some <==> progress_print(p.call) is Some,
        r.0 matches Some(t) ==> progress_print(p.call) == Some(t@),
        texts(r.1@) == progress_log(p.call, p.reply, p.detail),
{
    let detail = &p.detail;
    match p.call {
        JniCall::GetAllStackTraces => (None, value_report(
            "Successfully retrieved all stack traces.",
            "Failed to call getAllStackTraces: ",
            "Failed to convert stack traces to JObject: ",
            p.reply,
            detail,
        )),
        JniCall::KeySet => (None, value_report(
            "Successfully retrieved the key set from stack traces map.",
            "Failed to call keySet on stack traces map: ",
            "Failed to convert key set to JObject: ",
            p.reply,
            detail,
        )),
        JniCall::ToArray => (None, value_report(
            "Successfully converted key set to array.",
            "Failed to call toArray on threads set: ",
            "Failed to convert to array: ",
            p.reply,
            detail,
        )),
        JniCall::ArrayLength => {
            let mut v: Vec<String> = Vec::new();
            match p.reply {
                Reply::Length(n) => {
                    let mut a = String::from_str("Successfully retrieved threads array length: ");
                    let number = decimal_string(n);
                    a.append(number.as_str());
                    let mut b = String::from_str("Threads: ");
                    b.append(number.as_str());
                    v.push(a);
                    v.push(b);
                },
                _ => v.push(with_detail("Failed to get array length: ", detail)),
            }
            assert(texts(v@) =~= progress_log(p.call, p.reply, p.detail));
            (None, v)
        },
        JniCall::ThreadElement(i) => {
            let number = decimal_string(i);
            let mut printed = String::from_str("Processing thread index: ");
            printed.append(number.as_str());
            let mut v: Vec<String> = Vec::new();
            if p.reply == Reply::Failed {
                let mut line = String::from_str("Failed to get thread at index ");
                line.append(number.as_str());
                line.append(": ");
                if let Some(d) = detail {
                    line.append(d.as_str());
                }
                v.push(line);
            } else {
                let mut line = String::from_str("Successfully retrieved thread at index ");
                line.append(number.as_str());
                v.push(line);
            }
            assert(texts(v@) =~= progress_log(p.call, p.reply, p.detail));
            (Some(printed), v)
        },
        JniCall::ContextClassLoader => (None, value_report(
            "Successfully retrieved context class loader.",
            "Failed to call getContextClassLoader: ",
            "Failed to convert context class loader to JObject: ",
            p.reply,
            detail,
        )),
        JniCall::NewClassName => {
            let mut v: Vec<String> = Vec::new();
            if p.reply == Reply::Failed {
                v.push(with_detail("Failed to create new string: ", detail));
            } else {
                v.push(String::from_str("Successfully created string for Minecraft class."));
            }
            assert(texts(v@) =~= progress_log(p.call, p.reply, p.detail));
            (None, v)
        },
        JniCall::FindClass => {
            let mut v = value_report(
                "Successfully called findClass on class loader.",
                "Failed to call findClass: ",
                "Failed to convert Minecraft class to JObject: ",
                p.reply,
                detail,
            );
            let ghost before = v@;
            if p.reply == Reply::Object {
                v.push(String::from_str("Found Minecraft class"));
            }
            assert(texts(v@) =~= progress_log(p.call, p.reply, p.detail)) by {
                assert(texts(before) == value_lines(
                    "Successfully called findClass on class loader."@,
                    "Failed to call findClass: "@,
                    "Failed to convert Minecraft class to JObject: "@,
                    p.reply,
                    p.detail,
                ));
            }
            (None, v)
        },
        JniCall::DeleteClass | JniCall::DeleteThread => {
            let v: Vec<String> = Vec::new();
            assert(texts(v@) =~= progress_log(p.call, p.reply, p.detail));
            (None, v)
        },
    }
}

/// "Found Minecraft class" is logged after a `findClass` call exactly when the call gave a
/// non-null class; a `findClass` that fails logs only its failure line with the error text.
pub proof fn law_class_reported_found_only_when_found(reply: Reply, detail: Option<String>)
    ensures
        progress_log(JniCall::FindClass, reply, detail).contains("Found Minecraft class"@) <==> reply
            == Reply::Object,
        reply == Reply::Failed ==> progress_log(JniCall::FindClass, reply, detail) == seq![
            "Failed to call findClass: "@ + detail_text(detail),
        ],
{
    reveal_strlit("Found Minecraft class");
    reveal_strlit("Failed to call findClass: ");
    reveal_strlit("Successfully called findClass on class loader.");
    reveal_strlit("Failed to convert Minecraft class to JObject: ");
    let log = progress_log(JniCall::FindClass, reply, detail);
    let found = "Found Minecraft class"@;
    let failed = "Failed to call findClass: "@ + detail_text(detail);
    let unconverted = "Failed to convert Minecraft class to JObject: "@ + detail_text(detail);
    assert(failed[1] == 'a');
    assert(unconverted[1] == 'a');
    if reply == Reply::Object {
        assert(log[log.len() - 1] == found);
    } else {
        assert forall|i: int| 0 <= i < log.len() implies log[i] != found by {
            assert(log[i][1] != found[1]);
        }
    }
}

/// `a + b` begins with the start of `a` and ends with `b`.
proof fn lemma_joined_line(a: Seq<char>, b: Seq<char>, n: int)
    requires
        0 <= n <= a.len(),
    ensures
        (a + b).take(n) == a.take(n),
        (a + b).skip((a + b).len() - b.len()) == b,
{
    assert((a + b).take(n) =~= a.take(n));
    assert((a + b).skip((a + b).len() - b.len()) =~= b);
}

/// What the log says after each call of the search (but the deletions, which log nothing)
/// tells its outcome: a failed call is reported by a single line that begins with "Failed"
/// and ends with the call's error text; a call that succeeded is reported first by a line
/// that begins with "Successfully".
pub proof fn law_log_reports_outcome(call: JniCall, reply: Reply, detail: Option<String>)
    requires
        !(call is DeleteClass),
        !(call is DeleteThread),
    ensures
        reply == Reply::Failed ==> {
            let log = progress_log(call, reply, detail);
            &&& log.len() == 1
            &&& log[0].take(6) == "Failed"@
            &&& log[0].skip(log[0].len() - detail_text(detail).len()) == detail_text(detail)
        },
        reply != Reply::Failed && (call == JniCall::ArrayLength ==> reply is Length) ==> {
            let log = progress_log(call, reply, detail);
            &&& log.len() >= 1
            &&& log[0].take(12) == "Successfully"@
        },
{
    reveal_strlit("Successfully retrieved all stack traces.");
    reveal_strlit("Failed to call getAllStackTraces: ");
    reveal_strlit("Failed to convert stack traces to JObject: ");
    reveal_strlit("Successfully retrieved the key set from stack traces map.");
    reveal_strlit("Failed to call keySet on stack traces map: ");
    reveal_strlit("Failed to convert key set to JObject: ");
    reveal_strlit("Successfully converted key set to array.");
    reveal_strlit("Failed to call toArray on threads set: ");
    reveal_strlit("Failed to convert to array: ");
    reveal_strlit("Successfully retrieved threads array length: ");
    reveal_strlit("Failed to get array length: ");
    reveal_strlit("Failed to get thread at index ");
    reveal_strlit(": ");
    reveal_strlit("Successfully retrieved thread at index ");
    reveal_strlit("Successfully retrieved context class loader.");
    reveal_strlit("Failed to call getContextClassLoader: ");
    reveal_strlit("Failed to convert context class loader to JObject: ");
    reveal_strlit("Failed to create new string: ");
    reveal_strlit("Successfully created string for Minecraft class.");
    reveal_strlit("Successfully called findClass on class loader.");
    reveal_strlit("Failed to call findClass: ");
    reveal_strlit("Failed");
    reveal_strlit("Successfully");
    let d = detail_text(detail);
    let log = progress_log(call, reply, detail);
    if reply == Reply::Failed {
        match call {
            JniCall::GetAllStackTraces => lemma_joined_line("Failed to call getAllStackTraces: "@, d, 6),
            JniCall::KeySet => lemma_joined_line("Failed to call keySet on stack traces map: "@, d, 6),
            JniCall::ToArray => lemma_joined_line("Failed to call toArray on threads set: "@, d, 6),
            JniCall::ArrayLength => lemma_joined_line("Failed to get array length: "@, d, 6),
            JniCall::ThreadElement(i) => {
                let head = "Failed to get thread at index "@ + decimal(i as int);
                lemma_joined_line("Failed to get thread at index "@, decimal(i as int), 6);
                lemma_joined_line(head, ": "@, 6);
                lemma_joined_line(head + ": "@, d, 6);
            },
            JniCall::ContextClassLoader => lemma_joined_line(
                "Failed to call getContextClassLoader: "@,
                d,
                6,
            ),
            JniCall::NewClassName => lemma_joined_line("Failed to create new string: "@, d, 6),
            JniCall::FindClass => lemma_joined_line("Failed to call findClass: "@, d, 6),
            _ => {},
        }
        assert(log.len() == 1);
        assert(log[0].take(6) =~= "Failed"@);
    } else if call == JniCall::ArrayLength ==> reply is Length {
        match call {
            JniCall::ArrayLength => lemma_joined_line(
                "Successfully retrieved threads array length: "@,
                decimal(reply->Length_0 as int),
                12,
            ),
            JniCall::ThreadElement(i) => lemma_joined_line(
                "Successfully retrieved thread at index "@,
                decimal(i as int),
                12,
            ),
            _ => {},
        }
        assert(log.len() >= 1);
        assert(log[0].take(12) =~= "Successfully"@);
    }
}

/// A line is printed before a call exactly when the call fetches a thread, and it ends with
/// that thread's index.
pub proof fn law_thread_index_printed(call: JniCall)
    ensures
        progress_print(call) is Some <==> call is ThreadElement,
        call matches JniCall::ThreadElement(i) ==> {
            let t = progress_print(call)->Some_0;
            t.skip(t.len() - decimal(i as int).len()) == decimal(i as int)
        },
{
    if let JniCall::ThreadElement(i) = call {
        lemma_joined_line("Processing thread index: "@, decimal(i as int), 0);
    }
}

} // verus!
