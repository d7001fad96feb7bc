//! The decisions of the search for the context class loader that can load the game's
//! main class. The search walks the threads of the JVM; for each thread it asks for its
//! context class loader and, when there is one, asks that loader for the class. It stops at
//! the first loader that finds the class. Each step takes the JVM's reply to the last call
//! and names the next call; the calls themselves are made in `jvm::get_class_loader`.

use vstd::prelude::*;

use crate::util::jni_calls::simple_signature;

verus! {

/// The JVM's reply to one call of the search.
#[derive(PartialEq, Eq, Structural, Clone, Copy, Debug)]
pub enum Reply {
    /// The call returned an error.
    Failed,
    /// The call succeeded and gave a null reference (or a value that holds no object).
    Null,
    /// The call succeeded and gave a non-null reference.
    Object,
    /// The array length query succeeded with this length.
    Length(i32),
    /// The local reference was deleted.
    Deleted,
}

/// The calls that the search makes, in the order in which they can come.
#[derive(PartialEq, Eq, Structural, Clone, Copy, Debug)]
pub enum JniCall {
    /// `Thread.getAllStackTraces()`.
    GetAllStackTraces,
    /// `keySet()` on the map of stack traces.
    KeySet,
    /// `toArray()` on the set of threads.
    ToArray,
    /// The length of the array of threads.
    ArrayLength,
    /// The element of the array of threads at this index.
    ThreadElement(i32),
    /// `getContextClassLoader()` on the current thread.
    ContextClassLoader,
    /// A new Java string holding the name of the game's main class.
    NewClassName,
    /// `findClass(name)` on the current class loader.
    FindClass,
    /// Delete the local reference to the class that was found.
    DeleteClass,
    /// Delete the local reference to the current thread.
    DeleteThread,
}

/// How the search ended.
#[derive(PartialEq, Eq, Structural, Clone, Copy, Debug)]
pub enum SearchOutcome {
    /// One of the four opening calls failed: there is no class loader to give.
    SetupFailed,
    /// The search gives the class loader that it holds: the context class loader of the
    /// thread at this index, or null (`None`).
    Loader(Option<i32>),
    /// Deleting a local reference failed.
    DeleteFailed,
}

/// The calls that the search is waiting for the reply of, or its end.
#[derive(PartialEq, Eq, Structural, Clone, Copy, Debug)]
pub enum Phase {
    StackTraces,
    KeySet,
    ToArray,
    ArrayLength,
    ThreadElement,
    ContextLoader,
    ClassName,
    FindClass,
    DeleteClass,
    DeleteThread,
    Done(SearchOutcome),
}

/// What the search does next: a call to make, or the end of the search.
#[derive(PartialEq, Eq, Structural, Clone, Copy, Debug)]
pub enum SearchStep {
    Call(JniCall),
    Finish(SearchOutcome),
}

/// The state of the search: its phase, the index of the current thread, the number of
/// threads, and the class loader it holds (the thread it came from, or null).
#[derive(PartialEq, Eq, Structural, Clone, Copy, Debug)]
pub struct SearchState {
    pub phase: Phase,
    pub index: i32,
    pub count: i32,
    pub loader: Option<i32>,
}

/// The search before its first call.
pub open spec fn initial_state() -> SearchState {
    SearchState { phase: Phase::StackTraces, index: 0, count: 0, loader: None }
}

/// Whether the search is still in its four opening calls.
pub open spec fn in_setup(p: Phase) -> bool {
    ||| p == Phase::StackTraces
    ||| p == Phase::KeySet
    ||| p == Phase::ToArray
    ||| p == Phase::ArrayLength
}

/// Whether the search is working on a thread.
pub open spec fn in_thread(p: Phase) -> bool {
    !in_setup(p) && !(p is Done)
}

/// The step that announces state `s`: the call it waits for, or its end.
pub open spec fn announce(s: SearchState) -> SearchStep {
    match s.phase {
        Phase::StackTraces => SearchStep::Call(JniCall::GetAllStackTraces),
        Phase::KeySet => SearchStep::Call(JniCall::KeySet),
        Phase::ToArray => SearchStep::Call(JniCall::ToArray),
        Phase::ArrayLength => SearchStep::Call(JniCall::ArrayLength),
        Phase::ThreadElement => SearchStep::Call(JniCall::ThreadElement(s.index)),
        Phase::ContextLoader => SearchStep::Call(JniCall::ContextClassLoader),
        Phase::ClassName => SearchStep::Call(JniCall::NewClassName),
        Phase::FindClass => SearchStep::Call(JniCall::FindClass),
        Phase::DeleteClass => SearchStep::Call(JniCall::DeleteClass),
        Phase::DeleteThread => SearchStep::Call(JniCall::DeleteThread),
        Phase::Done(o) => SearchStep::Finish(o),
    }
}

/// `s` in phase `p`.
pub open spec fn goto(s: SearchState, p: Phase) -> SearchState {
    SearchState { phase: p, ..s }
}

/// The state after the current thread is done with: the next thread, or the end of the
/// search with the class loader held.
pub open spec fn next_thread(s: SearchState) -> SearchState {
    if s.index + 1 < s.count {
        SearchState { phase: Phase::ThreadElement, index: (s.index + 1) as i32, ..s }
    } else {
        goto(s, Phase::Done(SearchOutcome::Loader(s.loader)))
    }
}

/// The state that `reply` leads to from `s`.
pub open spec fn step_state(s: SearchState, reply: Reply) -> SearchState {
    match s.phase {
        Phase::StackTraces => if reply == Reply::Failed {
            goto(s, Phase::Done(SearchOutcome::SetupFailed))
        } else {
            goto(s, Phase::KeySet)
        },
        Phase::KeySet => if reply == Reply::Failed {
            goto(s, Phase::Done(SearchOutcome::SetupFailed))
        } else {
            goto(s, Phase::ToArray)
        },
        Phase::ToArray => if reply == Reply::Failed {
            goto(s, Phase::Done(SearchOutcome::SetupFailed))
        } else {
            goto(s, Phase::ArrayLength)
        },
        Phase::ArrayLength => match reply {
            Reply::Length(n) => if 0 < n {
                SearchState { phase: Phase::ThreadElement, index: 0, count: n, loader: None }
            } else {
                SearchState {
                    phase: Phase::Done(SearchOutcome::Loader(None)),
                    index: 0,
                    count: n,
                    loader: None,
                }
            },
            _ => goto(s, Phase::Done(SearchOutcome::SetupFailed)),
        },
        Phase::ThreadElement => if reply == Reply::Failed {
            next_thread(s)
        } else {
            goto(s, Phase::ContextLoader)
        },
        Phase::ContextLoader => match reply {
            Reply::Failed => next_thread(s),
            Reply::Object => SearchState {
                phase: Phase::ClassName,
                loader: Some(s.index),
                ..s
            },
            _ => SearchState { phase: Phase::DeleteThread, loader: None, ..s },
        },
        Phase::ClassName => if reply == Reply::Failed {
            next_thread(s)
        } else {
            goto(s, Phase::FindClass)
        },
        Phase::FindClass => match reply {
            Reply::Failed => next_thread(s),
            Reply::Object => goto(s, Phase::DeleteClass),
            _ => goto(s, Phase::DeleteThread),
        },
        Phase::DeleteClass => if reply == Reply::Deleted {
            goto(s, Phase::Done(SearchOutcome::Loader(s.loader)))
        } else {
            goto(s, Phase::Done(SearchOutcome::DeleteFailed))
        },
        Phase::DeleteThread => if reply == Reply::Deleted {
            next_thread(s)
        } else {
            goto(s, Phase::Done(SearchOutcome::DeleteFailed))
        },
        Phase::Done(_) => s,
    }
}

/// The state after the replies `replies`, from `s`.
pub open spec fn run(s: SearchState, replies: Seq<Reply>) -> SearchState
    decreases replies.len(),
{
    if replies.len() == 0 {
        s
    } else {
        run(step_state(s, replies[0]), replies.drop_first())
    }
}

impl SearchState {
    /// The invariant of the search: the opening calls hold no thread; the current thread
    /// is one of the array; the class loader held comes from a thread already visited, and
    /// from the current thread while that loader is being asked for the class; an ended
    /// search gives the class loader it holds.
    pub open spec fn wf(self) -> bool {
        &&& in_setup(self.phase) ==> self.index == 0 && self.count == 0 && self.loader is None
        &&& in_thread(self.phase) ==> 0 <= self.index < self.count
        &&& self.loader matches Some(j) ==> 0 <= j <= self.index && j < self.count
        &&& (self.phase == Phase::ClassName || self.phase == Phase::FindClass || self.phase
            == Phase::DeleteClass) ==> self.loader == Some(self.index)
        &&& self.phase matches Phase::Done(SearchOutcome::Loader(l)) ==> l == self.loader
    }

    /// How many opening calls are left.
    pub open spec fn setup_left(self) -> nat {
        match self.phase {
            Phase::StackTraces => 4,
            Phase::KeySet => 3,
            Phase::ToArray => 2,
            Phase::ArrayLength => 1,
            _ => 0,
        }
    }

    /// An upper bound on the calls left once the opening calls are done: at most five per
    /// thread still to visit.
    pub open spec fn calls_left(self) -> nat {
        let later: int = 5 * (self.count - self.index - 1);
        match self.phase {
            Phase::ThreadElement => (later + 5) as nat,
            Phase::ContextLoader => (later + 4) as nat,
            Phase::ClassName => (later + 3) as nat,
            Phase::FindClass => (later + 2) as nat,
            Phase::DeleteClass => (later + 1) as nat,
            Phase::DeleteThread => (later + 1) as nat,
            _ => 0,
        }
    }
}

/// The search for the class loader, driven by the JVM's replies.
pub struct ClassLoaderSearch {
    state: SearchState,
}

impl View for ClassLoaderSearch {
    type V = SearchState;

    closed spec fn view(&self) -> SearchState {
        self.state
    }
}

impl ClassLoaderSearch {
    /// The search's state always keeps its invariant.
    #[verifier::type_invariant]
    spec fn keeps_invariant(self) -> bool {
        self.state.wf()
    }

    /// A new search, and its first call: `Thread.getAllStackTraces()`.
    pub fn start() -> (r: (ClassLoaderSearch, SearchStep))
        ensures
            r.0@ == initial_state(),
            r.1 == announce(r.0@),
            r.1 == SearchStep::Call(JniCall::GetAllStackTraces),
    {
        let s = ClassLoaderSearch {
            state: SearchState { phase: Phase::StackTraces, index: 0, count: 0, loader: None },
        };
        (s, SearchStep::Call(JniCall::GetAllStackTraces))
    }

    /// The step that announces the current state.
    pub fn current(&self) -> (r: SearchStep)
        ensures
            r == announce(self@),
    {
        let s = self.state;
        match s.phase {
            Phase::StackTraces => SearchStep::Call(JniCall::GetAllStackTraces),
            Phase::KeySet => SearchStep::Call(JniCall::KeySet),
            Phase::ToArray => SearchStep::Call(JniCall::ToArray),
            Phase::ArrayLength => SearchStep::Call(JniCall::ArrayLength),
            Phase::ThreadElement => SearchStep::Call(JniCall::ThreadElement(s.index)),
            Phase::ContextLoader => SearchStep::Call(JniCall::ContextClassLoader),
            Phase::ClassName => SearchStep::Call(JniCall::NewClassName),
            Phase::FindClass => SearchStep::Call(JniCall::FindClass),
            Phase::DeleteClass => SearchStep::Call(JniCall::DeleteClass),
            Phase::DeleteThread => SearchStep::Call(JniCall::DeleteThread),
            Phase::Done(o) => SearchStep::Finish(o),
        }
    }

    /// Takes the JVM's reply to the pending call and gives the next call, or the end.
    pub fn step(&mut self, reply: Reply) -> (r: SearchStep)
        requires
            !(old(self)@.phase is Done),
        ensures
            final(self)@ == step_state(old(self)@, reply),
            final(self)@.wf(),
            r == announce(final(self)@),
    {
        proof {
            use_type_invariant(&*self);
        }
        let mut s = self.state;
        let failed = reply == Reply::Failed;
        match s.phase {
            Phase::StackTraces => {
                s.phase = if failed {
                    Phase::Done(SearchOutcome::SetupFailed)
                } else {
                    Phase::KeySet
                };
            },
            Phase::KeySet => {
                s.phase = if failed {
                    Phase::Done(SearchOutcome::SetupFailed)
                } else {
                    Phase::ToArray
                };
            },
            Phase::ToArray => {
                s.phase = if failed {
                    Phase::Done(SearchOutcome::SetupFailed)
                } else {
                    Phase::ArrayLength
                };
            },
            Phase::ArrayLength => {
                match reply {
                    Reply::Length(n) => {
                        s.count = n;
                        s.phase = if 0 < n {
                            Phase::ThreadElement
                        } else {
                            Phase::Done(SearchOutcome::Loader(None))
                        };
                    },
                    _ => {
                        s.phase = Phase::Done(SearchOutcome::SetupFailed);
                    },
                }
            },
            Phase::ThreadElement => {
                if failed {
                    s = leave_thread(s);
                } else {
                    s.phase = Phase::ContextLoader;
                }
            },
            Phase::ContextLoader => {
                match reply {
                    Reply::Failed => s = leave_thread(s),
                    Reply::Object => {
                        s.loader = Some(s.index);
                        s.phase = Phase::ClassName;
                    },
                    _ => {
                        s.loader = None;
                        s.phase = Phase::DeleteThread;
                    },
                }
            },
            Phase::ClassName => {
                if failed {
                    s = leave_thread(s);
                } else {
                    s.phase = Phase::FindClass;
                }
            },
            Phase::FindClass => {
                match reply {
                    Reply::Failed => s = leave_thread(s),
                    Reply::Object => {
                        s.phase = Phase::DeleteClass;
                    },
                    _ => {
                        s.phase = Phase::DeleteThread;
                    },
                }
            },
            Phase::DeleteClass => {
                s.phase = if reply == Reply::Deleted {
                    Phase::Done(SearchOutcome::Loader(s.loader))
                } else {
                    Phase::Done(SearchOutcome::DeleteFailed)
                };
            },
            Phase::DeleteThread => {
                if reply == Reply::Deleted {
                    s = leave_thread(s);
                } else {
                    s.phase = Phase::Done(SearchOutcome::DeleteFailed);
                }
            },
            Phase::Done(_) => {},
        }
        proof {
            lemma_step_keeps_wf(old(self)@, reply);
        }
        self.state = s;
        self.current()
    }
}

/// Leaves the current thread: goes to the next one, or ends with the loader held.
fn leave_thread(s: SearchState) -> (r: SearchState)
    requires
        s.wf(),
        in_thread(s.phase),
    ensures
        r == next_thread(s),
{
    let mut s = s;
    if s.index + 1 < s.count {
        s.index = s.index + 1;
        s.phase = Phase::ThreadElement;
    } else {
        s.phase = Phase::Done(SearchOutcome::Loader(s.loader));
    }
    s
}

/// Every reply keeps the search's invariant.
pub proof fn lemma_step_keeps_wf(s: SearchState, reply: Reply)
    requires
        s.wf(),
    ensures
        step_state(s, reply).wf(),
{
}

/// Running a sequence of replies and then one more is taking one more step.
pub proof fn lemma_run_push(s: SearchState, replies: Seq<Reply>, reply: Reply)
    ensures
        run(s, replies.push(reply)) == step_state(run(s, replies), reply),
    decreases replies.len(),
{
    if replies.len() == 0 {
        assert(replies.push(reply).drop_first() =~= Seq::<Reply>::empty());
        assert(run(step_state(s, reply), Seq::<Reply>::empty()) == step_state(s, reply));
    } else {
        assert(replies.push(reply).drop_first() =~= replies.drop_first().push(reply));
        lemma_run_push(step_state(s, replies[0]), replies.drop_first(), reply);
    }
}

/// An ended search stays ended, whatever replies follow.
pub proof fn lemma_done_stays(s: SearchState, replies: Seq<Reply>)
    requires
        s.phase is Done,
    ensures
        run(s, replies) == s,
    decreases replies.len(),
{
    if replies.len() > 0 {
        lemma_done_stays(s, replies.drop_first());
    }
}

/// Every state that the search reaches, whatever the JVM replies, satisfies its invariant.
pub proof fn law_search_keeps_invariant(replies: Seq<Reply>)
    ensures
        run(initial_state(), replies).wf(),
{
    lemma_run_keeps_wf(initial_state(), replies);
}

proof fn lemma_run_keeps_wf(s: SearchState, replies: Seq<Reply>)
    requires
        s.wf(),
    ensures
        run(s, replies).wf(),
    decreases replies.len(),
{
    if replies.len() > 0 {
        lemma_step_keeps_wf(s, replies[0]);
        lemma_run_keeps_wf(step_state(s, replies[0]), replies.drop_first());
    }
}

/// Every reply brings the search closer to its end: during the opening calls fewer
/// opening calls are left, and afterwards the bound on the calls left goes down.
pub proof fn law_step_progress(s: SearchState, reply: Reply)
    requires
        s.wf(),
        !(s.phase is Done),
    ensures
        ({
            let t = step_state(s, reply);
            ||| t.setup_left() < s.setup_left()
            ||| (t.setup_left() == s.setup_left() && t.calls_left() < s.calls_left())
        }),
{
}

/// Once the number `n` of threads is known, the search makes at most `5 * n` more calls:
/// from any state past the opening calls, as many replies as its bound on the calls left
/// end the search.
pub proof fn law_search_ends_within_bound(s: SearchState, replies: Seq<Reply>)
    requires
        s.wf(),
        !in_setup(s.phase),
        replies.len() >= s.calls_left(),
    ensures
        run(s, replies).phase is Done,
    decreases replies.len(),
{
    if s.phase is Done {
        lemma_done_stays(s, replies);
    } else {
        law_step_progress(s, replies[0]);
        lemma_step_keeps_wf(s, replies[0]);
        law_search_ends_within_bound(step_state(s, replies[0]), replies.drop_first());
    }
}

/// The bound on the calls left right after the array length `n > 0` is known: five per thread.
pub proof fn law_bound_after_length(n: i32)
    requires
        0 < n,
    ensures
        step_state(goto(initial_state(), Phase::ArrayLength), Reply::Length(n)).calls_left()
            == 5 * n,
{
}

/// Whether one of the four opening calls fails in `replies`: one of the first three
/// replies is a failure, or the fourth is not a length.
pub open spec fn setup_fails(replies: Seq<Reply>) -> bool {
    ||| (replies.len() > 0 && replies[0] == Reply::Failed)
    ||| (replies.len() > 1 && replies[1] == Reply::Failed)
    ||| (replies.len() > 2 && replies[2] == Reply::Failed)
    ||| (replies.len() > 3 && !(replies[3] is Length))
}

proof fn lemma_no_setup_failure_later(s: SearchState, replies: Seq<Reply>)
    requires
        !in_setup(s.phase),
        s.phase != Phase::Done(SearchOutcome::SetupFailed),
    ensures
        run(s, replies).phase != Phase::Done(SearchOutcome::SetupFailed),
    decreases replies.len(),
{
    if replies.len() > 0 {
        lemma_no_setup_failure_later(step_state(s, replies[0]), replies.drop_first());
    }
}

/// The search ends without a class loader exactly when one of its four opening calls
/// fails: the stack traces, their key set, the array of threads, or its length.
pub proof fn law_no_loader_iff_setup_fails(replies: Seq<Reply>)
    ensures
        run(initial_state(), replies).phase == Phase::Done(SearchOutcome::SetupFailed)
            <==> setup_fails(replies),
{
    let s0 = initial_state();
    if replies.len() == 0 {
    } else {
        let s1 = step_state(s0, replies[0]);
        let r1 = replies.drop_first();
        assert(run(s0, replies) == run(s1, r1));
        if replies[0] == Reply::Failed {
            lemma_done_stays(s1, r1);
        } else if r1.len() == 0 {
        } else {
            let s2 = step_state(s1, r1[0]);
            let r2 = r1.drop_first();
            assert(run(s1, r1) == run(s2, r2));
            assert(r1[0] == replies[1]);
            if r1[0] == Reply::Failed {
                lemma_done_stays(s2, r2);
            } else if r2.len() == 0 {
            } else {
                let s3 = step_state(s2, r2[0]);
                let r3 = r2.drop_first();
                assert(run(s2, r2) == run(s3, r3));
                assert(r2[0] == replies[2]);
                if r2[0] == Reply::Failed {
                    lemma_done_stays(s3, r3);
                } else if r3.len() == 0 {
                } else {
                    let s4 = step_state(s3, r3[0]);
                    let r4 = r3.drop_first();
                    assert(run(s3, r3) == run(s4, r4));
                    assert(r3[0] == replies[3]);
                    if !(r3[0] is Length) {
                        lemma_done_stays(s4, r4);
                    } else {
                        lemma_no_setup_failure_later(s4, r4);
                    }
                }
            }
        }
    }
}

/// A class loader that finds the game's class ends the search: once the class reference
/// is deleted the search gives that loader, whatever replies follow.
pub proof fn law_found_class_ends_search(s: SearchState, rest: Seq<Reply>)
    requires
        s.wf(),
        s.phase == Phase::FindClass,
    ensures
        run(s, seq![Reply::Object, Reply::Deleted] + rest).phase
            == Phase::Done(SearchOutcome::Loader(Some(s.index))),
{
    let rs = seq![Reply::Object, Reply::Deleted] + rest;
    let t1 = step_state(s, Reply::Object);
    let t2 = step_state(t1, Reply::Deleted);
    assert(rs.drop_first().drop_first() =~= rest);
    assert(rs[0] == Reply::Object);
    assert(rs.drop_first()[0] == Reply::Deleted);
    assert(run(s, rs) == run(t1, rs.drop_first()));
    assert(run(t1, rs.drop_first()) == run(t2, rs.drop_first().drop_first()));
    lemma_done_stays(t2, rest);
}

/// The class loader held changes only when a thread's context class loader is asked for:
/// every other reply, in every other phase, leaves it as it was.
pub proof fn law_loader_set_only_by_context_loader(s: SearchState, reply: Reply)
    requires
        s.wf(),
        s.phase != Phase::ContextLoader,
    ensures
        step_state(s, reply).loader == s.loader,
{
}

/// A `findClass` that fails leaves the current thread's context class loader held: the
/// search goes on to the next thread still holding it, or, after the last thread, ends and
/// gives it.
pub proof fn law_failed_find_class_keeps_loader(s: SearchState)
    requires
        s.wf(),
        s.phase == Phase::FindClass,
    ensures
        step_state(s, Reply::Failed).loader == Some(s.index),
        s.index + 1 < s.count ==> step_state(s, Reply::Failed).phase == Phase::ThreadElement
            && step_state(s, Reply::Failed).index == s.index + 1,
        s.index + 1 >= s.count ==> step_state(s, Reply::Failed).phase == Phase::Done(
            SearchOutcome::Loader(Some(s.index)),
        ),
{
}

/// The reply to `getContextClassLoader` decides the loader held: a non-null loader becomes
/// the one held (that of the current thread) and is asked for the class next; a null one
/// is held as null and the thread is let go; a failed call leaves the loader held before
/// and moves on as a failure does.
pub proof fn law_context_loader_reply_sets_loader(s: SearchState, reply: Reply)
    requires
        s.wf(),
        s.phase == Phase::ContextLoader,
    ensures
        reply == Reply::Object ==> step_state(s, reply).loader == Some(s.index)
            && step_state(s, reply).phase == Phase::ClassName,
        reply == Reply::Null ==> step_state(s, reply).loader is None
            && step_state(s, reply).phase == Phase::DeleteThread,
        reply == Reply::Failed ==> step_state(s, reply).loader == s.loader,
{
}

/// A call that fails while a thread is worked on (fetching it, its context class loader,
/// the class name, or `findClass`) only skips that thread: the search goes on at the next
/// index with the same loader, or, after the last thread, ends giving the loader held.
/// A failed deletion instead ends the search with that failure.
pub proof fn law_failure_skips_thread(s: SearchState)
    requires
        s.wf(),
        in_thread(s.phase),
    ensures
        ({
            let t = step_state(s, Reply::Failed);
            if s.phase == Phase::DeleteClass || s.phase == Phase::DeleteThread {
                t.phase == Phase::Done(SearchOutcome::DeleteFailed)
            } else {
                &&& t.loader == s.loader
                &&& s.index + 1 < s.count ==> t.phase == Phase::ThreadElement && t.index == s.index
                    + 1
                &&& s.index + 1 >= s.count ==> t.phase == Phase::Done(SearchOutcome::Loader(s.loader))
            }
        }),
{
}

/// A thread whose loader did not find the class (a null class or a null loader) is let
/// go: its reference is deleted, and then the search goes on at the next index, or ends
/// giving the loader held.
pub proof fn law_missed_thread_is_deleted_then_skipped(s: SearchState)
    requires
        s.wf(),
        s.phase == Phase::FindClass || s.phase == Phase::DeleteThread,
    ensures
        s.phase == Phase::FindClass ==> step_state(s, Reply::Null).phase == Phase::DeleteThread
            && step_state(s, Reply::Null).loader == s.loader,
        s.phase == Phase::DeleteThread ==> {
            let t = step_state(s, Reply::Deleted);
            &&& t.loader == s.loader
            &&& s.index + 1 < s.count ==> t.phase == Phase::ThreadElement && t.index == s.index + 1
            &&& s.index + 1 >= s.count ==> t.phase == Phase::Done(SearchOutcome::Loader(s.loader))
        },
{
}

/// A reference that the search holds between calls.
#[derive(PartialEq, Eq, Structural, Clone, Copy, Debug)]
pub enum Slot {
    /// The map of stack traces.
    StackTraces,
    /// The set of threads (the map's keys).
    ThreadsSet,
    /// The array of threads.
    ThreadsArray,
    /// The current thread.
    Thread,
    /// The class loader held.
    ClassLoader,
    /// The Java string with the name of the game's main class.
    ClassName,
    /// The class that the class loader found.
    FoundClass,
}

/// What one call asks of the JVM: which method or operation, with which names, signature
/// and argument, on which held reference, and which slot keeps the reference it gives.
#[derive(Clone, Copy, Debug)]
pub enum JniRequest {
    /// Call the static method `name` with `signature` of `class`, without arguments, and
    /// keep the object it gives in `into`.
    CallStatic { class: &'static str, name: &'static str, signature: &'static str, into: Slot },
    /// Call the method `name` with `signature` on the reference in `on`, with the class name
    /// as the one argument when `with_class_name`, and keep the object it gives in `into`.
    CallMethod {
        on: Slot,
        name: &'static str,
        signature: &'static str,
        with_class_name: bool,
        into: Slot,
    },
    /// The length of the array of threads.
    ArrayLength,
    /// The element of the array of threads at `index`, kept in `into`.
    ArrayElement { index: i32, into: Slot },
    /// A new Java string holding `text`, kept as the class name.
    NewString { text: &'static str },
    /// Delete the local reference in `slot`.
    Delete { slot: Slot },
}

/// What each call of the search asks of the JVM.
pub open spec fn request_spec(call: JniCall) -> JniRequest {
    match call {
        JniCall::GetAllStackTraces => JniRequest::CallStatic {
            class: "java/lang/Thread",
            name: "getAllStackTraces",
            signature: "()Ljava/util/Map;",
            into: Slot::StackTraces,
        },
        JniCall::KeySet => JniRequest::CallMethod {
            on: Slot::StackTraces,
            name: "keySet",
            signature: "()Ljava/util/Set;",
            with_class_name: false,
            into: Slot::ThreadsSet,
        },
        JniCall::ToArray => JniRequest::CallMethod {
            on: Slot::ThreadsSet,
            name: "toArray",
            signature: "()[Ljava/lang/Object;",
            with_class_name: false,
            into: Slot::ThreadsArray,
        },
        JniCall::ArrayLength => JniRequest::ArrayLength,
        JniCall::ThreadElement(i) => JniRequest::ArrayElement { index: i, into: Slot::Thread },
        JniCall::ContextClassLoader => JniRequest::CallMethod {
            on: Slot::Thread,
            name: "getContextClassLoader",
            signature: "()Ljava/lang/ClassLoader;",
            with_class_name: false,
            into: Slot::ClassLoader,
        },
        JniCall::NewClassName => JniRequest::NewString { text: "net.minecraft.client.Minecraft" },
        JniCall::FindClass => JniRequest::CallMethod {
            on: Slot::ClassLoader,
            name: "findClass",
            signature: "(Ljava/lang/String;)Ljava/lang/Class;",
            with_class_name: true,
            into: Slot::FoundClass,
        },
        JniCall::DeleteClass => JniRequest::Delete { slot: Slot::FoundClass },
        JniCall::DeleteThread => JniRequest::Delete { slot: Slot::Thread },
    }
}

/// The calls of the search chain the references they give: the map of stack traces that
/// `Thread.getAllStackTraces()` gives is asked for its key set, that set for an array, the
/// array for its threads, each thread for its context class loader, and that loader, with
/// the game's class name as argument, for the class; the class and the thread are the
/// references deleted.
pub proof fn law_requests_chain_the_references(i: i32)
    ensures
        request_spec(JniCall::GetAllStackTraces) matches JniRequest::CallStatic {
            class,
            name,
            signature,
            into,
        } && class@ == "java/lang/Thread"@ && name@ == "getAllStackTraces"@ && signature@
            == "()Ljava/util/Map;"@ && into == Slot::StackTraces,
        request_spec(JniCall::KeySet) matches JniRequest::CallMethod {
            on,
            name,
            signature,
            with_class_name,
            into,
        } && on == Slot::StackTraces && name@ == "keySet"@ && signature@ == "()Ljava/util/Set;"@
            && !with_class_name && into == Slot::ThreadsSet,
        request_spec(JniCall::ToArray) matches JniRequest::CallMethod {
            on,
            name,
            signature,
            with_class_name,
            into,
        } && on == Slot::ThreadsSet && name@ == "toArray"@ && signature@
            == "()[Ljava/lang/Object;"@ && !with_class_name && into == Slot::ThreadsArray,
        request_spec(JniCall::ArrayLength) == JniRequest::ArrayLength,
        request_spec(JniCall::ThreadElement(i)) == (JniRequest::ArrayElement {
            index: i,
            into: Slot::Thread,
        }),
        request_spec(JniCall::ContextClassLoader) matches JniRequest::CallMethod {
            on,
            name,
            signature,
            with_class_name,
            into,
        } && on == Slot::Thread && name@ == "getContextClassLoader"@ && signature@
            == "()Ljava/lang/ClassLoader;"@ && !with_class_name && into == Slot::ClassLoader,
        request_spec(JniCall::NewClassName) matches JniRequest::NewString { text } && text@
            == "net.minecraft.client.Minecraft"@,
        request_spec(JniCall::FindClass) matches JniRequest::CallMethod {
            on,
            name,
            signature,
            with_class_name,
            into,
        } && on == Slot::ClassLoader && name@ == "findClass"@ && signature@
            == "(Ljava/lang/String;)Ljava/lang/Class;"@ && with_class_name && into
            == Slot::FoundClass,
        request_spec(JniCall::DeleteClass) == (JniRequest::Delete { slot: Slot::FoundClass }),
        request_spec(JniCall::DeleteThread) == (JniRequest::Delete { slot: Slot::Thread }),
{
}

/// What `call` asks of the JVM.
pub fn request(call: JniCall) -> (r: JniRequest)
    ensures
        r == request_spec(call),
{
    match call {
        JniCall::GetAllStackTraces => JniRequest::CallStatic {
            class: "java/lang/Thread",
            name: "getAllStackTraces",
            signature: "()Ljava/util/Map;",
            into: Slot::StackTraces,
        },
        JniCall::KeySet => JniRequest::CallMethod {
            on: Slot::StackTraces,
            name: "keySet",
            signature: "()Ljava/util/Set;",
            with_class_name: false,
            into: Slot::ThreadsSet,
        },
        JniCall::ToArray => JniRequest::CallMethod {
            on: Slot::ThreadsSet,
            name: "toArray",
            signature: "()[Ljava/lang/Object;",
            with_class_name: false,
            into: Slot::ThreadsArray,
        },
        JniCall::ArrayLength => JniRequest::ArrayLength,
        JniCall::ThreadElement(i) => JniRequest::ArrayElement { index: i, into: Slot::Thread },
        JniCall::ContextClassLoader => JniRequest::CallMethod {
            on: Slot::Thread,
            name: "getContextClassLoader",
            signature: "()Ljava/lang/ClassLoader;",
            with_class_name: false,
            into: Slot::ClassLoader,
        },
        JniCall::NewClassName => JniRequest::NewString { text: "net.minecraft.client.Minecraft" },
        JniCall::FindClass => JniRequest::CallMethod {
            on: Slot::ClassLoader,
            name: "findClass",
            signature: "(Ljava/lang/String;)Ljava/lang/Class;",
            with_class_name: true,
            into: Slot::FoundClass,
        },
        JniCall::DeleteClass => JniRequest::Delete { slot: Slot::FoundClass },
        JniCall::DeleteThread => JniRequest::Delete { slot: Slot::Thread },
    }
}

/// The game's class is asked for only of a class loader that a thread just gave as a
/// non-null context class loader: whenever the search is about to call `findClass`, it does
/// so on the class loader it holds, with the class name as argument, and that loader is the
/// current thread's.
pub proof fn law_find_class_asks_current_loader(replies: Seq<Reply>)
    ensures
        ({
            let s = run(initial_state(), replies);
            announce(s) == SearchStep::Call(JniCall::FindClass) ==> {
                &&& s.loader == Some(s.index)
                &&& request_spec(JniCall::FindClass) matches JniRequest::CallMethod {
                    on,
                    with_class_name,
                    ..
                } && on == Slot::ClassLoader && with_class_name
            }
        }),
{
    law_search_keeps_invariant(replies);
}

/// Only a non-null context class loader is asked for the class: the search reaches the
/// class lookup of a thread only from that thread's context-class-loader reply `Object`.
pub proof fn law_only_non_null_loaders_asked(s: SearchState, reply: Reply)
    requires
        s.wf(),
        step_state(s, reply).phase == Phase::ClassName,
    ensures
        s.phase == Phase::ContextLoader,
        reply == Reply::Object,
{
}

/// The one request that passes an argument, `findClass`, has a signature that describes no
/// argument of method type.
pub proof fn lemma_request_signatures(call: JniCall)
    ensures
        request_spec(call) matches JniRequest::CallMethod { signature, with_class_name, .. }
            ==> (with_class_name ==> simple_signature(signature@)),
{
    reveal_strlit("(Ljava/lang/String;)Ljava/lang/Class;");
}

} // verus!
