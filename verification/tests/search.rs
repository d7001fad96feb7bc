use void_client::util::search::{
    request, ClassLoaderSearch, JniCall, JniRequest, Reply, SearchOutcome, SearchStep, Slot,
};

fn call(c: JniCall) -> SearchStep {
    SearchStep::Call(c)
}

fn setup(search: &mut ClassLoaderSearch, length: i32) -> SearchStep {
    assert_eq!(search.step(Reply::Object), call(JniCall::KeySet));
    assert_eq!(search.step(Reply::Object), call(JniCall::ToArray));
    assert_eq!(search.step(Reply::Object), call(JniCall::ArrayLength));
    search.step(Reply::Length(length))
}

#[test]
fn starts_with_stack_traces() {
    let (search, step) = ClassLoaderSearch::start();
    assert_eq!(step, call(JniCall::GetAllStackTraces));
    assert_eq!(search.current(), step);
}

#[test]
fn each_opening_failure_gives_no_loader() {
    for k in 0..4usize {
        let (mut search, _) = ClassLoaderSearch::start();
        let mut step = SearchStep::Call(JniCall::GetAllStackTraces);
        for _ in 0..k {
            step = search.step(Reply::Null);
        }
        assert!(matches!(step, SearchStep::Call(_)));
        let end = search.step(Reply::Failed);
        assert_eq!(end, SearchStep::Finish(SearchOutcome::SetupFailed));
        assert_eq!(search.current(), end);
    }
}

#[test]
fn no_threads_gives_null_loader() {
    let (mut search, _) = ClassLoaderSearch::start();
    assert_eq!(setup(&mut search, 0), SearchStep::Finish(SearchOutcome::Loader(None)));
    let (mut search, _) = ClassLoaderSearch::start();
    assert_eq!(setup(&mut search, -3), SearchStep::Finish(SearchOutcome::Loader(None)));
}

#[test]
fn found_class_stops_the_search() {
    let (mut search, _) = ClassLoaderSearch::start();
    assert_eq!(setup(&mut search, 3), call(JniCall::ThreadElement(0)));
    assert_eq!(search.step(Reply::Object), call(JniCall::ContextClassLoader));
    assert_eq!(search.step(Reply::Object), call(JniCall::NewClassName));
    assert_eq!(search.step(Reply::Object), call(JniCall::FindClass));
    assert_eq!(search.step(Reply::Null), call(JniCall::DeleteThread));
    assert_eq!(search.step(Reply::Deleted), call(JniCall::ThreadElement(1)));
    assert_eq!(search.step(Reply::Object), call(JniCall::ContextClassLoader));
    assert_eq!(search.step(Reply::Object), call(JniCall::NewClassName));
    assert_eq!(search.step(Reply::Object), call(JniCall::FindClass));
    assert_eq!(search.step(Reply::Object), call(JniCall::DeleteClass));
    assert_eq!(
        search.step(Reply::Deleted),
        SearchStep::Finish(SearchOutcome::Loader(Some(1)))
    );
}

#[test]
fn gives_loader_of_last_thread_that_had_one() {
    let (mut search, _) = ClassLoaderSearch::start();
    assert_eq!(setup(&mut search, 3), call(JniCall::ThreadElement(0)));
    // Thread 0: a loader that does not know the class.
    search.step(Reply::Object);
    search.step(Reply::Object);
    search.step(Reply::Object);
    assert_eq!(search.step(Reply::Null), call(JniCall::DeleteThread));
    assert_eq!(search.step(Reply::Deleted), call(JniCall::ThreadElement(1)));
    // Thread 1: its loader cannot be had, so the loader of thread 0 stays.
    assert_eq!(search.step(Reply::Object), call(JniCall::ContextClassLoader));
    assert_eq!(search.step(Reply::Failed), call(JniCall::ThreadElement(2)));
    // Thread 2: the element itself cannot be had.
    assert_eq!(
        search.step(Reply::Failed),
        SearchStep::Finish(SearchOutcome::Loader(Some(0)))
    );
}

#[test]
fn null_loader_replaces_the_held_one() {
    let (mut search, _) = ClassLoaderSearch::start();
    setup(&mut search, 2);
    search.step(Reply::Object);
    search.step(Reply::Object);
    search.step(Reply::Object);
    assert_eq!(search.step(Reply::Failed), call(JniCall::ThreadElement(1)));
    assert_eq!(search.step(Reply::Object), call(JniCall::ContextClassLoader));
    assert_eq!(search.step(Reply::Null), call(JniCall::DeleteThread));
    assert_eq!(search.step(Reply::Deleted), SearchStep::Finish(SearchOutcome::Loader(None)));
}

#[test]
fn class_name_failure_keeps_the_loader() {
    let (mut search, _) = ClassLoaderSearch::start();
    setup(&mut search, 1);
    search.step(Reply::Object);
    assert_eq!(search.step(Reply::Object), call(JniCall::NewClassName));
    assert_eq!(
        search.step(Reply::Failed),
        SearchStep::Finish(SearchOutcome::Loader(Some(0)))
    );
}

#[test]
fn delete_failures_end_the_search() {
    let (mut search, _) = ClassLoaderSearch::start();
    setup(&mut search, 2);
    search.step(Reply::Object);
    assert_eq!(search.step(Reply::Null), call(JniCall::DeleteThread));
    assert_eq!(search.step(Reply::Failed), SearchStep::Finish(SearchOutcome::DeleteFailed));

    let (mut search, _) = ClassLoaderSearch::start();
    setup(&mut search, 2);
    search.step(Reply::Object);
    search.step(Reply::Object);
    search.step(Reply::Object);
    assert_eq!(search.step(Reply::Object), call(JniCall::DeleteClass));
    assert_eq!(search.step(Reply::Failed), SearchStep::Finish(SearchOutcome::DeleteFailed));
}

#[test]
fn ends_within_five_calls_per_thread() {
    // Whatever the replies, once the length n is known the search ends within 5 * n calls.
    let patterns: [[Reply; 5]; 4] = [
        [Reply::Object, Reply::Object, Reply::Object, Reply::Null, Reply::Deleted],
        [Reply::Failed, Reply::Failed, Reply::Failed, Reply::Failed, Reply::Failed],
        [Reply::Object, Reply::Null, Reply::Deleted, Reply::Object, Reply::Failed],
        [Reply::Object, Reply::Object, Reply::Failed, Reply::Object, Reply::Object],
    ];
    for pattern in patterns.iter() {
        let n: i32 = 4;
        let (mut search, _) = ClassLoaderSearch::start();
        let mut step = setup(&mut search, n);
        let mut calls: usize = 0;
        while let SearchStep::Call(c) = step {
            let reply = match c {
                JniCall::DeleteThread | JniCall::DeleteClass => Reply::Deleted,
                _ => pattern[calls % 5],
            };
            step = search.step(reply);
            calls += 1;
            assert!(calls <= 5 * n as usize);
        }
    }
}

#[test]
fn requests_of_each_call() {
    match request(JniCall::GetAllStackTraces) {
        JniRequest::CallStatic { class, name, signature, into } => {
            assert_eq!(class, "java/lang/Thread");
            assert_eq!(name, "getAllStackTraces");
            assert_eq!(signature, "()Ljava/util/Map;");
            assert_eq!(into, Slot::StackTraces);
        }
        other => panic!("unexpected {:?}", other),
    }
    match request(JniCall::KeySet) {
        JniRequest::CallMethod { on, name, signature, with_class_name, into } => {
            assert_eq!((on, name, signature, with_class_name, into),
                (Slot::StackTraces, "keySet", "()Ljava/util/Set;", false, Slot::ThreadsSet));
        }
        other => panic!("unexpected {:?}", other),
    }
    match request(JniCall::ToArray) {
        JniRequest::CallMethod { on, name, signature, with_class_name, into } => {
            assert_eq!((on, name, signature, with_class_name, into),
                (Slot::ThreadsSet, "toArray", "()[Ljava/lang/Object;", false, Slot::ThreadsArray));
        }
        other => panic!("unexpected {:?}", other),
    }
    assert!(matches!(request(JniCall::ArrayLength), JniRequest::ArrayLength));
    assert!(matches!(request(JniCall::ThreadElement(3)),
        JniRequest::ArrayElement { index: 3, into: Slot::Thread }));
    match request(JniCall::ContextClassLoader) {
        JniRequest::CallMethod { on, name, signature, with_class_name, into } => {
            assert_eq!((on, name, signature, with_class_name, into),
                (Slot::Thread, "getContextClassLoader", "()Ljava/lang/ClassLoader;", false, Slot::ClassLoader));
        }
        other => panic!("unexpected {:?}", other),
    }
    match request(JniCall::NewClassName) {
        JniRequest::NewString { text } => assert_eq!(text, "net.minecraft.client.Minecraft"),
        other => panic!("unexpected {:?}", other),
    }
    match request(JniCall::FindClass) {
        JniRequest::CallMethod { on, name, signature, with_class_name, into } => {
            assert_eq!((on, name, signature, with_class_name, into),
                (Slot::ClassLoader, "findClass", "(Ljava/lang/String;)Ljava/lang/Class;", true, Slot::FoundClass));
        }
        other => panic!("unexpected {:?}", other),
    }
    assert!(matches!(request(JniCall::DeleteClass), JniRequest::Delete { slot: Slot::FoundClass }));
    assert!(matches!(request(JniCall::DeleteThread), JniRequest::Delete { slot: Slot::Thread }));
}
