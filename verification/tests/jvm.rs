use void_client::util::jvm::{
    progress_lines, DiscoveryStep, ExitReason, JvmDiscovery, Progress, CREATED_VMS_SYMBOL,
    JVM_MODULE,
};
use void_client::util::search::{JniCall, Reply};

#[test]
fn looks_for_the_jvm_module_and_its_function() {
    assert_eq!(JVM_MODULE, "jvm.dll");
    assert_eq!(CREATED_VMS_SYMBOL, "JNI_GetCreatedJavaVMs");
    let (_, step) = JvmDiscovery::start();
    assert_eq!(step, DiscoveryStep::FindModule);
}

#[test]
fn missing_module_means_no_jvm() {
    let (mut d, _) = JvmDiscovery::start();
    assert_eq!(d.module_found(0), DiscoveryStep::Exit(ExitReason::NoJvm));
}

#[test]
fn missing_symbol_means_no_jvm() {
    let (mut d, _) = JvmDiscovery::start();
    assert_eq!(d.module_found(0x7ff0_0000), DiscoveryStep::FindSymbol);
    assert_eq!(d.symbol_found(0), DiscoveryStep::Exit(ExitReason::NoJvm));
}

#[test]
fn lists_into_room_for_one_and_uses_the_first() {
    let (mut d, _) = JvmDiscovery::start();
    d.module_found(0x1000);
    assert_eq!(d.symbol_found(0x2000), DiscoveryStep::ListVms { capacity: 1 });
    assert_eq!(d.vms_listed(0), DiscoveryStep::PickFirst);
    assert_eq!(d.first_vm(0xdead_0000), DiscoveryStep::UseVm(0xdead_0000));
}

#[test]
fn failed_listing_means_no_jvm() {
    let (mut d, _) = JvmDiscovery::start();
    d.module_found(1);
    d.symbol_found(1);
    assert_eq!(d.vms_listed(-1), DiscoveryStep::Exit(ExitReason::NoJvm));
}

#[test]
fn null_first_vm_exits() {
    let (mut d, _) = JvmDiscovery::start();
    d.module_found(1);
    d.symbol_found(1);
    assert_eq!(d.vms_listed(0), DiscoveryStep::PickFirst);
    assert_eq!(d.first_vm(0), DiscoveryStep::Exit(ExitReason::NullVm));
}

#[test]
fn exit_messages() {
    assert_eq!(ExitReason::NoJvm.message(), "No JVM Was found, exiting...");
    assert_eq!(ExitReason::NullVm.message(), "First VM was null, exiting...");
}

#[test]
fn kept_count_is_cut_to_the_buffer() {
    assert_eq!(JvmDiscovery::kept_count(1, 1), 1);
    assert_eq!(JvmDiscovery::kept_count(0, 1), 0);
    assert_eq!(JvmDiscovery::kept_count(-4, 1), 0);
    assert_eq!(JvmDiscovery::kept_count(3, 1), 1);
    assert_eq!(JvmDiscovery::kept_count(2, 8), 2);
}

#[test]
fn reports_the_length_of_the_threads_array() {
    let p = Progress { call: JniCall::ArrayLength, reply: Reply::Length(3), detail: None };
    let (printed, logged) = progress_lines(&p);
    assert_eq!(printed, None);
    assert_eq!(
        logged,
        vec![
            "Successfully retrieved threads array length: 3".to_string(),
            "Threads: 3".to_string()
        ]
    );
}

#[test]
fn reports_a_failed_call_with_its_error_text() {
    let p = Progress {
        call: JniCall::GetAllStackTraces,
        reply: Reply::Failed,
        detail: Some("JavaException".to_string()),
    };
    let (printed, logged) = progress_lines(&p);
    assert_eq!(printed, None);
    assert_eq!(logged, vec!["Failed to call getAllStackTraces: JavaException".to_string()]);
}

#[test]
fn reports_a_value_without_an_object() {
    let p = Progress {
        call: JniCall::ContextClassLoader,
        reply: Reply::Null,
        detail: Some("WrongJValueType".to_string()),
    };
    let (_, logged) = progress_lines(&p);
    assert_eq!(
        logged,
        vec![
            "Successfully retrieved context class loader.".to_string(),
            "Failed to convert context class loader to JObject: WrongJValueType".to_string()
        ]
    );
}

#[test]
fn prints_the_thread_index_before_fetching_it() {
    let p = Progress { call: JniCall::ThreadElement(12), reply: Reply::Object, detail: None };
    let (printed, logged) = progress_lines(&p);
    assert_eq!(printed, Some("Processing thread index: 12".to_string()));
    assert_eq!(logged, vec!["Successfully retrieved thread at index 12".to_string()]);
    let failed = Progress {
        call: JniCall::ThreadElement(-1),
        reply: Reply::Failed,
        detail: Some("ArrayIndexOutOfBounds".to_string()),
    };
    let (_, logged) = progress_lines(&failed);
    assert_eq!(logged, vec!["Failed to get thread at index -1: ArrayIndexOutOfBounds".to_string()]);
}

#[test]
fn reports_the_class_found() {
    let found = Progress { call: JniCall::FindClass, reply: Reply::Object, detail: None };
    let (_, logged) = progress_lines(&found);
    assert_eq!(
        logged,
        vec![
            "Successfully called findClass on class loader.".to_string(),
            "Found Minecraft class".to_string()
        ]
    );
    let missed = Progress { call: JniCall::FindClass, reply: Reply::Null, detail: None };
    let (_, logged) = progress_lines(&missed);
    assert_eq!(logged, vec!["Successfully called findClass on class loader.".to_string()]);
    let deleted = Progress { call: JniCall::DeleteThread, reply: Reply::Deleted, detail: None };
    let (_, logged) = progress_lines(&deleted);
    assert!(logged.is_empty());
}
