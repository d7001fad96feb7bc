use void_client::void::{
    attach_order, attach_report, decimal_string, init_result, init_result_message, key_action, key_code, lookup_order,
    InitResult, KeyAction, PlayerHook, PLAYER_CLASS,
};

#[test]
fn init_messages() {
    assert_eq!(
        init_result_message(InitResult::Initialized),
        "[JNIHOOK_OK] Successfully initialized JNIHook!"
    );
    assert_eq!(
        init_result_message(InitResult::GetJni),
        "[JNIHOOK_ERR_GET_JNI] Failed to get JNI interface"
    );
    assert_eq!(
        init_result_message(InitResult::GetJvmti),
        "[JNIHOOK_ERR_GET_JVMTI] Failed to get JVMTI interface"
    );
    assert_eq!(
        init_result_message(InitResult::AddJvmtiCaps),
        "[JNIHOOK_ERR_ADD_JVMTI_CAPS] Failed to add JVMTI capabilities"
    );
    assert_eq!(
        init_result_message(InitResult::SetupClassFileLoadHook),
        "[JNIHOOK_ERR_SETUP_CLASS_FILE_LOAD_HOOK] Failed to setup class file load hook"
    );
    assert_eq!(
        init_result_message(InitResult::JniOperation),
        "[JNIHOOK_ERR_JNI_OPERATION] JNI operation failed"
    );
    assert_eq!(
        init_result_message(InitResult::JvmtiOperation),
        "[JNIHOOK_ERR_JVMTI_OPERATION] JVMTI operation failed"
    );
    assert_eq!(
        init_result_message(InitResult::ClassFileCache),
        "[JNIHOOK_ERR_CLASS_FILE_CACHE] Class file cache error"
    );
    assert_eq!(
        init_result_message(InitResult::JavaException),
        "[JNIHOOK_ERR_JAVA_EXCEPTION] Java exception occurred during initialization"
    );
}

#[test]
fn unknown_init_codes_are_written_in_decimal() {
    assert_eq!(
        init_result_message(InitResult::Unknown(42)),
        "[UNKNOWN_ERROR] Unknown error code: 42"
    );
    assert_eq!(
        init_result_message(InitResult::Unknown(-12)),
        "[UNKNOWN_ERROR] Unknown error code: -12"
    );
    assert_eq!(
        init_result_message(InitResult::Unknown(i32::MIN)),
        "[UNKNOWN_ERROR] Unknown error code: -2147483648"
    );
}

#[test]
fn hooked_methods_of_the_player() {
    assert_eq!(PLAYER_CLASS, "com/interrupt/dungeoneer/entities/Player");
    let names: Vec<&str> = lookup_order().iter().map(|h| h.method_name()).collect();
    assert_eq!(
        names,
        vec![
            "takeDamage",
            "getAttackSpeedStatBoost",
            "getMagicResistModBoost",
            "getMagicStatBoost",
            "getDamageStatBoost",
            "getDefenseStatBoost"
        ]
    );
    assert_eq!(
        PlayerHook::TakeDamage.signature(),
        "(ILcom/interrupt/dungeoneer/entities/items/Weapon$DamageType;Lcom/interrupt/dungeoneer/entities/Entity;)I"
    );
    assert_eq!(PlayerHook::AttackSpeedStatBoost.signature(), "()F");
    assert_eq!(PlayerHook::MagicResistModBoost.signature(), "()F");
    assert_eq!(PlayerHook::MagicStatBoost.signature(), "()I");
    assert_eq!(PlayerHook::DamageStatBoost.signature(), "()I");
    assert_eq!(PlayerHook::DefenseStatBoost.signature(), "()I");
}

#[test]
fn each_hook_is_attached_once() {
    let attach = attach_order();
    let lookup = lookup_order();
    assert_eq!(attach.len(), lookup.len());
    for h in lookup.iter() {
        assert_eq!(attach.iter().filter(|a| *a == h).count(), 1);
        assert_eq!(lookup[h.lookup_index()], *h);
    }
    assert_eq!(attach[1], PlayerHook::DamageStatBoost);
}

#[test]
fn attach_reports() {
    assert_eq!(
        attach_report(PlayerHook::TakeDamage, 0),
        "[DH] Player::takeDamage Hook Result: 0"
    );
    assert_eq!(
        attach_report(PlayerHook::MagicResistModBoost, -3),
        "[DH] Player::get_magic_resist_mod_boost_method Hook Result: -3"
    );
    assert_eq!(
        attach_report(PlayerHook::DefenseStatBoost, 1),
        "[DH] Player::get_defense_stat_boost_method Hook Result: 1"
    );
}

#[test]
fn key_codes_keep_the_low_sixteen_bits() {
    assert_eq!(key_code(65), 65);
    assert_eq!(key_code(65 + 65536), 65);
    assert_eq!(key_code(0xffff), -1);
    assert_eq!(key_code(0x8000), i16::MIN);
}

#[test]
fn key_actions() {
    assert_eq!(key_action(48, 48, true), KeyAction::Enable);
    assert_eq!(key_action(48, 48, false), KeyAction::Disable);
    assert_eq!(key_action(49, 48, true), KeyAction::Nothing);
    // The same low bits give the same action.
    assert_eq!(key_action(48 + 65536, 48, true), KeyAction::Enable);
}

#[test]
fn decimal_strings() {
    assert_eq!(decimal_string(0), "0");
    assert_eq!(decimal_string(7), "7");
    assert_eq!(decimal_string(10), "10");
    assert_eq!(decimal_string(-305), "-305");
    assert_eq!(decimal_string(i32::MAX), "2147483647");
    assert_eq!(decimal_string(i32::MIN), "-2147483648");
}

#[test]
fn init_result_codes() {
    assert_eq!(init_result(0), InitResult::Initialized);
    assert_eq!(init_result(1), InitResult::GetJni);
    assert_eq!(init_result(2), InitResult::GetJvmti);
    assert_eq!(init_result(3), InitResult::AddJvmtiCaps);
    assert_eq!(init_result(4), InitResult::SetupClassFileLoadHook);
    assert_eq!(init_result(5), InitResult::JniOperation);
    assert_eq!(init_result(6), InitResult::JvmtiOperation);
    assert_eq!(init_result(7), InitResult::ClassFileCache);
    assert_eq!(init_result(8), InitResult::JavaException);
    assert_eq!(init_result(9), InitResult::Unknown(9));
    assert_eq!(init_result(-1), InitResult::Unknown(-1));
}

#[test]
fn method_lookups() {
    let l = PlayerHook::MagicStatBoost.lookup();
    assert_eq!(l.class, "com/interrupt/dungeoneer/entities/Player");
    assert_eq!(l.name, "getMagicStatBoost");
    assert_eq!(l.signature, "()I");
    let l = PlayerHook::TakeDamage.lookup();
    assert_eq!(l.name, "takeDamage");
    assert_eq!(l.signature, PlayerHook::TakeDamage.signature());
}
