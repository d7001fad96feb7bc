//! The plan of the client's start-up and input handling: what the hooking library's
//! initialization codes are reported as, which methods of the game's player get hooked and
//! in which order, and what a key press does to a module.

use jni::objects::JMethodID;
use vstd::prelude::*;

use crate::util::jni_calls::{CallRecord, JniSession};

verus! {

/// The digit `d` (0 to 9) as a character.
pub open spec fn digit_char(d: int) -> char {
    (d + 48) as char
}

/// The decimal digits of `n`, most significant first, without leading zeros.
pub open spec fn digits(n: nat) -> Seq<char>
    decreases n,
{
    if n < 10 {
        seq![digit_char(n as int)]
    } else {
        digits(n / 10).push(digit_char((n % 10) as int))
    }
}

/// The decimal representation of `n`: its digits, after a '-' when it is negative.
pub open spec fn decimal(n: int) -> Seq<char> {
    if n < 0 {
        seq!['-'] + digits((-n) as nat)
    } else {
        digits(n as nat)
    }
}

/// The number that a string of decimal digits stands for, read most significant first.
pub open spec fn digits_value(s: Seq<char>) -> int
    decreases s.len(),
{
    if s.len() == 0 {
        0
    } else {
        digits_value(s.drop_last()) * 10 + (s.last() as int - 48)
    }
}

/// Whether every character of `s` is a decimal digit.
pub open spec fn all_digits(s: Seq<char>) -> bool {
    forall|i: int| 0 <= i < s.len() ==> '0' <= #[trigger] s[i] <= '9'
}

proof fn lemma_digits(n: nat)
    ensures
        digits(n).len() >= 1,
        all_digits(digits(n)),
        digits_value(digits(n)) == n,
        digits(n)[0] == '0' <==> n == 0,
    decreases n,
{
    if n >= 10 {
        let q = n / 10;
        let r = n % 10;
        lemma_digits(q);
        let d = digits(n);
        assert(d == digits(q).push(digit_char(r as int)));
        assert(d.drop_last() =~= digits(q));
        assert(d[0] == digits(q)[0]);
        assert(q * 10 + r == n);
        assert(digit_char(r as int) as int == r + 48);
        assert(d.last() == digit_char(r as int));
        assert(digits_value(d) == digits_value(digits(q)) * 10 + r);
    } else {
        assert(digit_char(n as int) as int == n + 48);
        assert(digits(n).drop_last() =~= Seq::<char>::empty());
        assert(digits_value(digits(n)) == digits_value(Seq::<char>::empty()) * 10 + n);
    }
}

/// The decimal text of a number reads back as that number: it is a '-' exactly for a
/// negative number, followed by digits (no leading zero) whose value is the number's
/// magnitude.
pub proof fn law_decimal_reads_back(n: int)
    ensures
        decimal(n).len() >= 1,
        n < 0 <==> decimal(n)[0] == '-',
        n >= 0 ==> all_digits(decimal(n)) && digits_value(decimal(n)) == n,
        n < 0 ==> all_digits(decimal(n).drop_first()) && digits_value(decimal(n).drop_first())
            == -n,
        n > 0 ==> decimal(n)[0] != '0',
        n < 0 ==> decimal(n)[1] != '0',
{
    if n < 0 {
        lemma_digits((-n) as nat);
        assert(decimal(n).drop_first() =~= digits((-n) as nat));
    } else {
        lemma_digits(n as nat);
        assert('0' <= decimal(n)[0]);
    }
}

/// The character of the digit `d`, as a string.
fn digit_str(d: u32) -> (s: &'static str)
    requires
        d < 10,
    ensures
        s@ == seq![digit_char(d as int)],
{
    proof {
        reveal_strlit("0");
        reveal_strlit("1");
        reveal_strlit("2");
        reveal_strlit("3");
        reveal_strlit("4");
        reveal_strlit("5");
        reveal_strlit("6");
        reveal_strlit("7");
        reveal_strlit("8");
        reveal_strlit("9");
    }
    match d {
        0 => "0",
        1 => "1",
        2 => "2",
        3 => "3",
        4 => "4",
        5 => "5",
        6 => "6",
        7 => "7",
        8 => "8",
        _ => "9",
    }
}

/// Appends the decimal digits of `n` to `s`.
fn append_digits(s: &mut String, n: u32)
    ensures
        final(s)@ == old(s)@ + digits(n as nat),
    decreases n,
{
    if n >= 10 {
        append_digits(s, n / 10);
    }
    s.append(digit_str(n % 10));
    proof {
        if n >= 10 {
            assert(digits(n as nat) == digits((n / 10) as nat).push(digit_char((n % 10) as int)));
        }
    }
}

/// The decimal representation of `n`.
pub fn decimal_string(n: i32) -> (s: String)
    ensures
        s@ == decimal(n as int),
{
    let magnitude: u32 = if n < 0 {
        (0i64 - n as i64) as u32
    } else {
        n as u32
    };
    if n < 0 {
        let mut s = String::from_str("-");
        proof {
            reveal_strlit("-");
        }
        append_digits(&mut s, magnitude);
        assert(magnitude as int == -(n as int));
        s
    } else {
        let mut s = String::new();
        append_digits(&mut s, magnitude);
        assert(s@ =~= digits(n as nat));
        s
    }
}

/// The result code of the hooking library's initialization.
#[derive(PartialEq, Eq, Structural, Clone, Copy, Debug)]
pub enum InitResult {
    Initialized,
    GetJni,
    GetJvmti,
    AddJvmtiCaps,
    SetupClassFileLoadHook,
    JniOperation,
    JvmtiOperation,
    ClassFileCache,
    JavaException,
    /// A code that the library does not name.
    Unknown(i32),
}

/// The result that a numeric JNIHook result code stands for, by its place in the library's
/// result enumeration.
pub open spec fn init_result_of(code: i32) -> InitResult {
    if code == 0 {
        InitResult::Initialized
    } else if code == 1 {
        InitResult::GetJni
    } else if code == 2 {
        InitResult::GetJvmti
    } else if code == 3 {
        InitResult::AddJvmtiCaps
    } else if code == 4 {
        InitResult::SetupClassFileLoadHook
    } else if code == 5 {
        InitResult::JniOperation
    } else if code == 6 {
        InitResult::JvmtiOperation
    } else if code == 7 {
        InitResult::ClassFileCache
    } else if code == 8 {
        InitResult::JavaException
    } else {
        InitResult::Unknown(code)
    }
}

/// The result that a numeric JNIHook result code stands for.
pub fn init_result(code: i32) -> (r: InitResult)
    ensures
        r == init_result_of(code),
{
    match code {
        0 => InitResult::Initialized,
        1 => InitResult::GetJni,
        2 => InitResult::GetJvmti,
        3 => InitResult::AddJvmtiCaps,
        4 => InitResult::SetupClassFileLoadHook,
        5 => InitResult::JniOperation,
        6 => InitResult::JvmtiOperation,
        7 => InitResult::ClassFileCache,
        8 => InitResult::JavaException,
        _ => InitResult::Unknown(code),
    }
}

/// The message that reports an initialization result.
pub open spec fn init_message(result: InitResult) -> Seq<char> {
    match result {
        InitResult::Initialized => "[JNIHOOK_OK] Successfully initialized JNIHook!"@,
        InitResult::GetJni => "[JNIHOOK_ERR_GET_JNI] Failed to get JNI interface"@,
        InitResult::GetJvmti => "[JNIHOOK_ERR_GET_JVMTI] Failed to get JVMTI interface"@,
        InitResult::AddJvmtiCaps => "[JNIHOOK_ERR_ADD_JVMTI_CAPS] Failed to add JVMTI capabilities"@,
        InitResult::SetupClassFileLoadHook =>
            "[JNIHOOK_ERR_SETUP_CLASS_FILE_LOAD_HOOK] Failed to setup class file load hook"@,
        InitResult::JniOperation => "[JNIHOOK_ERR_JNI_OPERATION] JNI operation failed"@,
        InitResult::JvmtiOperation => "[JNIHOOK_ERR_JVMTI_OPERATION] JVMTI operation failed"@,
        InitResult::ClassFileCache => "[JNIHOOK_ERR_CLASS_FILE_CACHE] Class file cache error"@,
        InitResult::JavaException =>
            "[JNIHOOK_ERR_JAVA_EXCEPTION] Java exception occurred during initialization"@,
        InitResult::Unknown(code) => "[UNKNOWN_ERROR] Unknown error code: "@ + decimal(code as int),
    }
}

/// The message logged for the hooking library's initialization result.
pub fn init_result_message(result: InitResult) -> (m: String)
    ensures
        m@ == init_message(result),
{
    match result {
        InitResult::Initialized => String::from_str("[JNIHOOK_OK] Successfully initialized JNIHook!"),
        InitResult::GetJni => String::from_str("[JNIHOOK_ERR_GET_JNI] Failed to get JNI interface"),
        InitResult::GetJvmti => String::from_str(
            "[JNIHOOK_ERR_GET_JVMTI] Failed to get JVMTI interface",
        ),
        InitResult::AddJvmtiCaps => String::from_str(
            "[JNIHOOK_ERR_ADD_JVMTI_CAPS] Failed to add JVMTI capabilities",
        ),
        InitResult::SetupClassFileLoadHook => String::from_str(
            "[JNIHOOK_ERR_SETUP_CLASS_FILE_LOAD_HOOK] Failed to setup class file load hook",
        ),
        InitResult::JniOperation => String::from_str(
            "[JNIHOOK_ERR_JNI_OPERATION] JNI operation failed",
        ),
        InitResult::JvmtiOperation => String::from_str(
            "[JNIHOOK_ERR_JVMTI_OPERATION] JVMTI operation failed",
        ),
        InitResult::ClassFileCache => String::from_str(
            "[JNIHOOK_ERR_CLASS_FILE_CACHE] Class file cache error",
        ),
        InitResult::JavaException => String::from_str(
            "[JNIHOOK_ERR_JAVA_EXCEPTION] Java exception occurred during initialization",
        ),
        InitResult::Unknown(code) => {
            let mut m = String::from_str("[UNKNOWN_ERROR] Unknown error code: ");
            let number = decimal_string(code);
            m.append(number.as_str());
            m
        },
    }
}

/// Distinct result codes stand for distinct results: code 0 alone is success, the codes 1
/// to 8 each name a failure of their own, and every other code is reported as unknown,
/// with the code itself.
pub proof fn law_init_codes_distinct(a: i32, b: i32)
    ensures
        init_result_of(a) == init_result_of(b) ==> a == b,
        init_result_of(a) == InitResult::Initialized <==> a == 0,
        init_result_of(a) is Unknown <==> !(0 <= a <= 8),
        init_result_of(a) matches InitResult::Unknown(c) ==> c == a,
{
}

/// The initialization message says success exactly for a successful initialization: only
/// it begins with "[JNIHOOK_OK]"; an unknown code's message ends with that code.
pub proof fn law_init_message_reports_success(r: InitResult)
    ensures
        init_message(r).len() >= 12,
        init_message(r).take(12) == "[JNIHOOK_OK]"@ <==> r == InitResult::Initialized,
        r matches InitResult::Unknown(c) ==> init_message(r).skip(
            init_message(r).len() - decimal(c as int).len(),
        ) == decimal(c as int),
{
    reveal_strlit("[JNIHOOK_OK] Successfully initialized JNIHook!");
    reveal_strlit("[JNIHOOK_ERR_GET_JNI] Failed to get JNI interface");
    reveal_strlit("[JNIHOOK_ERR_GET_JVMTI] Failed to get JVMTI interface");
    reveal_strlit("[JNIHOOK_ERR_ADD_JVMTI_CAPS] Failed to add JVMTI capabilities");
    reveal_strlit("[JNIHOOK_ERR_SETUP_CLASS_FILE_LOAD_HOOK] Failed to setup class file load hook");
    reveal_strlit("[JNIHOOK_ERR_JNI_OPERATION] JNI operation failed");
    reveal_strlit("[JNIHOOK_ERR_JVMTI_OPERATION] JVMTI operation failed");
    reveal_strlit("[JNIHOOK_ERR_CLASS_FILE_CACHE] Class file cache error");
    reveal_strlit("[JNIHOOK_ERR_JAVA_EXCEPTION] Java exception occurred during initialization");
    reveal_strlit("[UNKNOWN_ERROR] Unknown error code: ");
    reveal_strlit("[JNIHOOK_OK]");
    let m = init_message(r);
    let ok = "[JNIHOOK_OK]"@;
    match r {
        InitResult::Initialized => {
            assert(m.take(12) =~= ok);
        },
        InitResult::Unknown(c) => {
            let head = "[UNKNOWN_ERROR] Unknown error code: "@;
            assert(m[1] == head[1]);
            assert(m.take(12)[1] != ok[1]);
            assert(m.skip(m.len() - decimal(c as int).len()) =~= decimal(c as int));
        },
        _ => {
            assert(m[9] == 'E');
            assert(m.take(12)[9] != ok[9]);
        },
    }
}

/// The module of the client itself, which it unloads when it exits.
pub const CLIENT_MODULE: &'static str = "void.dll";

/// The class of the game's player, whose methods get hooked.
pub const PLAYER_CLASS: &'static str = "com/interrupt/dungeoneer/entities/Player";

/// The methods of the game's player that get hooked.
#[derive(PartialEq, Eq, Structural, Clone, Copy, Debug)]
pub enum PlayerHook {
    TakeDamage,
    AttackSpeedStatBoost,
    MagicResistModBoost,
    MagicStatBoost,
    DamageStatBoost,
    DefenseStatBoost,
}

/// The Java name of a hooked method.
pub open spec fn hook_method_name(h: PlayerHook) -> Seq<char> {
    match h {
        PlayerHook::TakeDamage => "takeDamage"@,
        PlayerHook::AttackSpeedStatBoost => "getAttackSpeedStatBoost"@,
        PlayerHook::MagicResistModBoost => "getMagicResistModBoost"@,
        PlayerHook::MagicStatBoost => "getMagicStatBoost"@,
        PlayerHook::DamageStatBoost => "getDamageStatBoost"@,
        PlayerHook::DefenseStatBoost => "getDefenseStatBoost"@,
    }
}

/// The JNI signature of a hooked method.
pub open spec fn hook_signature(h: PlayerHook) -> Seq<char> {
    match h {
        PlayerHook::TakeDamage =>
            "(ILcom/interrupt/dungeoneer/entities/items/Weapon$DamageType;Lcom/interrupt/dungeoneer/entities/Entity;)I"@,
        PlayerHook::AttackSpeedStatBoost => "()F"@,
        PlayerHook::MagicResistModBoost => "()F"@,
        PlayerHook::MagicStatBoost => "()I"@,
        PlayerHook::DamageStatBoost => "()I"@,
        PlayerHook::DefenseStatBoost => "()I"@,
    }
}

/// The name under which the result of attaching a hook is reported.
pub open spec fn hook_report_label(h: PlayerHook) -> Seq<char> {
    match h {
        PlayerHook::TakeDamage => "takeDamage"@,
        PlayerHook::AttackSpeedStatBoost => "getAttackSpeedStatBoost"@,
        PlayerHook::MagicResistModBoost => "get_magic_resist_mod_boost_method"@,
        PlayerHook::MagicStatBoost => "get_magic_stat_boost_method"@,
        PlayerHook::DamageStatBoost => "getDamageStatBoost"@,
        PlayerHook::DefenseStatBoost => "get_defense_stat_boost_method"@,
    }
}

/// The order in which the hooked methods are looked up.
pub open spec fn lookup_sequence() -> Seq<PlayerHook> {
    seq![
        PlayerHook::TakeDamage,
        PlayerHook::AttackSpeedStatBoost,
        PlayerHook::MagicResistModBoost,
        PlayerHook::MagicStatBoost,
        PlayerHook::DamageStatBoost,
        PlayerHook::DefenseStatBoost,
    ]
}

/// The order in which the hooks are attached.
pub open spec fn attach_sequence() -> Seq<PlayerHook> {
    seq![
        PlayerHook::TakeDamage,
        PlayerHook::DamageStatBoost,
        PlayerHook::AttackSpeedStatBoost,
        PlayerHook::MagicResistModBoost,
        PlayerHook::MagicStatBoost,
        PlayerHook::DefenseStatBoost,
    ]
}

impl PlayerHook {
    /// The Java name of the method.
    pub fn method_name(&self) -> (r: &'static str)
        ensures
            r@ == hook_method_name(*self),
    {
        match self {
            PlayerHook::TakeDamage => "takeDamage",
            PlayerHook::AttackSpeedStatBoost => "getAttackSpeedStatBoost",
            PlayerHook::MagicResistModBoost => "getMagicResistModBoost",
            PlayerHook::MagicStatBoost => "getMagicStatBoost",
            PlayerHook::DamageStatBoost => "getDamageStatBoost",
            PlayerHook::DefenseStatBoost => "getDefenseStatBoost",
        }
    }

    /// The JNI signature of the method.
    pub fn signature(&self) -> (r: &'static str)
        ensures
            r@ == hook_signature(*self),
    {
        match self {
            PlayerHook::TakeDamage =>
                "(ILcom/interrupt/dungeoneer/entities/items/Weapon$DamageType;Lcom/interrupt/dungeoneer/entities/Entity;)I",
            PlayerHook::AttackSpeedStatBoost => "()F",
            PlayerHook::MagicResistModBoost => "()F",
            PlayerHook::MagicStatBoost => "()I",
            PlayerHook::DamageStatBoost => "()I",
            PlayerHook::DefenseStatBoost => "()I",
        }
    }

    /// The name under which the result of attaching this hook is reported.
    pub fn report_label(&self) -> (r: &'static str)
        ensures
            r@ == hook_report_label(*self),
    {
        match self {
            PlayerHook::TakeDamage => "takeDamage",
            PlayerHook::AttackSpeedStatBoost => "getAttackSpeedStatBoost",
            PlayerHook::MagicResistModBoost => "get_magic_resist_mod_boost_method",
            PlayerHook::MagicStatBoost => "get_magic_stat_boost_method",
            PlayerHook::DamageStatBoost => "getDamageStatBoost",
            PlayerHook::DefenseStatBoost => "get_defense_stat_boost_method",
        }
    }

    /// Where the method stands in the lookup order.
    pub fn lookup_index(&self) -> (i: usize)
        ensures
            i < 6,
            lookup_sequence()[i as int] == *self,
    {
        match self {
            PlayerHook::TakeDamage => 0,
            PlayerHook::AttackSpeedStatBoost => 1,
            PlayerHook::MagicResistModBoost => 2,
            PlayerHook::MagicStatBoost => 3,
            PlayerHook::DamageStatBoost => 4,
            PlayerHook::DefenseStatBoost => 5,
        }
    }
}

/// A Java method to look up: its class, name and JNI signature.
#[derive(Clone, Copy, Debug)]
pub struct MethodLookup {
    pub class: &'static str,
    pub name: &'static str,
    pub signature: &'static str,
}

impl PlayerHook {
    /// The lookup of this hooked method: the player class, the method's name and signature.
    pub fn lookup(&self) -> (r: MethodLookup)
        ensures
            r.class@ == PLAYER_CLASS@,
            r.name@ == hook_method_name(*self),
            r.signature@ == hook_signature(*self),
    {
        MethodLookup { class: PLAYER_CLASS, name: self.method_name(), signature: self.signature() }
    }
}

/// The hooked methods in the order in which they are looked up.
pub fn lookup_order() -> (v: Vec<PlayerHook>)
    ensures
        v@ == lookup_sequence(),
{
    let v = vec![
        PlayerHook::TakeDamage,
        PlayerHook::AttackSpeedStatBoost,
        PlayerHook::MagicResistModBoost,
        PlayerHook::MagicStatBoost,
        PlayerHook::DamageStatBoost,
        PlayerHook::DefenseStatBoost,
    ];
    assert(v@ =~= lookup_sequence());
    v
}

/// The hooks in the order in which they are attached.
pub fn attach_order() -> (v: Vec<PlayerHook>)
    ensures
        v@ == attach_sequence(),
{
    let v = vec![
        PlayerHook::TakeDamage,
        PlayerHook::DamageStatBoost,
        PlayerHook::AttackSpeedStatBoost,
        PlayerHook::MagicResistModBoost,
        PlayerHook::MagicStatBoost,
        PlayerHook::DefenseStatBoost,
    ];
    assert(v@ =~= attach_sequence());
    v
}

/// Each hook reports its attach result under a label of its own, the one the client's log
/// has always used for it, so no two hooks' results can be confused.
pub proof fn law_report_labels_distinct(a: PlayerHook, b: PlayerHook)
    ensures
        hook_report_label(a) == hook_report_label(b) ==> a == b,
        hook_report_label(PlayerHook::TakeDamage) == "takeDamage"@,
        hook_report_label(PlayerHook::DamageStatBoost) == "getDamageStatBoost"@,
        hook_report_label(PlayerHook::AttackSpeedStatBoost) == "getAttackSpeedStatBoost"@,
        hook_report_label(PlayerHook::MagicResistModBoost) == "get_magic_resist_mod_boost_method"@,
        hook_report_label(PlayerHook::MagicStatBoost) == "get_magic_stat_boost_method"@,
        hook_report_label(PlayerHook::DefenseStatBoost) == "get_defense_stat_boost_method"@,
{
    reveal_strlit("takeDamage");
    reveal_strlit("getDamageStatBoost");
    reveal_strlit("getAttackSpeedStatBoost");
    reveal_strlit("get_magic_resist_mod_boost_method");
    reveal_strlit("get_magic_stat_boost_method");
    reveal_strlit("get_defense_stat_boost_method");
    if hook_report_label(a) == hook_report_label(b) {
        assert(hook_report_label(a).len() == hook_report_label(b).len());
    }
}

/// The hooks are attached in the client's order: `takeDamage`, `getDamageStatBoost`,
/// `getAttackSpeedStatBoost`, `getMagicResistModBoost`, `getMagicStatBoost`,
/// `getDefenseStatBoost`; that is the lookup order with `getDamageStatBoost` moved up to
/// second place.
pub proof fn law_attach_order_is_the_clients()
    ensures
        attach_sequence() == seq![
            PlayerHook::TakeDamage,
            PlayerHook::DamageStatBoost,
            PlayerHook::AttackSpeedStatBoost,
            PlayerHook::MagicResistModBoost,
            PlayerHook::MagicStatBoost,
            PlayerHook::DefenseStatBoost,
        ],
        ({
            let l = lookup_sequence();
            attach_sequence() == seq![l[0], l[4], l[1], l[2], l[3], l[5]]
        }),
{
    let l = lookup_sequence();
    assert(attach_sequence() =~= seq![l[0], l[4], l[1], l[2], l[3], l[5]]);
}

/// The client hooks six distinct methods of the game's player class, each looked up by
/// its own name and signature, in the client's lookup order: `takeDamage`,
/// `getAttackSpeedStatBoost`, `getMagicResistModBoost`, `getMagicStatBoost`,
/// `getDamageStatBoost`, `getDefenseStatBoost`.
pub proof fn law_hooked_methods(a: PlayerHook, b: PlayerHook)
    ensures
        hook_method_name(a) == hook_method_name(b) ==> a == b,
        PLAYER_CLASS@ == "com/interrupt/dungeoneer/entities/Player"@,
        lookup_sequence() == seq![
            PlayerHook::TakeDamage,
            PlayerHook::AttackSpeedStatBoost,
            PlayerHook::MagicResistModBoost,
            PlayerHook::MagicStatBoost,
            PlayerHook::DamageStatBoost,
            PlayerHook::DefenseStatBoost,
        ],
        hook_method_name(PlayerHook::TakeDamage) == "takeDamage"@,
        hook_method_name(PlayerHook::AttackSpeedStatBoost) == "getAttackSpeedStatBoost"@,
        hook_method_name(PlayerHook::MagicResistModBoost) == "getMagicResistModBoost"@,
        hook_method_name(PlayerHook::MagicStatBoost) == "getMagicStatBoost"@,
        hook_method_name(PlayerHook::DamageStatBoost) == "getDamageStatBoost"@,
        hook_method_name(PlayerHook::DefenseStatBoost) == "getDefenseStatBoost"@,
        hook_signature(PlayerHook::TakeDamage)
            == "(ILcom/interrupt/dungeoneer/entities/items/Weapon$DamageType;Lcom/interrupt/dungeoneer/entities/Entity;)I"@,
        hook_signature(PlayerHook::AttackSpeedStatBoost) == "()F"@,
        hook_signature(PlayerHook::MagicResistModBoost) == "()F"@,
        hook_signature(PlayerHook::MagicStatBoost) == "()I"@,
        hook_signature(PlayerHook::DamageStatBoost) == "()I"@,
        hook_signature(PlayerHook::DefenseStatBoost) == "()I"@,
{
    reveal_strlit("takeDamage");
    reveal_strlit("getAttackSpeedStatBoost");
    reveal_strlit("getMagicResistModBoost");
    reveal_strlit("getMagicStatBoost");
    reveal_strlit("getDamageStatBoost");
    reveal_strlit("getDefenseStatBoost");
    if hook_method_name(a) == hook_method_name(b) {
        assert(hook_method_name(a).len() == hook_method_name(b).len());
    }
}

/// Every hooked method is attached exactly once: the attach order holds each method that
/// is looked up, once.
pub proof fn law_each_hook_attached_once()
    ensures
        attach_sequence().len() == lookup_sequence().len(),
        forall|h: PlayerHook| #[trigger]
            attach_sequence().contains(h) <==> lookup_sequence().contains(h),
        forall|i: int, j: int|
            0 <= i < j < attach_sequence().len() ==> attach_sequence()[i] != attach_sequence()[j],
{
    let a = attach_sequence();
    let l = lookup_sequence();
    assert forall|h: PlayerHook| #[trigger] a.contains(h) <==> l.contains(h) by {
        match h {
            PlayerHook::TakeDamage => {
                assert(a[0] == h && l[0] == h);
            },
            PlayerHook::AttackSpeedStatBoost => {
                assert(a[2] == h && l[1] == h);
            },
            PlayerHook::MagicResistModBoost => {
                assert(a[3] == h && l[2] == h);
            },
            PlayerHook::MagicStatBoost => {
                assert(a[4] == h && l[3] == h);
            },
            PlayerHook::DamageStatBoost => {
                assert(a[1] == h && l[4] == h);
            },
            PlayerHook::DefenseStatBoost => {
                assert(a[5] == h && l[5] == h);
            },
        }
    }
}

/// Whether `rec` is the lookup of `hook`'s method: the player class, the method's name and
/// its signature.
pub open spec fn looks_up(rec: CallRecord, hook: PlayerHook) -> bool {
    &&& rec matches CallRecord::MethodId { class, name, sig, .. }
    &&& rec->MethodId_class == PLAYER_CLASS@
    &&& rec->MethodId_name == hook_method_name(hook)
    &&& rec->MethodId_sig == hook_signature(hook)
}

/// Looks up the hooked methods of the player class, in the lookup order, and stops at the
/// first that cannot be found. The calls made through the session are these lookups,
/// returned in the second part of the result: the i-th is that of the i-th method of the
/// lookup order, and all but the last succeeded. The first part is the ids that the lookups
/// gave, in that order, when all of them succeeded, and otherwise the method whose lookup
/// failed.
pub fn resolve_player_methods<'a, 'local>(session: &mut JniSession<'a, 'local>) -> (r: (
    Result<Vec<JMethodID>, PlayerHook>,
    Ghost<Seq<CallRecord<'local>>>,
))
    ensures
        final(session).calls() == old(session).calls() + r.1@,
        1 <= r.1@.len() <= lookup_sequence().len(),
        forall|i: int| 0 <= i < r.1@.len() ==> looks_up(#[trigger] r.1@[i], lookup_sequence()[i]),
        forall|i: int| 0 <= i < r.1@.len() - 1 ==> (#[trigger] r.1@[i])->MethodId_result is Some,
        r.0 is Ok <==> r.1@.len() == lookup_sequence().len() && r.1@.last()->MethodId_result is Some,
        r.0 matches Err(h) ==> h == lookup_sequence()[r.1@.len() - 1]
            && r.1@.last()->MethodId_result is None,
        r.0 matches Ok(ids) ==> ids@.len() == lookup_sequence().len() && forall|i: int|
            0 <= i < ids@.len() ==> r.1@[i]->MethodId_result == Some(#[trigger] ids@[i]),
{
    let order = lookup_order();
    let mut ids: Vec<JMethodID> = Vec::new();
    let ghost start = session.calls();
    let ghost mut records: Seq<CallRecord<'local>> = Seq::empty();
    let mut i: usize = 0;
    while i < order.len()
        invariant
            order@ == lookup_sequence(),
            i <= order@.len(),
            ids@.len() == i,
            records.len() == i,
            session.calls() == start + records,
            start == old(session).calls(),
            forall|j: int| 0 <= j < i ==> looks_up(#[trigger] records[j], lookup_sequence()[j]),
            forall|j: int| 0 <= j < i ==> (#[trigger] records[j])->MethodId_result == Some(ids@[j]),
        decreases order@.len() - i,
    {
        let hook = order[i];
        let lookup = hook.lookup();
        let answer = session.get_method_id(&lookup);
        proof {
            let record = session.calls().last();
            assert(session.calls() =~= start + records.push(record));
            records = records.push(record);
        }
        match answer {
            Some(id) => ids.push(id),
            None => {
                assert(lookup_sequence()[i as int] == hook);
                assert(forall|j: int| 0 <= j < i ==> (#[trigger] records[j])->MethodId_result is Some);
                return (Err(hook), Ghost(records));
            },
        }
        i = i + 1;
    }
    assert(records[records.len() - 1]->MethodId_result == Some(ids@[records.len() - 1]));
    (Ok(ids), Ghost(records))
}

/// The line that reports the result of attaching a hook.
pub fn attach_report(hook: PlayerHook, result: i32) -> (m: String)
    ensures
        m@ == "[DH] Player::"@ + hook_report_label(hook) + " Hook Result: "@ + decimal(result as int),
{
    let mut m = String::from_str("[DH] Player::");
    m.append(hook.report_label());
    m.append(" Hook Result: ");
    let number = decimal_string(result);
    m.append(number.as_str());
    m
}

/// What a key press does to a module after the module has seen it.
#[derive(PartialEq, Eq, Structural, Clone, Copy, Debug)]
pub enum KeyAction {
    /// The key is the module's and the module is toggled on: enable it.
    Enable,
    /// The key is the module's and the module is toggled off: disable it.
    Disable,
    /// The key is not the module's.
    Nothing,
}

/// The key code that modules see: the pressed key cut to 16 bits.
pub fn key_code(key: i32) -> (c: i16)
    ensures
        c == key as i16,
{
    key as i16
}

/// What pressing `key` does to a module bound to `module_key`, given whether the module is
/// toggled on once it has seen the key.
pub fn key_action(key: i32, module_key: i16, toggled: bool) -> (a: KeyAction)
    ensures
        module_key == key as i16 && toggled ==> a == KeyAction::Enable,
        module_key == key as i16 && !toggled ==> a == KeyAction::Disable,
        module_key != key as i16 ==> a == KeyAction::Nothing,
{
    if module_key == key_code(key) {
        if toggled {
            KeyAction::Enable
        } else {
            KeyAction::Disable
        }
    } else {
        KeyAction::Nothing
    }
}

/// Only the low 16 bits of a pressed key matter: two keys that agree on them are the same
/// key code, and so do the same to every module.
pub proof fn law_key_low_bits(k1: i32, k2: i32)
    requires
        k1 & 0xffff == k2 & 0xffff,
    ensures
        k1 as i16 == k2 as i16,
{
    assert(k1 & 0xffff == k2 & 0xffff ==> k1 as i16 == k2 as i16) by (bit_vector);
}

} // verus!
