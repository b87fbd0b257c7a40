//! Launch-at-login registration: the value written to the per-user run store,
//! path normalization for comparing it with the running executable, and the
//! retry policy for mutating the store.

use vstd::prelude::*;

verus! {

/// Whether `c` has the Unicode `White_Space` property (what `char::is_whitespace` tests).
pub open spec fn is_space_char(c: char) -> bool {
    let u = c as u32;
    (0x09 <= u && u <= 0x0D) || u == 0x20 || u == 0x85 || u == 0xA0 || u == 0x1680 || (0x2000
        <= u && u <= 0x200A) || u == 0x2028 || u == 0x2029 || u == 0x202F || u == 0x205F || u
        == 0x3000
}

/// `s` without its leading white space.
pub open spec fn trim_start(s: Seq<char>) -> Seq<char>
    decreases s.len(),
{
    if s.len() > 0 && is_space_char(s[0]) {
        trim_start(s.drop_first())
    } else {
        s
    }
}

/// `s` without its trailing white space.
pub open spec fn trim_end(s: Seq<char>) -> Seq<char>
    decreases s.len(),
{
    if s.len() > 0 && is_space_char(s.last()) {
        trim_end(s.drop_last())
    } else {
        s
    }
}

/// `s` without white space at either end.
pub open spec fn trim(s: Seq<char>) -> Seq<char> {
    trim_end(trim_start(s))
}

/// `s` without one leading and one trailing double quote, where present.
pub open spec fn strip_one_quote(s: Seq<char>) -> Seq<char> {
    let a = if s.len() > 0 && s[0] == '"' {
        s.drop_first()
    } else {
        s
    };
    if a.len() > 0 && a.last() == '"' {
        a.drop_last()
    } else {
        a
    }
}

/// The comparable form of a stored or resolved path: trimmed, one layer of
/// quotes removed, trimmed again.
pub open spec fn normalize(s: Seq<char>) -> Seq<char> {
    trim(strip_one_quote(trim(s)))
}

/// Whether `s` begins or ends with a double quote.
pub open spec fn quote_at_an_end(s: Seq<char>) -> bool {
    s.len() > 0 && (s[0] == '"' || s.last() == '"')
}

fn is_space(c: char) -> (r: bool)
    ensures
        r == is_space_char(c),
{
    let u = c as u32;
    (0x09 <= u && u <= 0x0D) || u == 0x20 || u == 0x85 || u == 0xA0 || u == 0x1680 || (0x2000
        <= u && u <= 0x200A) || u == 0x2028 || u == 0x2029 || u == 0x202F || u == 0x205F || u
        == 0x3000
}

/// The bounds, within `lo..hi`, of `s[lo..hi]` trimmed.
fn trim_bounds(s: &str, lo: usize, hi: usize) -> (r: (usize, usize))
    requires
        lo <= hi <= s@.len(),
    ensures
        lo <= r.0 <= r.1 <= hi,
        s@.subrange(r.0 as int, r.1 as int) == trim(s@.subrange(lo as int, hi as int)),
{
    let mut a = lo;
    while a < hi && is_space(s.get_char(a))
        invariant
            lo <= a <= hi <= s@.len(),
            trim_start(s@.subrange(lo as int, hi as int)) == trim_start(
                s@.subrange(a as int, hi as int),
            ),
        decreases hi - a,
    {
        assert(s@.subrange(a as int, hi as int).drop_first() =~= s@.subrange(
            a + 1,
            hi as int,
        ));
        a = a + 1;
    }
    assert(trim_start(s@.subrange(a as int, hi as int)) == s@.subrange(a as int, hi as int));
    let mut b = hi;
    while b > a && is_space(s.get_char(b - 1))
        invariant
            lo <= a <= b <= hi <= s@.len(),
            trim(s@.subrange(lo as int, hi as int)) == trim_end(s@.subrange(a as int, b as int)),
        decreases b - a,
    {
        assert(s@.subrange(a as int, b as int).drop_last() =~= s@.subrange(
            a as int,
            b - 1,
        ));
        b = b - 1;
    }
    (a, b)
}

/// Normalizes a path string for comparison: surrounding white space and one
/// layer of double quotes are removed.
pub fn normalize_path(path: &str) -> (r: String)
    ensures
        r@ == normalize(path@),
{
    let n = path.unicode_len();
    let (a0, b0) = trim_bounds(path, 0, n);
    assert(path@.subrange(0, n as int) =~= path@);
    let mut a = a0;
    let mut b = b0;
    if a < b && path.get_char(a) == '"' {
        a = a + 1;
    }
    if a < b && path.get_char(b - 1) == '"' {
        b = b - 1;
    }
    assert(path@.subrange(a as int, b as int) =~= strip_one_quote(
        path@.subrange(a0 as int, b0 as int),
    ));
    let (c, d) = trim_bounds(path, a, b);
    String::from_str(path.substring_char(c, d))
}

/// Name of the value under the run store that registers this application.
pub const RUN_VALUE_NAME: &'static str = "desktop-todolist";

/// Location, under the current user's hive, of the run-at-login store.
pub const RUN_KEY_PATH: &'static str = "Software\\Microsoft\\Windows\\CurrentVersion\\Run";

/// How many times a store mutation is attempted before its error is surfaced.
pub const MAX_ATTEMPTS: u32 = 3;

/// Base delay between attempts; the n-th retry waits n times this long.
pub const RETRY_DELAY_MS: u64 = 100;

/// The operating system's code for an access-denied failure.
pub const ACCESS_DENIED_CODE: i32 = 5;

/// Error returned where the platform has no run-at-login store.
pub const UNSUPPORTED_PLATFORM: &'static str = "仅支持 Windows";

/// Opening of the error surfaced when mutating the store failed.
pub const WRITE_FAILED: &'static str = "写入开机启动项失败: ";

/// Advice appended to that error when access was denied.
pub const WRITE_DENIED_ADVICE: &'static str = "。\n\n可能的原因：\n1. 权限不足 - 请尝试以管理员身份运行应用\n2. 防病毒软件阻止 - 请检查防病毒软件设置\n3. 注册表被锁定 - 请稍后重试";

/// Opening of the error surfaced when the store could not be opened.
pub const OPEN_FAILED: &'static str = "打开注册表 Run 键失败: ";

/// Advice appended to that error when access was denied.
pub const OPEN_DENIED_ADVICE: &'static str = "。可能是权限不足，请尝试以管理员身份运行应用，或检查防病毒软件是否阻止了注册表访问。";

/// The value stored for an executable path: quoted where it holds a space.
pub open spec fn registration_text(exe: Seq<char>) -> Seq<char> {
    if exe.contains(' ') {
        seq!['"'] + exe + seq!['"']
    } else {
        exe
    }
}

/// Whether a stored value (`None`: no value under the name) registers `exe`.
pub open spec fn registers(stored: Option<Seq<char>>, exe: Seq<char>) -> bool {
    match stored {
        None => false,
        Some(v) => normalize(v).len() > 0 && normalize(v) == normalize(exe),
    }
}

/// Message surfaced when the last attempt to mutate the store failed.
pub open spec fn write_failure_text(os_code: Option<i32>, detail: Seq<char>) -> Seq<char> {
    if os_code == Some(ACCESS_DENIED_CODE) {
        WRITE_FAILED@ + detail + WRITE_DENIED_ADVICE@
    } else {
        WRITE_FAILED@ + detail
    }
}

/// Message surfaced when the run store cannot be opened.
pub open spec fn open_failure_text(os_code: Option<i32>, detail: Seq<char>) -> Seq<char> {
    if os_code == Some(ACCESS_DENIED_CODE) {
        OPEN_FAILED@ + detail + OPEN_DENIED_ADVICE@
    } else {
        OPEN_FAILED@ + detail
    }
}

fn has_space(s: &str) -> (r: bool)
    ensures
        r == s@.contains(' '),
{
    let n = s.unicode_len();
    let mut i: usize = 0;
    while i < n
        invariant
            i <= n == s@.len(),
            forall|k: int| 0 <= k < i ==> s@[k] != ' ',
        decreases n - i,
    {
        if s.get_char(i) == ' ' {
            return true;
        }
        i = i + 1;
    }
    false
}

/// The value to store so that `exe_path` is launched at login: the path,
/// double-quoted where it contains a space.
pub fn registration_value(exe_path: &str) -> (r: String)
    ensures
        r@ == registration_text(exe_path@),
{
    if has_space(exe_path) {
        let mut v = String::from_str("\"");
        v.append(exe_path);
        v.append("\"");
        proof {
            reveal_strlit("\"");
            assert(v@ =~= seq!['"'] + exe_path@ + seq!['"']);
        }
        v
    } else {
        String::from_str(exe_path)
    }
}

/// Whether the value found in the store (`None` where there is none) registers
/// the executable at `exe_path`: both normalize to the same non-empty path.
pub fn is_registered(stored: &Option<String>, exe_path: &str) -> (r: bool)
    ensures
        r == registers(
            match stored {
                Some(v) => Some(v@),
                None => None,
            },
            exe_path@,
        ),
{
    match stored {
        None => false,
        Some(v) => {
            let a = normalize_path(v.as_str());
            let b = normalize_path(exe_path);
            a.unicode_len() > 0 && a == b
        },
    }
}

/// What one attempt to mutate the store came to.
pub enum StoreOutcome {
    /// The value was written or deleted.
    Done,
    /// The value to delete was not there.
    Absent,
    /// The store refused; `os_code` is the operating system's error code, if any.
    Failed { os_code: Option<i32>, detail: String },
}

/// What to do after an attempt.
pub enum RetryStep {
    /// Stop, with this result for the caller.
    Finish(Result<(), String>),
    /// Wait this many milliseconds, then attempt again.
    RetryAfter(u64),
}

/// Decides, after attempt number `attempt` (from 0) came to `outcome`, whether
/// the mutation is over or is tried again after a linearly growing delay.
/// A missing value is no failure: disabling what is not registered succeeds.
pub fn after_attempt(attempt: u32, outcome: StoreOutcome) -> (r: RetryStep)
    requires
        attempt < MAX_ATTEMPTS,
    ensures
        match outcome {
            StoreOutcome::Done | StoreOutcome::Absent => r == RetryStep::Finish(Ok(())),
            StoreOutcome::Failed { os_code, detail } => if attempt + 1 < MAX_ATTEMPTS {
                match r {
                    RetryStep::RetryAfter(ms) => ms == RETRY_DELAY_MS * (attempt + 1),
                    _ => false,
                }
            } else {
                match r {
                    RetryStep::Finish(Err(m)) => m@ == write_failure_text(os_code, detail@),
                    _ => false,
                }
            },
        },
{
    match outcome {
        StoreOutcome::Done | StoreOutcome::Absent => RetryStep::Finish(Ok(())),
        StoreOutcome::Failed { os_code, detail } => {
            if attempt + 1 < MAX_ATTEMPTS {
                RetryStep::RetryAfter(RETRY_DELAY_MS * (attempt + 1) as u64)
            } else {
                let mut m = String::from_str(WRITE_FAILED);
                m.append(detail.as_str());
                if os_code == Some(ACCESS_DENIED_CODE) {
                    m.append(WRITE_DENIED_ADVICE);
                }
                RetryStep::Finish(Err(m))
            }
        },
    }
}

/// The error for a run store that could not be opened; an access-denied
/// failure carries advice on elevation and security software.
pub fn open_failure_message(os_code: Option<i32>, detail: &str) -> (r: String)
    ensures
        r@ == open_failure_text(os_code, detail@),
{
    let mut m = String::from_str(OPEN_FAILED);
    m.append(detail);
    if os_code == Some(ACCESS_DENIED_CODE) {
        m.append(OPEN_DENIED_ADVICE);
    }
    m
}

/// Enabling or disabling autostart where there is no run-at-login store:
/// always the unsupported-platform error.
pub fn set_autostart_impl(enabled: bool) -> (r: Result<(), String>)
    ensures
        match r {
            Err(m) => m@ == UNSUPPORTED_PLATFORM@,
            Ok(_) => false,
        },
{
    Err(String::from_str(UNSUPPORTED_PLATFORM))
}

/// Querying autostart where there is no run-at-login store: disabled.
pub fn is_autostart_enabled_impl() -> (r: Result<bool, String>)
    ensures
        r == Ok::<bool, String>(false),
{
    Ok(false)
}

/// The normalized form of a path is its own normal form, unless it begins or
/// ends with a double quote (as `""a""` normalizes to `"a"`).
pub proof fn lemma_normalize_idempotent(p: Seq<char>)
    requires
        !quote_at_an_end(normalize(p)),
    ensures
        normalize(normalize(p)) == normalize(p),
{
    let r = normalize(p);
    lemma_trim_is_trimmed(strip_one_quote(trim(p)));
    lemma_trimmed_fixed(r);
    assert(strip_one_quote(r) == r);
}

/// A store without a value under the application's name registers no
/// executable: autostart then reads as disabled.
pub proof fn lemma_absent_value_not_registered(exe: Seq<char>)
    ensures
        !registers(None, exe),
{
}

/// What enabling stores for an executable reads back as registering it,
/// provided its path normalizes to something non-empty and, once trimmed,
/// neither begins nor ends with a double quote.
pub proof fn lemma_registration_read_back(exe: Seq<char>)
    requires
        normalize(exe).len() > 0,
        !quote_at_an_end(trim(exe)),
    ensures
        registers(Some(registration_text(exe)), exe),
{
    lemma_trim_is_trimmed(exe);
    lemma_trimmed_fixed(trim(exe));
    assert(strip_one_quote(trim(exe)) == trim(exe));
    if exe.contains(' ') {
        let v = seq!['"'] + exe + seq!['"'];
        assert(v[0] == '"');
        assert(v.last() == '"');
        assert(trim_start(v) == v);
        assert(trim_end(v) == v);
        assert(v.drop_first().drop_last() =~= exe);
    }
}

proof fn lemma_trim_start_first(s: Seq<char>)
    ensures
        trim_start(s).len() > 0 ==> !is_space_char(trim_start(s)[0]),
        trim_start(s).len() <= s.len(),
    decreases s.len(),
{
    if s.len() > 0 && is_space_char(s[0]) {
        lemma_trim_start_first(s.drop_first());
    }
}

proof fn lemma_trim_end_prefix(s: Seq<char>)
    ensures
        trim_end(s).len() <= s.len(),
        trim_end(s) =~= s.subrange(0, trim_end(s).len() as int),
        trim_end(s).len() > 0 ==> !is_space_char(trim_end(s).last()),
    decreases s.len(),
{
    if s.len() > 0 && is_space_char(s.last()) {
        lemma_trim_end_prefix(s.drop_last());
    }
}

proof fn lemma_trim_is_trimmed(s: Seq<char>)
    ensures
        trim(s).len() > 0 ==> !is_space_char(trim(s)[0]) && !is_space_char(trim(s).last()),
{
    lemma_trim_start_first(s);
    lemma_trim_end_prefix(trim_start(s));
    if trim(s).len() > 0 {
        assert(trim(s)[0] == trim_start(s)[0]);
    }
}

proof fn lemma_trimmed_fixed(s: Seq<char>)
    requires
        s.len() > 0 ==> !is_space_char(s[0]) && !is_space_char(s.last()),
    ensures
        trim(s) == s,
{
}

} // verus!
