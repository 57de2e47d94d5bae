//! Commit signing: what a repository's configuration says of it, and what is written to
//! set it up.

use crate::text;
use crate::text::contains;
use vstd::prelude::*;
use vstd::string::StringExecFns;
use vstd::utf8;

verus! {

/// The signing key that is used until another one is set.
pub const DEFAULT_GPG_KEY: &'static str = "417CAB41FAB91318";

/// How far a repository is set up for signing.
pub struct GpgStatus {
    pub is_configured: bool,
    pub signing_key: Option<String>,
    pub auto_retrieve: bool,
}

/// A `GpgStatus` as characters.
pub struct GpgView {
    pub is_configured: bool,
    pub signing_key: Option<Seq<char>>,
    pub auto_retrieve: bool,
}

impl View for GpgStatus {
    type V = GpgView;

    open spec fn view(&self) -> GpgView {
        GpgView {
            is_configured: self.is_configured,
            signing_key: match self.signing_key {
                Some(k) => Some(k@),
                None => None,
            },
            auto_retrieve: self.auto_retrieve,
        }
    }
}

/// What the text of a configuration file says of signing with `key`. Without a text (there
/// is no file, or it cannot be read) nothing is set up.
pub open spec fn gpg_status_of(config: Option<Seq<char>>, key: Seq<char>) -> GpgView {
    match config {
        None => GpgView { is_configured: false, signing_key: None, auto_retrieve: false },
        Some(content) => {
            let has_key = text::holds_text(content, "signingkey = "@ + key);
            GpgView {
                is_configured: has_key && text::holds_text(content, "gpgsign = 1"@),
                signing_key: if has_key {
                    Some(key)
                } else {
                    None
                },
                auto_retrieve: text::holds_text(content, "autoKeyRetrieve = true"@)
                    || text::holds_text(content, "autoKeyRetrieve = 1"@),
            }
        },
    }
}

/// The value of a setting.
pub enum SettingValue {
    Number(i32),
    Text(String),
}

/// A setting that is written to a repository's configuration.
pub struct Setting {
    pub name: String,
    pub value: SettingValue,
}

/// The value of a setting as characters.
pub enum ValueView {
    Number(i32),
    Text(Seq<char>),
}

/// A setting as characters.
pub struct SettingView {
    pub name: Seq<char>,
    pub value: ValueView,
}

impl View for Setting {
    type V = SettingView;

    open spec fn view(&self) -> SettingView {
        SettingView {
            name: self.name@,
            value: match self.value {
                SettingValue::Number(n) => ValueView::Number(n),
                SettingValue::Text(t) => ValueView::Text(t@),
            },
        }
    }
}

/// The settings that make a repository sign with `key`, in the order in which they are
/// written.
pub open spec fn signing_settings(key: Seq<char>) -> Seq<SettingView> {
    seq![
        SettingView { name: "commit.gpgsign"@, value: ValueView::Number(1) },
        SettingView { name: "user.signingkey"@, value: ValueView::Text(key) },
        SettingView { name: "gpg.program"@, value: ValueView::Text("gpg"@) },
        SettingView { name: "gpg.autoKeyRetrieve"@, value: ValueView::Number(1) },
    ]
}

/// How a setting reads in a configuration file, below its section: the name after the
/// dot, an equals sign between blanks, and the value.
pub open spec fn config_line(s: SettingView) -> Seq<char> {
    let name = match text::find(s.name, "."@) {
        Some(i) => s.name.skip(i + 1),
        None => s.name,
    };
    name + " = "@ + match s.value {
        ValueView::Number(n) => if n < 0 {
            "-"@ + text::decimal((-n) as nat)
        } else {
            text::decimal(n as nat)
        },
        ValueView::Text(t) => t,
    }
}

/// Which of `count` settings is to be written next, where `done` have been tried and the last
/// step went well or not.
pub open spec fn setting_after(count: nat, done: nat, went_well: bool) -> Option<nat> {
    if went_well && done < count {
        Some(done)
    } else {
        None
    }
}

/// Whether the last eight bytes of `key` can be cut off between two characters.
pub open spec fn can_shorten(key: Seq<char>) -> bool {
    let bytes = utf8::encode_utf8(key);
    bytes.len() > 8 ==> utf8::is_char_boundary(bytes, bytes.len() - 8)
}

/// The last eight bytes of `key`, or all of it where it is shorter.
pub open spec fn short_key_of(key: Seq<char>) -> Seq<char> {
    let bytes = utf8::encode_utf8(key);
    if bytes.len() > 8 {
        utf8::decode_utf8(bytes.skip(bytes.len() - 8))
    } else {
        key
    }
}

/// A configuration that holds a line for each of the settings written for a key is
/// reported as fully set up for that key.
pub proof fn written_settings_are_recognised(content: Seq<char>, key: Seq<char>)
    requires
        forall|i: int|
            0 <= i < signing_settings(key).len() ==> text::holds_text(
                content,
                #[trigger] config_line(signing_settings(key)[i]),
            ),
    ensures
        gpg_status_of(Some(content), key) == (GpgView {
            is_configured: true,
            signing_key: Some(key),
            auto_retrieve: true,
        }),
{
    let s = signing_settings(key);
    reveal_strlit("commit.gpgsign");
    reveal_strlit("user.signingkey");
    reveal_strlit("gpg.autoKeyRetrieve");
    reveal_strlit(".");
    reveal_strlit(" = ");
    reveal_strlit("gpgsign = 1");
    reveal_strlit("signingkey = ");
    reveal_strlit("autoKeyRetrieve = 1");
    dot_at(s[0].name, 6);
    dot_at(s[1].name, 4);
    dot_at(s[3].name, 3);
    assert(text::decimal(1) =~= seq!['1']);
    assert(config_line(s[0]) =~= "gpgsign = 1"@);
    assert(config_line(s[1]) =~= "signingkey = "@ + key);
    assert(config_line(s[3]) =~= "autoKeyRetrieve = 1"@);
}

proof fn dot_at(name: Seq<char>, i: int)
    requires
        0 <= i < name.len(),
        name[i] == '.',
        forall|j: int| 0 <= j < i ==> name[j] != '.',
    ensures
        text::find(name, "."@) == Some(i),
{
    reveal_strlit(".");
    assert(name.subrange(i, i + 1) =~= "."@);
    assert(text::matches_at(name, "."@, i));
    assert forall|j: int| 0 <= j < i implies !#[trigger] text::matches_at(name, "."@, j) by {
        assert(name.subrange(j, j + 1)[0] == name[j]);
    }
    text::find_is_first(name, "."@);
}

/// A repository that is set up has the expected key; one that has it is set up or lacks
/// nothing but the switch for signing.
pub proof fn configured_implies_key(config: Option<Seq<char>>, key: Seq<char>)
    ensures
        gpg_status_of(config, key).is_configured ==> gpg_status_of(config, key).signing_key == Some(
            key,
        ),
        gpg_status_of(config, key).signing_key is Some && !gpg_status_of(config, key).is_configured
            ==> !text::holds_text(config->0, "gpgsign = 1"@),
{
}

/// Any key of ASCII characters can be shortened, and what is shown of a long one is its
/// last eight characters.
pub proof fn ascii_keys_shorten_to_last_eight(key: Seq<char>)
    requires
        utf8::is_ascii_chars(key),
    ensures
        can_shorten(key),
        short_key_of(key) == (if key.len() > 8 {
            key.skip(key.len() - 8)
        } else {
            key
        }),
{
    utf8::is_ascii_chars_encode_utf8(key);
    let bytes = utf8::encode_utf8(key);
    if key.len() > 8 {
        let tail = key.skip(key.len() - 8);
        utf8::is_ascii_chars_encode_utf8(tail);
        assert(utf8::encode_utf8(tail) =~= bytes.skip(bytes.len() - 8));
        utf8::encode_utf8_decode_utf8(tail);
        utf8::encode_utf8_valid_utf8(key);
        utf8::is_char_boundary_iff_not_is_continuation_byte(bytes, bytes.len() - 8);
    }
}

/// What is said of a configuration goes by the lines that it holds: the key is there exactly
/// where a line sets it, signing is on exactly where another switches it on as well, and keys
/// are retrieved exactly where a third says so in one of two ways.
pub proof fn status_goes_by_the_lines(content: Seq<char>, key: Seq<char>)
    ensures
        ({
            let status = gpg_status_of(Some(content), key);
            let has_key = text::holds_text(content, "signingkey = "@ + key);
            &&& status.signing_key is Some <==> has_key
            &&& status.signing_key is Some ==> status.signing_key->0 == key
            &&& status.is_configured <==> has_key && text::holds_text(content, "gpgsign = 1"@)
            &&& status.auto_retrieve <==> text::holds_text(content, "autoKeyRetrieve = true"@)
                || text::holds_text(content, "autoKeyRetrieve = 1"@)
        }),
        !gpg_status_of(None, key).is_configured,
        gpg_status_of(None, key).signing_key is None,
        !gpg_status_of(None, key).auto_retrieve,
{
}

/// Settings are written one after the other and none is left out, for as long as all goes
/// well: what comes after as many as were tried is the one of that index. After a failure, and
/// after the last, there is none.
pub proof fn settings_follow_one_another(count: nat, done: nat)
    ensures
        setting_after(count, done, true) is Some <==> done < count,
        setting_after(count, done, true) matches Some(i) ==> i == done,
        setting_after(count, done, false) is None,
{
}

/// More lines in a configuration never take away from what it is set up for.
pub proof fn more_lines_only_add(content: Seq<char>, more: Seq<char>, key: Seq<char>)
    ensures
        ({
            let a = gpg_status_of(Some(content), key);
            let b = gpg_status_of(Some(content + more), key);
            &&& a.is_configured ==> b.is_configured
            &&& a.signing_key is Some ==> b.signing_key is Some
            &&& a.auto_retrieve ==> b.auto_retrieve
        }),
{
    held_in_longer_text(content, more, "signingkey = "@ + key);
    held_in_longer_text(content, more, "gpgsign = 1"@);
    held_in_longer_text(content, more, "autoKeyRetrieve = true"@);
    held_in_longer_text(content, more, "autoKeyRetrieve = 1"@);
}

proof fn held_in_longer_text(content: Seq<char>, more: Seq<char>, pattern: Seq<char>)
    ensures
        text::holds_text(content, pattern) ==> text::holds_text(content + more, pattern),
{
    if text::holds_text(content, pattern) {
        let i = choose|i: int| #[trigger] text::matches_at(content, pattern, i);
        assert((content + more).subrange(i, i + pattern.len()) =~= content.subrange(
            i,
            i + pattern.len(),
        ));
        assert(text::matches_at(content + more, pattern, i));
    }
}

/// Four settings are written: signing is switched on before the key is set, then the program,
/// and then the retrieval of keys.
pub proof fn settings_in_order(key: Seq<char>)
    ensures
        ({
            let s = signing_settings(key);
            &&& s.len() == 4
            &&& s[0].name == "commit.gpgsign"@ && s[0].value == ValueView::Number(1)
            &&& s[1].name == "user.signingkey"@ && s[1].value == ValueView::Text(key)
            &&& s[2].name == "gpg.program"@ && s[2].value == ValueView::Text("gpg"@)
            &&& s[3].name == "gpg.autoKeyRetrieve"@ && s[3].value == ValueView::Number(1)
        }),
{
}

/// Of a key of more than eight bytes that can be shortened, what is shown is the end of it
/// that takes eight bytes; of a shorter one, all of it.
pub proof fn short_keys_end_the_key(key: Seq<char>)
    requires
        can_shorten(key),
    ensures
        ({
            let n = utf8::encode_utf8(key).len();
            let short = short_key_of(key);
            &&& n <= 8 ==> short == key
            &&& n > 8 ==> text::ends_with(key, short) && utf8::encode_utf8(short).len() == 8
        }),
{
    let bytes = utf8::encode_utf8(key);
    if bytes.len() > 8 {
        let at = bytes.len() - 8;
        let head = bytes.subrange(0, at);
        let tail = bytes.subrange(at, bytes.len() as int);
        assert(bytes.skip(at) =~= tail);
        utf8::encode_utf8_valid_utf8(key);
        utf8::valid_utf8_split(bytes, at);
        utf8::decode_utf8_split(bytes, at);
        utf8::encode_utf8_decode_utf8(key);
        utf8::decode_utf8_encode_utf8(tail);
        let front = utf8::decode_utf8(head);
        let short = short_key_of(key);
        assert(key =~= front + short);
        assert(key.skip(key.len() - short.len()) =~= short);
    }
}

/// A key can be shortened exactly where it takes no more than eight bytes or has an end that
/// takes eight: wherever there is such an end, that is what is shown.
pub proof fn ends_of_eight_bytes_are_shown(front: Seq<char>, end: Seq<char>)
    requires
        utf8::encode_utf8(end).len() == 8,
    ensures
        can_shorten(front + end),
        short_key_of(front + end) == end,
{
    let key = front + end;
    let bytes = utf8::encode_utf8(key);
    encoded_one_after_the_other(front, end);
    utf8::encode_utf8_valid_utf8(key);
    utf8::encode_utf8_decode_utf8(end);
    let at = bytes.len() - 8;
    assert(bytes.skip(at) =~= utf8::encode_utf8(end));
    if front.len() == 0 {
        assert(key =~= end);
    } else {
        utf8::encode_utf8_first_scalar(end);
        assert(bytes[at] == utf8::encode_utf8(end)[0]);
        utf8::is_char_boundary_iff_not_is_continuation_byte(bytes, at);
        if bytes.len() <= 8 {
            utf8::encode_utf8_first_scalar(front);
        }
    }
}

/// Any key of at most eight bytes can be shortened.
pub proof fn small_keys_can_be_shortened(key: Seq<char>)
    requires
        utf8::encode_utf8(key).len() <= 8,
    ensures
        can_shorten(key),
        short_key_of(key) == key,
{
}

proof fn encoded_one_after_the_other(a: Seq<char>, b: Seq<char>)
    ensures
        utf8::encode_utf8(a + b) == utf8::encode_utf8(a) + utf8::encode_utf8(b),
    decreases a.len(),
{
    if a.len() == 0 {
        assert(a + b =~= b);
        assert(utf8::encode_utf8(a) + utf8::encode_utf8(b) =~= utf8::encode_utf8(b));
    } else {
        assert((a + b).drop_first() =~= a.drop_first() + b);
        encoded_one_after_the_other(a.drop_first(), b);
        let first = utf8::encode_scalar(a[0] as u32);
        assert(first + (utf8::encode_utf8(a.drop_first()) + utf8::encode_utf8(b)) =~= first
            + utf8::encode_utf8(a.drop_first()) + utf8::encode_utf8(b));
    }
}

/// The views of states and settings hide nothing of them.
pub proof fn signing_views_hide_nothing(status: GpgStatus, setting: Setting)
    ensures
        status@.is_configured == status.is_configured,
        status@.auto_retrieve == status.auto_retrieve,
        status@.signing_key is Some <==> status.signing_key is Some,
        status.signing_key matches Some(k) ==> status@.signing_key == Some(k@),
        setting@.name == setting.name@,
        setting.value matches SettingValue::Number(n) ==> setting@.value == ValueView::Number(n),
        setting.value matches SettingValue::Text(t) ==> setting@.value == ValueView::Text(t@),
{
}

/// How far a repository is set up to sign with `expected_key`; `config` is the text of
/// its configuration file, where there is one to be read.
pub fn check_gpg_status(config: Option<&str>, expected_key: &str) -> (r: GpgStatus)
    ensures
        r@ == gpg_status_of(
            match config {
                Some(c) => Some(c@),
                None => None,
            },
            expected_key@,
        ),
{
    match config {
        None => GpgStatus { is_configured: false, signing_key: None, auto_retrieve: false },
        Some(content) => {
            let wanted = "signingkey = ".to_string().concat(expected_key);
            let has_signing_key = contains(content, wanted.as_str());
            let has_gpgsign = contains(content, "gpgsign = 1");
            let has_auto_retrieve = contains(content, "autoKeyRetrieve = true") || contains(
                content,
                "autoKeyRetrieve = 1",
            );
            GpgStatus {
                is_configured: has_signing_key && has_gpgsign,
                signing_key: if has_signing_key {
                    Some(expected_key.to_string())
                } else {
                    None
                },
                auto_retrieve: has_auto_retrieve,
            }
        },
    }
}

/// The settings to write, in order, so that a repository signs with `key`.
pub fn gpg_settings(key: &str) -> (r: Vec<Setting>)
    ensures
        r@.map_values(|s: Setting| s@) == signing_settings(key@),
{
    let mut r: Vec<Setting> = Vec::new();
    r.push(Setting { name: "commit.gpgsign".to_string(), value: SettingValue::Number(1) });
    r.push(
        Setting {
            name: "user.signingkey".to_string(),
            value: SettingValue::Text(key.to_string()),
        },
    );
    r.push(
        Setting { name: "gpg.program".to_string(), value: SettingValue::Text("gpg".to_string()) },
    );
    r.push(Setting { name: "gpg.autoKeyRetrieve".to_string(), value: SettingValue::Number(1) });
    assert(r@.map_values(|s: Setting| s@) =~= signing_settings(key@));
    r
}

/// Which of the settings is to be written next to a repository, where `done` of them have
/// been tried and the last step went well or not: the first failure ends the writes.
pub fn next_setting(settings: &Vec<Setting>, done: usize, went_well: bool) -> (r: Option<usize>)
    ensures
        r == (if went_well && done < settings@.len() {
            Some(done)
        } else {
            None
        }),
        match r {
            Some(i) => setting_after(settings@.len(), done as nat, went_well) == Some(i as nat),
            None => setting_after(settings@.len(), done as nat, went_well) is None,
        },
{
    if went_well && done < settings.len() {
        Some(done)
    } else {
        None
    }
}

/// Whether `short_key` can be asked for: it cannot where the eighth byte from the end
/// stands inside a character.
pub fn key_can_shorten(key: &str) -> (r: bool)
    ensures
        r == can_shorten(key@),
{
    let n: usize = key.as_bytes().len();
    n <= 8 || key.is_char_boundary(n - 8)
}

/// The last eight bytes of `key`, or all of it where it is shorter.
pub fn short_key(key: &str) -> (r: String)
    requires
        can_shorten(key@),
    ensures
        r@ == short_key_of(key@),
{
    let n: usize = key.as_bytes().len();
    if n > 8 {
        let (_, tail) = key.split_at(n - 8);
        proof {
            utf8::encode_utf8_decode_utf8(tail@);
            assert(utf8::encode_utf8(key@).subrange(n - 8, n as int) =~= utf8::encode_utf8(
                key@,
            ).skip(n - 8));
        }
        tail.to_string()
    } else {
        key.to_string()
    }
}

} // verus!
