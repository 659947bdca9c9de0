use vstd::prelude::*;
use crate::text::{push_char, push_str};

verus! {

/// A settings file as a TOML document.
#[verifier::external_type_specification]
#[verifier::external_body]
pub struct ExDocumentMut(toml_edit::DocumentMut);

/// What a top-level entry of a settings document holds, as far as the
/// settings care: a string, a boolean, an array (each element's text when it
/// is a string), or something else.
pub enum TomlItem {
    Str(Seq<char>),
    Bool(bool),
    Array(Seq<Option<Seq<char>>>),
    Other,
}

/// The top-level entries of a document, by key.
pub uninterp spec fn toml_items(d: toml_edit::DocumentMut) -> Map<Seq<char>, TomlItem>;

/// The entries of the document that a text parses to (an empty one when
/// the text is no TOML).
pub uninterp spec fn parsed_items(text: Seq<char>) -> Map<Seq<char>, TomlItem>;

/// Parses a settings file (`text.parse::<toml_edit::DocumentMut>()`), or
/// starts an empty document when the text is no TOML.
#[verifier::external_body]
fn parse_document(text: &str) -> (r: toml_edit::DocumentMut)
    ensures
        toml_items(r) == parsed_items(text@),
{
    text.parse::<toml_edit::DocumentMut>().unwrap_or_default()
}

/// The string at `key` (`DocumentMut::get`, then `Item::as_str`).
#[verifier::external_body]
fn document_str(d: &toml_edit::DocumentMut, key: &str) -> (r: Option<String>)
    ensures
        match r {
            Some(s) => toml_items(*d).contains_key(key@) && toml_items(*d)[key@] == TomlItem::Str(s@),
            None => !(toml_items(*d).contains_key(key@) && toml_items(*d)[key@] is Str),
        },
{
    d.get(key).and_then(|x| x.as_str()).map(|x| x.to_owned())
}

/// The boolean at `key` (`DocumentMut::get`, then `Item::as_bool`).
#[verifier::external_body]
fn document_bool(d: &toml_edit::DocumentMut, key: &str) -> (r: Option<bool>)
    ensures
        match r {
            Some(b) => toml_items(*d).contains_key(key@) && toml_items(*d)[key@] == TomlItem::Bool(b),
            None => !(toml_items(*d).contains_key(key@) && toml_items(*d)[key@] is Bool),
        },
{
    d.get(key).and_then(|x| x.as_bool())
}

/// The array at `key`, each element's text when it is a string
/// (`DocumentMut::get`, `Item::as_array`, then `Value::as_str` on each).
#[verifier::external_body]
fn document_array(d: &toml_edit::DocumentMut, key: &str) -> (r: Option<Vec<Option<String>>>)
    ensures
        match r {
            Some(v) => toml_items(*d).contains_key(key@) && toml_items(*d)[key@] == TomlItem::Array(
                v@.map_values(|x: Option<String>| match x {
                    Some(s) => Some(s@),
                    None => None,
                }),
            ),
            None => !(toml_items(*d).contains_key(key@) && toml_items(*d)[key@] is Array),
        },
{
    d.get(key).and_then(|x| x.as_array()).map(|a| a.iter().map(|x| x.as_str().map(|s| s.to_owned())).collect())
}

/// Whether the document has an entry at `key` (`Table::get_mut` on its
/// root table finds one).
#[verifier::external_body]
fn document_contains(d: &mut toml_edit::DocumentMut, key: &str) -> (r: bool)
    ensures
        r == toml_items(*old(d)).contains_key(key@),
        toml_items(*final(d)) == toml_items(*old(d)),
{
    d.as_table_mut().get_mut(key).is_some()
}

/// Replaces the entry at `key`, which exists, by a string or a boolean
/// (`Table::get_mut`, then assignment of a new `Item`).
#[verifier::external_body]
fn document_replace(d: &mut toml_edit::DocumentMut, key: &str, value: SettingValue)
    requires
        toml_items(*old(d)).contains_key(key@),
    ensures
        toml_items(*final(d)) == toml_items(*old(d)).insert(key@, setting_item(value)),
{
    *d.as_table_mut().get_mut(key).unwrap() = match value {
        SettingValue::Str(s) => toml_edit::Item::Value(toml_edit::Value::String(toml_edit::Formatted::new(s))),
        SettingValue::Bool(b) => toml_edit::Item::Value(toml_edit::Value::Boolean(toml_edit::Formatted::new(b))),
    };
}

/// Adds an entry at `key` (`DocumentMut::insert`).
#[verifier::external_body]
fn document_insert(d: &mut toml_edit::DocumentMut, key: &str, value: SettingValue)
    ensures
        toml_items(*final(d)) == toml_items(*old(d)).insert(key@, setting_item(value)),
{
    let _ = d.insert(key, match value {
        SettingValue::Str(s) => toml_edit::Item::Value(toml_edit::Value::String(toml_edit::Formatted::new(s))),
        SettingValue::Bool(b) => toml_edit::Item::Value(toml_edit::Value::Boolean(toml_edit::Formatted::new(b))),
    });
}

/// Sorts the entries by key for printing (`DocumentMut::sort_values`); the
/// entries stay the same.
#[verifier::external_body]
fn document_sort_values(d: &mut toml_edit::DocumentMut)
    ensures
        toml_items(*final(d)) == toml_items(*old(d)),
{
    d.sort_values();
}

/// The text a document prints (`DocumentMut::to_string`), whose layout is
/// the crate's.
pub uninterp spec fn printed(d: toml_edit::DocumentMut) -> Seq<char>;

/// The text of the document (`DocumentMut::to_string`): the name `printed`
/// of the document.
#[verifier::external_body]
fn document_text(d: &toml_edit::DocumentMut) -> (r: String)
    ensures
        r@ == printed(*d),
{
    d.to_string()
}

/// A value the settings write.
#[derive(Clone, Debug)]
pub enum SettingValue {
    Str(String),
    Bool(bool),
}

/// The entry a written value becomes.
pub open spec fn setting_item(v: SettingValue) -> TomlItem {
    match v {
        SettingValue::Str(s) => TomlItem::Str(s@),
        SettingValue::Bool(b) => TomlItem::Bool(b),
    }
}

/// The string a JSON text stands for (`serde_json::from_str::<String>`),
/// when it is a JSON string.
pub uninterp spec fn json_string_of(text: Seq<char>) -> Option<Seq<char>>;

/// Reads a JSON text as a string, with `serde_json::from_str::<String>`.
#[verifier::external_body]
fn json_string_from_str(text: &str) -> (r: Option<String>)
    ensures
        match r {
            Some(s) => json_string_of(text@) == Some(s@),
            None => json_string_of(text@) is None,
        },
{
    serde_json::from_str::<String>(text).ok()
}

/// `text` between double quotes.
pub open spec fn quoted(text: Seq<char>) -> Seq<char> {
    seq!['"'] + text + seq!['"']
}

/// Reads `text` between double quotes as a JSON string literal.
fn json_unquote(text: &str) -> (r: Option<String>)
    ensures
        match r {
            Some(s) => json_string_of(quoted(text@)) == Some(s@),
            None => json_string_of(quoted(text@)) is None,
        },
{
    let mut literal = String::new();
    push_char(&mut literal, '"');
    push_str(&mut literal, text);
    push_char(&mut literal, '"');
    assert(literal@ =~= quoted(text@));
    json_string_from_str(literal.as_str())
}

/// Optional features of the client, named in kebab case in the settings.
#[derive(Clone, Copy, Debug, PartialEq, Eq, Structural)]
pub enum Features {
    /// "show-settings".
    ShowSettings,
}

/// The feature a name stands for.
pub open spec fn feature_named(name: Seq<char>) -> Option<Features> {
    if name == "show-settings"@ {
        Some(Features::ShowSettings)
    } else {
        None
    }
}

/// The feature a name stands for.
pub fn feature_from_name(name: &str) -> (r: Option<Features>)
    ensures
        r == feature_named(name@),
{
    let expected = "show-settings";
    proof {
        reveal_strlit("show-settings");
    }
    let n = name.unicode_len();
    if n != expected.unicode_len() {
        proof {
            assert(name@.len() != expected@.len());
        }
        return None;
    }
    let mut i: usize = 0;
    while i < n
        invariant
            n == name@.len(),
            n == expected@.len(),
            expected@ == "show-settings"@,
            i <= n,
            forall|j: int| 0 <= j < i ==> name@[j] == expected@[j],
        decreases n - i,
    {
        if name.get_char(i) != expected.get_char(i) {
            proof {
                assert(name@[i as int] != expected@[i as int]);
            }
            return None;
        }
        i = i + 1;
    }
    assert(name@ =~= expected@);
    Some(Features::ShowSettings)
}

/// The features listed at "features": each element that is a string is
/// read as the text of a JSON string and then as a feature name; the rest
/// is skipped.
pub open spec fn features_of(elems: Seq<Option<Seq<char>>>) -> Seq<Features>
    decreases elems.len(),
{
    if elems.len() == 0 {
        Seq::empty()
    } else {
        let rest = features_of(elems.drop_last());
        match elems.last() {
            Some(text) => match json_string_of(quoted(text)) {
                Some(name) => match feature_named(name) {
                    Some(f) => rest.push(f),
                    None => rest,
                },
                None => rest,
            },
            None => rest,
        }
    }
}

/// The settings key of the features.
pub const FEATURES: &'static str = "features";
/// The settings key of the LAN address.
pub const LAN_ADDRESS: &'static str = "lan_address";
/// The settings key of the LAN offline switch.
pub const LAN_OFFLINE: &'static str = "lan_offline";
/// The settings key of the shared room's name.
pub const SHARED_ROOM_NAME: &'static str = "shared_room_name";
/// The settings key of the reserved room's name.
pub const RESERVED_ROOM_NAME: &'static str = "reserved_room_name";
/// The LAN address when none is set.
pub const DEFAULT_LAN_ADDRESS: &'static str = "127.0.0.1:19000";
/// Whether the LAN connection is offline (without STUN) when nothing is
/// set: it is, so that a connection does not wait for an unreachable STUN
/// server.
pub const DEFAULT_LAN_OFFLINE: bool = true;

/// A setting read: its value and, when it had to be defaulted, the new
/// text of the settings file (the default is written back), which is what
/// the document `doc` prints.
pub struct SettingRead<T> {
    pub value: T,
    pub write: Option<String>,
    pub doc: Ghost<toml_edit::DocumentMut>,
}

/// The client's settings, stored in a TOML file at `path`. The caller
/// reads the file (an unreadable one counts as empty) and writes back the
/// texts returned.
pub struct SettingsRepo {
    path: String,
}

impl SettingsRepo {
    pub fn new(path: String) -> (r: SettingsRepo)
        ensures
            r.path_view() == path@,
    {
        SettingsRepo { path }
    }

    pub closed spec fn path_view(&self) -> Seq<char> {
        self.path@
    }

    /// Where the settings are stored.
    pub fn path(&self) -> (r: &str)
        ensures
            r@ == self.path_view(),
    {
        self.path.as_str()
    }

    /// The string set at `key`, if any.
    pub fn read_string(&self, text: &str, key: &str) -> (r: Option<String>)
        ensures
            match r {
                Some(s) => parsed_items(text@).contains_key(key@) && parsed_items(text@)[key@] == TomlItem::Str(s@),
                None => !(parsed_items(text@).contains_key(key@) && parsed_items(text@)[key@] is Str),
            },
    {
        let doc = parse_document(text);
        document_str(&doc, key)
    }

    /// The boolean set at `key`, if any.
    pub fn read_bool(&self, text: &str, key: &str) -> (r: Option<bool>)
        ensures
            match r {
                Some(b) => parsed_items(text@).contains_key(key@) && parsed_items(text@)[key@] == TomlItem::Bool(b),
                None => !(parsed_items(text@).contains_key(key@) && parsed_items(text@)[key@] is Bool),
            },
    {
        let doc = parse_document(text);
        document_bool(&doc, key)
    }

    /// The settings with `key` set to `value` (an existing entry is
    /// replaced in place), entries sorted.
    fn write_value(&self, text: &str, key: &str, value: SettingValue) -> (r: SettingWrite)
        ensures
            toml_items(r.doc@) == parsed_items(text@).insert(key@, setting_item(value)),
            r.text@ == printed(r.doc@),
    {
        let ghost item = setting_item(value);
        let mut doc = parse_document(text);
        if document_contains(&mut doc, key) {
            document_replace(&mut doc, key, value);
        } else {
            document_insert(&mut doc, key, value);
        }
        document_sort_values(&mut doc);
        let text = document_text(&doc);
        SettingWrite { text, doc: Ghost(doc) }
    }

    /// The features listed in the settings (see `features_of`); none when
    /// "features" is no array.
    pub fn features(&self, text: &str) -> (r: Vec<Features>)
        ensures
            r@ == match parsed_items(text@).get("features"@) {
                Some(TomlItem::Array(elems)) => features_of(elems),
                _ => Seq::empty(),
            },
    {
        proof {
            reveal_strlit("features");
        }
        let doc = parse_document(text);
        let elems = match document_array(&doc, FEATURES) {
            Some(v) => v,
            None => return Vec::new(),
        };
        let ghost ev = elems@.map_values(|x: Option<String>| match x {
            Some(s) => Some(s@),
            None => None,
        });
        let mut r: Vec<Features> = Vec::new();
        let mut i: usize = 0;
        while i < elems.len()
            invariant
                i <= elems@.len(),
                ev == elems@.map_values(|x: Option<String>| match x {
                    Some(s) => Some(s@),
                    None => None,
                }),
                r@ == features_of(ev.take(i as int)),
            decreases elems.len() - i,
        {
            assert(ev.take(i + 1).drop_last() =~= ev.take(i as int));
            match &elems[i] {
                Some(text) => match json_unquote(text.as_str()) {
                    Some(name) => match feature_from_name(name.as_str()) {
                        Some(f) => r.push(f),
                        None => {},
                    },
                    None => {},
                },
                None => {},
            }
            i = i + 1;
        }
        assert(ev.take(elems@.len() as int) =~= ev);
        r
    }

    /// A string setting, or its default, which is then written.
    fn string_or_default(&self, text: &str, key: &str, default: String) -> (r: SettingRead<String>)
        ensures
            match r.write {
                None => parsed_items(text@).contains_key(key@) && parsed_items(text@)[key@] == TomlItem::Str(r.value@),
                Some(w) => w@ == printed(r.doc@) && !(parsed_items(text@).contains_key(key@) && parsed_items(text@)[key@] is Str)
                    && r.value@ == default@ && toml_items(r.doc@) == parsed_items(text@).insert(key@, TomlItem::Str(default@)),
            },
    {
        match self.read_string(text, key) {
            Some(value) => SettingRead { value, write: None, doc: Ghost(vstd::pervasive::arbitrary()) },
            None => {
                let w = self.write_value(text, key, SettingValue::Str(default.clone()));
                SettingRead { value: default, write: Some(w.text), doc: w.doc }
            },
        }
    }

    /// The LAN address; when none is set, the default, written back.
    pub fn lan_address(&self, text: &str) -> (r: SettingRead<String>)
        ensures
            match r.write {
                None => parsed_items(text@).contains_key("lan_address"@) && parsed_items(text@)["lan_address"@]
                    == TomlItem::Str(r.value@),
                Some(w) => w@ == printed(r.doc@) && !(parsed_items(text@).contains_key("lan_address"@) && parsed_items(text@)["lan_address"@] is Str)
                    && r.value@ == "127.0.0.1:19000"@ && toml_items(r.doc@) == parsed_items(text@).insert(
                    "lan_address"@,
                    TomlItem::Str("127.0.0.1:19000"@),
                ),
            },
    {
        self.string_or_default(text, LAN_ADDRESS, DEFAULT_LAN_ADDRESS.to_string())
    }

    /// Sets the LAN address; returns the text to write.
    pub fn set_lan_address(&self, text: &str, value: String) -> (r: SettingWrite)
        ensures
            toml_items(r.doc@) == parsed_items(text@).insert("lan_address"@, TomlItem::Str(value@)),
            r.text@ == printed(r.doc@),
    {
        self.write_value(text, LAN_ADDRESS, SettingValue::Str(value))
    }

    /// Whether the LAN connection is offline; when nothing is set, the
    /// default (offline), written back.
    pub fn lan_offline(&self, text: &str) -> (r: SettingRead<bool>)
        ensures
            match r.write {
                None => parsed_items(text@).contains_key("lan_offline"@) && parsed_items(text@)["lan_offline"@]
                    == TomlItem::Bool(r.value),
                Some(w) => w@ == printed(r.doc@) && !(parsed_items(text@).contains_key("lan_offline"@) && parsed_items(text@)["lan_offline"@] is Bool)
                    && r.value == DEFAULT_LAN_OFFLINE && toml_items(r.doc@) == parsed_items(text@).insert(
                    "lan_offline"@,
                    TomlItem::Bool(DEFAULT_LAN_OFFLINE),
                ),
            },
    {
        match self.read_bool(text, LAN_OFFLINE) {
            Some(value) => SettingRead { value, write: None, doc: Ghost(vstd::pervasive::arbitrary()) },
            None => {
                let w = self.write_value(text, LAN_OFFLINE, SettingValue::Bool(DEFAULT_LAN_OFFLINE));
                SettingRead { value: DEFAULT_LAN_OFFLINE, write: Some(w.text), doc: w.doc }
            },
        }
    }

    /// Sets whether the LAN connection is offline; returns the text to
    /// write.
    pub fn set_lan_offline(&self, text: &str, value: bool) -> (r: SettingWrite)
        ensures
            toml_items(r.doc@) == parsed_items(text@).insert("lan_offline"@, TomlItem::Bool(value)),
            r.text@ == printed(r.doc@),
    {
        self.write_value(text, LAN_OFFLINE, SettingValue::Bool(value))
    }

    /// The reserved room's name; when none is set, the name the game shows,
    /// written back.
    pub fn reserved_room_name(&self, text: &str, game_room_name: String) -> (r: SettingRead<String>)
        ensures
            match r.write {
                None => parsed_items(text@).contains_key("reserved_room_name"@)
                    && parsed_items(text@)["reserved_room_name"@] == TomlItem::Str(r.value@),
                Some(w) => w@ == printed(r.doc@) && !(parsed_items(text@).contains_key("reserved_room_name"@)
                    && parsed_items(text@)["reserved_room_name"@] is Str) && r.value@ == game_room_name@ && toml_items(r.doc@)
                    == parsed_items(text@).insert("reserved_room_name"@, TomlItem::Str(game_room_name@)),
            },
    {
        self.string_or_default(text, RESERVED_ROOM_NAME, game_room_name)
    }

    /// Sets the reserved room's name; returns the text to write.
    pub fn set_reserved_room_name(&self, text: &str, value: String) -> (r: SettingWrite)
        ensures
            toml_items(r.doc@) == parsed_items(text@).insert("reserved_room_name"@, TomlItem::Str(value@)),
            r.text@ == printed(r.doc@),
    {
        self.write_value(text, RESERVED_ROOM_NAME, SettingValue::Str(value))
    }

    /// The shared room's name; when none is set, the name the game shows,
    /// written back.
    pub fn shared_room_name(&self, text: &str, game_room_name: String) -> (r: SettingRead<String>)
        ensures
            match r.write {
                None => parsed_items(text@).contains_key("shared_room_name"@)
                    && parsed_items(text@)["shared_room_name"@] == TomlItem::Str(r.value@),
                Some(w) => w@ == printed(r.doc@) && !(parsed_items(text@).contains_key("shared_room_name"@)
                    && parsed_items(text@)["shared_room_name"@] is Str) && r.value@ == game_room_name@ && toml_items(r.doc@)
                    == parsed_items(text@).insert("shared_room_name"@, TomlItem::Str(game_room_name@)),
            },
    {
        self.string_or_default(text, SHARED_ROOM_NAME, game_room_name)
    }

    /// Sets the shared room's name; returns the text to write.
    pub fn set_shared_room_name(&self, text: &str, value: String) -> (r: SettingWrite)
        ensures
            toml_items(r.doc@) == parsed_items(text@).insert("shared_room_name"@, TomlItem::Str(value@)),
            r.text@ == printed(r.doc@),
    {
        self.write_value(text, SHARED_ROOM_NAME, SettingValue::Str(value))
    }
}

/// Settings written: the text to store, which is what the document `doc`
/// prints (the text's layout is the TOML crate's).
pub struct SettingWrite {
    pub text: String,
    pub doc: Ghost<toml_edit::DocumentMut>,
}

/// Where the client keeps its files, under the user's roaming application
/// data directory `app_data_dir`: the settings file, the module directory
/// (which also holds the log), and the log file's name, for the DLL whose
/// file stem is `dll_stem`.
pub fn to_ini_file_path_log_dir_path_log_file_name(app_data_dir: &str, dll_stem: &str) -> (r: (String, String, String))
    ensures
        r.1@ == app_data_dir@ + "/ShanghaiAlice/th19/modules"@,
        r.0@ == r.1@ + "/"@ + dll_stem@ + ".ini"@,
        r.2@ == dll_stem@ + ".log"@,
{
    let mut module_dir = String::new();
    push_str(&mut module_dir, app_data_dir);
    push_str(&mut module_dir, "/ShanghaiAlice/th19/modules");
    let mut ini_file_path = String::new();
    push_str(&mut ini_file_path, module_dir.as_str());
    push_str(&mut ini_file_path, "/");
    push_str(&mut ini_file_path, dll_stem);
    push_str(&mut ini_file_path, ".ini");
    let mut log_file_name = String::new();
    push_str(&mut log_file_name, dll_stem);
    push_str(&mut log_file_name, ".log");
    proof {
        assert(module_dir@ =~= app_data_dir@ + "/ShanghaiAlice/th19/modules"@);
        assert(ini_file_path@ =~= module_dir@ + "/"@ + dll_stem@ + ".ini"@);
        assert(log_file_name@ =~= dll_stem@ + ".log"@);
    }
    (ini_file_path, module_dir, log_file_name)
}

} // verus!
