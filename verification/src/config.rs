//! The configuration store: strings and lists, each under a section and a key, kept in a
//! TOML table of sections.

use crate::text::{join3, join4, join5};
use vstd::prelude::*;

verus! {

/// A value of TOML, opaque to the verifier.
#[verifier::external_type_specification]
#[verifier::external_body]
pub struct ExTomlValue(toml::Value);

/// The map of TOML, of which a table is one with strings as keys; opaque to the verifier.
#[verifier::external_type_specification]
#[verifier::external_body]
#[verifier::reject_recursive_types(K)]
#[verifier::reject_recursive_types(V)]
pub struct ExTomlMap<K, V>(toml::map::Map<K, V>);

/// The mathematical content of a TOML value, as far as the configuration looks into it.
pub enum TomlData {
    /// A string.
    Text(Seq<char>),
    /// An array.
    List(Seq<TomlData>),
    /// A table.
    Table(Map<Seq<char>, TomlData>),
    /// A value of any other kind.
    Other,
}

/// What a TOML value holds.
pub uninterp spec fn toml_data(value: toml::Value) -> TomlData;

/// What a TOML table holds: its values by their keys.
pub uninterp spec fn table_data(table: toml::map::Map<String, toml::Value>) -> Map<
    Seq<char>,
    TomlData,
>;

/// The table without entries.
pub open spec fn no_entries() -> Map<Seq<char>, TomlData> {
    Map::empty()
}

/// The contents of a vector of TOML values.
pub open spec fn array_data(items: Seq<toml::Value>) -> Seq<TomlData> {
    Seq::new(items.len(), |i: int| toml_data(items[i]))
}

/// An empty table.
///
/// Wraps `toml::map::Map::new`.
#[verifier::external_body]
pub(crate) fn table_new() -> (made: toml::map::Map<String, toml::Value>)
    ensures
        table_data(made) == no_entries(),
{
    toml::map::Map::new()
}

/// The value under a key of a table.
///
/// Wraps `toml::map::Map::get`: the value where the table has the key, `None` where not.
#[verifier::external_body]
pub(crate) fn table_get<'a>(table: &'a toml::map::Map<String, toml::Value>, key: &str) -> (found:
    Option<&'a toml::Value>)
    ensures
        match found {
            Some(value) => table_data(*table).contains_key(key@) && table_data(*table)[key@]
                == toml_data(*value),
            None => !table_data(*table).contains_key(key@),
        },
{
    table.get(key)
}

/// Puts a value under a key of a table, in place of the one that was there.
///
/// Wraps `toml::map::Map::insert`; the value that it hands back is dropped.
#[verifier::external_body]
pub(crate) fn table_insert(
    table: &mut toml::map::Map<String, toml::Value>,
    key: &str,
    value: toml::Value,
)
    ensures
        table_data(*final(table)) == table_data(*old(table)).insert(key@, toml_data(value)),
{
    table.insert(key.to_owned(), value);
}

/// A copy of a table.
///
/// Wraps `clone` on `toml::map::Map`.
#[verifier::external_body]
pub(crate) fn table_clone(table: &toml::map::Map<String, toml::Value>) -> (copy: toml::map::Map<
    String,
    toml::Value,
>)
    ensures
        table_data(copy) == table_data(*table),
{
    table.clone()
}

/// The table that a value is.
///
/// Wraps `toml::Value::as_table`: the table of a table, `None` for any other value.
#[verifier::external_body]
pub(crate) fn value_as_table<'a>(value: &'a toml::Value) -> (table: Option<
    &'a toml::map::Map<String, toml::Value>,
>)
    ensures
        match table {
            Some(t) => toml_data(*value) == TomlData::Table(table_data(*t)),
            None => !(toml_data(*value) is Table),
        },
{
    value.as_table()
}

/// The string that a value is.
///
/// Wraps `toml::Value::as_str`: the text of a string, `None` for any other value.
#[verifier::external_body]
pub(crate) fn value_as_str<'a>(value: &'a toml::Value) -> (text: Option<&'a str>)
    ensures
        match text {
            Some(s) => toml_data(*value) == TomlData::Text(s@),
            None => !(toml_data(*value) is Text),
        },
{
    value.as_str()
}

/// The array that a value is.
///
/// Wraps `toml::Value::as_array`: the items of an array, `None` for any other value.
#[verifier::external_body]
pub(crate) fn value_as_array<'a>(value: &'a toml::Value) -> (items: Option<&'a Vec<toml::Value>>)
    ensures
        match items {
            Some(v) => toml_data(*value) == TomlData::List(array_data(v@)),
            None => !(toml_data(*value) is List),
        },
{
    value.as_array()
}

/// A string as a value.
///
/// Wraps `toml::Value::from` on a string slice.
#[verifier::external_body]
pub(crate) fn value_string(text: &str) -> (value: toml::Value)
    ensures
        toml_data(value) == TomlData::Text(text@),
{
    toml::Value::from(text)
}

/// A table as a value.
///
/// Wraps `toml::Value::from` on a table.
#[verifier::external_body]
pub(crate) fn value_table(table: toml::map::Map<String, toml::Value>) -> (value: toml::Value)
    ensures
        toml_data(value) == TomlData::Table(table_data(table)),
{
    toml::Value::from(table)
}

/// A vector of values as an array.
///
/// Wraps `toml::Value::from` on a vector of values.
#[verifier::external_body]
pub(crate) fn value_array(items: Vec<toml::Value>) -> (value: toml::Value)
    ensures
        toml_data(value) == TomlData::List(array_data(items@)),
{
    toml::Value::from(items)
}

/// One item of a list in the configuration.
#[derive(Clone, Debug)]
pub enum ConfigItem {
    /// A string.
    Text(String),
    /// A value of any other kind.
    Other,
}

/// The mathematical content of a `ConfigItem`.
pub enum ItemView {
    Text(Seq<char>),
    Other,
}

/// The mathematical content of a value in the configuration.
pub enum ValueView {
    Text(Seq<char>),
    List(Seq<ItemView>),
    Other,
}

impl View for ConfigItem {
    type V = ItemView;

    open spec fn view(&self) -> ItemView {
        match self {
            ConfigItem::Text(s) => ItemView::Text(s@),
            ConfigItem::Other => ItemView::Other,
        }
    }
}

/// The contents of a list of items.
pub open spec fn item_views(items: Seq<ConfigItem>) -> Seq<ItemView> {
    Seq::new(items.len(), |i: int| items[i]@)
}

/// A TOML value as an item of a list: a string, or a value of another kind.
pub open spec fn item_of(data: TomlData) -> ItemView {
    match data {
        TomlData::Text(s) => ItemView::Text(s),
        _ => ItemView::Other,
    }
}

/// A TOML value as a value of the configuration: a string, a list, or a value of another
/// kind.
pub open spec fn value_of(data: TomlData) -> ValueView {
    match data {
        TomlData::Text(s) => ValueView::Text(s),
        TomlData::List(items) => ValueView::List(Seq::new(items.len(), |i: int| item_of(items[i]))),
        _ => ValueView::Other,
    }
}

/// The sections of a table: the keys under which tables stand.
pub open spec fn sections_of(data: Map<Seq<char>, TomlData>) -> Set<Seq<char>> {
    Set::new(|section: Seq<char>| data.contains_key(section) && data[section] is Table)
}

/// Whether a value stands under a section and key of a table.
pub open spec fn has_value(data: Map<Seq<char>, TomlData>, place: (Seq<char>, Seq<char>)) -> bool {
    data.contains_key(place.0) && data[place.0] is Table && data[place.0]->Table_0.contains_key(
        place.1,
    )
}

/// The values in the sections of a table, by section and key.
pub open spec fn values_of(data: Map<Seq<char>, TomlData>) -> Map<
    (Seq<char>, Seq<char>),
    ValueView,
> {
    Map::new(
        |place: (Seq<char>, Seq<char>)| has_value(data, place),
        |place: (Seq<char>, Seq<char>)| value_of(data[place.0]->Table_0[place.1]),
    )
}

/// The configuration: a table of sections, each a table of values, and the path of the
/// file that the table is kept in.
#[derive(Debug)]
pub struct ConfigHandler {
    pub toml_data: toml::map::Map<String, toml::Value>,
    pub file_path: String,
}

/// `Section "[<section>]" does not exist.`
pub open spec fn no_section_message(section: Seq<char>) -> Seq<char> {
    "Section \"["@ + section + "]\" does not exist."@
}

/// `Key "<key>" in section "[<section>]" does not exist.`
pub open spec fn no_key_message(section: Seq<char>, key: Seq<char>) -> Seq<char> {
    "Key \""@ + key + "\" in section \"["@ + section + "]\" does not exist."@
}

/// `The "<key>" field in "[<section>]" of the config does not represent a string.`
pub open spec fn not_a_string_message(section: Seq<char>, key: Seq<char>) -> Seq<char> {
    "The \""@ + key + "\" field in \"["@ + section
        + "]\" of the config does not represent a string."@
}

/// `The "<key>" field in "[<section>]" of the config does not represent an array.`
pub open spec fn not_an_array_message(section: Seq<char>, key: Seq<char>) -> Seq<char> {
    "The \""@ + key + "\" field in \"["@ + section
        + "]\" of the config does not represent an array."@
}

/// `Error getting the value of "<key>" from the config which is required: <error>`
pub open spec fn required_message(key: Seq<char>, error: Seq<char>) -> Seq<char> {
    "Error getting the value of \""@ + key + "\" from the config which is required: "@ + error
}

/// `Required config value of "<key>" must be non-empty.`
pub open spec fn empty_message(key: Seq<char>) -> Seq<char> {
    "Required config value of \""@ + key + "\" must be non-empty."@
}

/// The content of a result that holds strings on both sides.
pub open spec fn text_result(r: Result<String, String>) -> Result<Seq<char>, Seq<char>> {
    match r {
        Ok(s) => Ok(s@),
        Err(e) => Err(e@),
    }
}

/// The content of a result that holds a list or a message.
pub open spec fn list_result(r: Result<Vec<ConfigItem>, String>) -> Result<Seq<ItemView>, Seq<char>> {
    match r {
        Ok(items) => Ok(item_views(items@)),
        Err(e) => Err(e@),
    }
}

/// The strings of a list as items.
pub open spec fn text_items(strings: Seq<String>) -> Seq<ItemView> {
    Seq::new(strings.len(), |i: int| ItemView::Text(strings[i]@))
}

/// The mathematical content of a configuration: the sections that exist, the values by
/// section and key, and where the configuration is kept.
pub struct ConfigView {
    pub sections: Set<Seq<char>>,
    pub values: Map<(Seq<char>, Seq<char>), ValueView>,
    pub file_path: Seq<char>,
}

impl ConfigView {
    /// The configuration with `value` under a section and key; the section exists with it.
    pub open spec fn with_value(self, section: Seq<char>, key: Seq<char>, value: ValueView) -> ConfigView {
        ConfigView {
            sections: self.sections.insert(section),
            values: self.values.insert((section, key), value),
            file_path: self.file_path,
        }
    }

    /// The configuration with `value` under a section and key where nothing stood there;
    /// the configuration as it is where something did.
    pub open spec fn with_default(self, section: Seq<char>, key: Seq<char>, value: ValueView) -> ConfigView {
        if self.values.contains_key((section, key)) {
            self
        } else {
            self.with_value(section, key, value)
        }
    }

    /// The configuration after the string under a section and key was asked for: an empty
    /// string stands there where nothing stood.
    pub open spec fn with_default_string(self, section: Seq<char>, key: Seq<char>) -> ConfigView {
        self.with_default(section, key, ValueView::Text(Seq::empty()))
    }

    /// The configuration after the list under a section and key was asked for: an empty list
    /// stands there where nothing stood.
    pub open spec fn with_default_list(self, section: Seq<char>, key: Seq<char>) -> ConfigView {
        self.with_default(section, key, ValueView::List(Seq::empty()))
    }

    /// What `get_string` gives for a section and key: the string that stands there, the
    /// empty string where nothing stands there, and a complaint where the value is no string.
    pub open spec fn string_at(self, section: Seq<char>, key: Seq<char>) -> Result<
        Seq<char>,
        Seq<char>,
    > {
        if !self.values.contains_key((section, key)) {
            Ok(Seq::empty())
        } else {
            match self.values[(section, key)] {
                ValueView::Text(s) => Ok(s),
                _ => Err(not_a_string_message(section, key)),
            }
        }
    }

    /// What `get_array` gives for a section and key: the list that stands there, the empty
    /// list where nothing stands there, and a complaint where the value is no list.
    pub open spec fn list_at(self, section: Seq<char>, key: Seq<char>) -> Result<
        Seq<ItemView>,
        Seq<char>,
    > {
        if !self.values.contains_key((section, key)) {
            Ok(Seq::empty())
        } else {
            match self.values[(section, key)] {
                ValueView::List(items) => Ok(items),
                _ => Err(not_an_array_message(section, key)),
            }
        }
    }

    /// The string that stands under a section and key, or the message that says what is
    /// missing: the section, the key, or a string as the value.
    pub open spec fn found_string_at(self, section: Seq<char>, key: Seq<char>) -> Result<
        Seq<char>,
        Seq<char>,
    > {
        if !self.sections.contains(section) {
            Err(no_section_message(section))
        } else if !self.values.contains_key((section, key)) {
            Err(no_key_message(section, key))
        } else {
            match self.values[(section, key)] {
                ValueView::Text(s) => Ok(s),
                _ => Err(not_a_string_message(section, key)),
            }
        }
    }

    /// The list that stands under a section and key, or the message that says what is
    /// missing: the section, the key, or a list as the value.
    pub open spec fn found_list_at(self, section: Seq<char>, key: Seq<char>) -> Result<
        Seq<ItemView>,
        Seq<char>,
    > {
        if !self.sections.contains(section) {
            Err(no_section_message(section))
        } else if !self.values.contains_key((section, key)) {
            Err(no_key_message(section, key))
        } else {
            match self.values[(section, key)] {
                ValueView::List(items) => Ok(items),
                _ => Err(not_an_array_message(section, key)),
            }
        }
    }

    /// A required string: the string that stands there, or the message with which the
    /// program gives up. A string that is missing is not made up.
    pub open spec fn required_string_at(self, section: Seq<char>, key: Seq<char>) -> Result<
        Seq<char>,
        Seq<char>,
    > {
        match self.found_string_at(section, key) {
            Ok(s) => Ok(s),
            Err(e) => Err(required_message(key, e)),
        }
    }

    /// A required list: the list that stands there, or the message with which the program
    /// gives up. A list that is missing is not made up.
    pub open spec fn required_list_at(self, section: Seq<char>, key: Seq<char>) -> Result<
        Seq<ItemView>,
        Seq<char>,
    > {
        match self.found_list_at(section, key) {
            Ok(items) => Ok(items),
            Err(e) => Err(required_message(key, e)),
        }
    }

    /// Whether a user may run restricted commands: the owner always, anyone else where the
    /// whitelist names them. An error where the owner's name or the whitelist is missing.
    pub open spec fn whitelisted(self, user: Seq<char>) -> Result<bool, Seq<char>> {
        match self.required_string_at("config"@, "github_owner_name"@) {
            Err(e) => Err(e),
            Ok(owner) => if owner == user {
                Ok(true)
            } else {
                match self.required_list_at("config"@, "whitelist"@) {
                    Err(e) => Err(e),
                    Ok(items) => Ok(items.contains(ItemView::Text(user))),
                }
            },
        }
    }

    /// Why a required string fails the validation: it cannot be had, or it is empty.
    pub open spec fn missing(self, key: Seq<char>) -> Option<Seq<char>> {
        match self.required_string_at("config"@, key) {
            Err(e) => Some(e),
            Ok(s) => if s.len() == 0 {
                Some(empty_message(key))
            } else {
                None
            },
        }
    }

    /// The outcome of the validation: the first complaint, in the order of the checks.
    pub open spec fn validation(self) -> Result<(), Seq<char>> {
        if self.missing("github_bot_name"@) is Some {
            Err(self.missing("github_bot_name"@)->0)
        } else if self.missing("github_bot_token"@) is Some {
            Err(self.missing("github_bot_token"@)->0)
        } else if self.missing("github_follow_repo"@) is Some {
            Err(self.missing("github_follow_repo"@)->0)
        } else if self.missing("github_owner_name"@) is Some {
            Err(self.missing("github_owner_name"@)->0)
        } else if self.missing("github_owner_token"@) is Some {
            Err(self.missing("github_owner_token"@)->0)
        } else if self.missing("listen_port"@) is Some {
            Err(self.missing("listen_port"@)->0)
        } else if self.missing("local_ip_address"@) is Some {
            Err(self.missing("local_ip_address"@)->0)
        } else if self.missing("public_ip_address"@) is Some {
            Err(self.missing("public_ip_address"@)->0)
        } else {
            match self.required_list_at("config"@, "whitelist"@) {
                Err(e) => Err(e),
                Ok(_) => Ok(()),
            }
        }
    }
}

impl View for ConfigHandler {
    type V = ConfigView;

    open spec fn view(&self) -> ConfigView {
        ConfigView {
            sections: sections_of(table_data(self.toml_data)),
            values: values_of(table_data(self.toml_data)),
            file_path: self.file_path@,
        }
    }
}

impl Clone for ConfigHandler {
    /// A copy that holds what the configuration holds.
    fn clone(&self) -> (copy: ConfigHandler)
        ensures
            copy@ == self@,
    {
        ConfigHandler { toml_data: table_clone(&self.toml_data), file_path: self.file_path.clone() }
    }
}

impl ConfigHandler {
    /// An empty configuration.
    pub fn new() -> (config: ConfigHandler)
        ensures
            config@ == (ConfigView {
                sections: Set::empty(),
                values: Map::empty(),
                file_path: Seq::empty(),
            }),
    {
        let config = ConfigHandler { toml_data: table_new(), file_path: String::new() };
        assert(config@.sections =~= Set::<Seq<char>>::empty());
        assert(config@.values =~= Map::<(Seq<char>, Seq<char>), ValueView>::empty());
        config
    }

    /// The table of a section, if the section exists.
    pub fn section_table<'a>(&'a self, section: &str) -> (table: Option<
        &'a toml::map::Map<String, toml::Value>,
    >)
        ensures
            table is Some <==> self@.sections.contains(section@),
            table is Some ==> table_data(self.toml_data)[section@] == TomlData::Table(
                table_data(*table->0),
            ),
    {
        match table_get(&self.toml_data, section) {
            None => None,
            Some(value) => value_as_table(value),
        }
    }

    /// Whether a section of this name exists.
    pub fn section_exists(&self, section: &str) -> (exists: bool)
        ensures
            exists == self@.sections.contains(section@),
    {
        self.section_table(section).is_some()
    }

    /// The value under a section and key, if there is one.
    pub fn find_value<'a>(&'a self, section: &str, key: &str) -> (found: Option<&'a toml::Value>)
        ensures
            found is Some <==> self@.values.contains_key((section@, key@)),
            found is Some ==> self@.values[(section@, key@)] == value_of(toml_data(*found->0)),
    {
        match self.section_table(section) {
            None => None,
            Some(table) => table_get(table, key),
        }
    }

    /// The items of an array, each as a string or as a value of another kind.
    pub fn items_of(values: &Vec<toml::Value>) -> (items: Vec<ConfigItem>)
        ensures
            ValueView::List(item_views(items@)) == value_of(TomlData::List(array_data(values@))),
    {
        let mut items: Vec<ConfigItem> = Vec::new();
        let mut i: usize = 0;
        while i < values.len()
            invariant
                i <= values.len(),
                items@.len() == i,
                forall|k: int| 0 <= k < i ==> items@[k]@ == item_of(toml_data(values@[k])),
            decreases values.len() - i,
        {
            let item = match value_as_str(&values[i]) {
                Some(s) => ConfigItem::Text(s.to_owned()),
                None => ConfigItem::Other,
            };
            items.push(item);
            i += 1;
        }
        assert(item_views(items@) =~= Seq::new(
            array_data(values@).len(),
            |k: int| item_of(array_data(values@)[k]),
        ));
        items
    }

    /// The string that stands under a section and key; nothing is made up.
    ///
    /// Fails with a message where the section or the key is missing, or the value is no string.
    pub fn find_string(&self, section: &str, key: &str) -> (found: Result<String, String>)
        ensures
            text_result(found) == self@.found_string_at(section@, key@),
    {
        if !self.section_exists(section) {
            return Err(join3("Section \"[", section, "]\" does not exist."));
        }
        match self.find_value(section, key) {
            None => Err(join5("Key \"", key, "\" in section \"[", section, "]\" does not exist.")),
            Some(value) => match value_as_str(value) {
                Some(s) => Ok(s.to_owned()),
                None => Err(
                    join5(
                        "The \"",
                        key,
                        "\" field in \"[",
                        section,
                        "]\" of the config does not represent a string.",
                    ),
                ),
            },
        }
    }

    /// The list that stands under a section and key; nothing is made up.
    ///
    /// Fails with a message where the section or the key is missing, or the value is no list.
    pub fn find_array(&self, section: &str, key: &str) -> (found: Result<Vec<ConfigItem>, String>)
        ensures
            list_result(found) == self@.found_list_at(section@, key@),
    {
        if !self.section_exists(section) {
            return Err(join3("Section \"[", section, "]\" does not exist."));
        }
        match self.find_value(section, key) {
            None => Err(join5("Key \"", key, "\" in section \"[", section, "]\" does not exist.")),
            Some(value) => match value_as_array(value) {
                Some(values) => Ok(Self::items_of(values)),
                None => Err(
                    join5(
                        "The \"",
                        key,
                        "\" field in \"[",
                        section,
                        "]\" of the config does not represent an array.",
                    ),
                ),
            },
        }
    }

    /// The string under a section and key. Where nothing stands there, the empty string is
    /// put there, the section coming into being with it, and is the answer.
    ///
    /// Fails with a message where the value is no string; the configuration then stays as it
    /// is, as it does where a string was found.
    pub fn get_string(&mut self, section: &str, key: &str) -> (found: Result<String, String>)
        ensures
            text_result(found) == old(self)@.string_at(section@, key@),
            final(self)@ == old(self)@.with_default_string(section@, key@),
            old(self)@.values.contains_key((section@, key@)) ==> *final(self) == *old(self),
    {
        match self.find_value(section, key) {
            Some(value) => match value_as_str(value) {
                Some(s) => Ok(s.to_owned()),
                None => Err(
                    join5(
                        "The \"",
                        key,
                        "\" field in \"[",
                        section,
                        "]\" of the config does not represent a string.",
                    ),
                ),
            },
            None => {
                let empty = String::new();
                self.set_string(section, key, empty.as_str());
                Ok(empty)
            },
        }
    }

    /// The list under a section and key. Where nothing stands there, the empty list is put
    /// there, the section coming into being with it, and is the answer.
    ///
    /// Fails with a message where the value is no list; the configuration then stays as it
    /// is, as it does where a list was found.
    pub fn get_array(&mut self, section: &str, key: &str) -> (found: Result<
        Vec<ConfigItem>,
        String,
    >)
        ensures
            list_result(found) == old(self)@.list_at(section@, key@),
            final(self)@ == old(self)@.with_default_list(section@, key@),
            old(self)@.values.contains_key((section@, key@)) ==> *final(self) == *old(self),
    {
        match self.find_value(section, key) {
            Some(value) => match value_as_array(value) {
                Some(values) => Ok(Self::items_of(values)),
                None => Err(
                    join5(
                        "The \"",
                        key,
                        "\" field in \"[",
                        section,
                        "]\" of the config does not represent an array.",
                    ),
                ),
            },
            None => {
                let none: Vec<String> = Vec::new();
                self.set_array(section, key, &none);
                let items: Vec<ConfigItem> = Vec::new();
                assert(item_views(items@) =~= Seq::<ItemView>::empty());
                assert(text_items(none@) =~= Seq::<ItemView>::empty());
                Ok(items)
            },
        }
    }

    /// A string that the program cannot do without.
    ///
    /// Nothing is made up: where the string is missing or the value is no string, the error
    /// is the message with which the program gives up.
    pub fn get_string_required(&self, section: &str, key: &str) -> (found: Result<String, String>)
        ensures
            text_result(found) == self@.required_string_at(section@, key@),
    {
        match self.find_string(section, key) {
            Ok(value) => Ok(value),
            Err(error) => Err(
                join4(
                    "Error getting the value of \"",
                    key,
                    "\" from the config which is required: ",
                    error.as_str(),
                ),
            ),
        }
    }

    /// A list that the program cannot do without.
    ///
    /// Nothing is made up: where the list is missing or the value is no list, the error is
    /// the message with which the program gives up.
    pub fn get_array_required(&self, section: &str, key: &str) -> (found: Result<
        Vec<ConfigItem>,
        String,
    >)
        ensures
            list_result(found) == self@.required_list_at(section@, key@),
    {
        match self.find_array(section, key) {
            Ok(items) => Ok(items),
            Err(error) => Err(
                join4(
                    "Error getting the value of \"",
                    key,
                    "\" from the config which is required: ",
                    error.as_str(),
                ),
            ),
        }
    }

    /// Puts a value under a section and key, in place of the one that was there. Where no
    /// table stands under the name of the section, a new one is put there.
    pub fn set_value(&mut self, section: &str, key: &str, value: toml::Value)
        ensures
            final(self)@ == old(self)@.with_value(section@, key@, value_of(toml_data(value))),
            final(self).file_path == old(self).file_path,
    {
        let mut table = match self.section_table(section) {
            Some(table) => table_clone(table),
            None => table_new(),
        };
        let ghost before = table_data(self.toml_data);
        let ghost section_before = table_data(table);
        table_insert(&mut table, key, value);
        let ghost section_after = table_data(table);
        let section_value = value_table(table);
        table_insert(&mut self.toml_data, section, section_value);
        proof {
            let after = table_data(self.toml_data);
            let place = (section@, key@);
            assert(after == before.insert(section@, TomlData::Table(section_after)));
            assert(section_after == section_before.insert(key@, toml_data(value)));
            assert(sections_of(after) =~= sections_of(before).insert(section@));
            assert forall|p: (Seq<char>, Seq<char>)|
                has_value(after, p) == (p == place || has_value(before, p)) by {
                if p.0 == section@ {
                    assert(after[p.0]->Table_0 == section_after);
                }
            }
            assert forall|p: (Seq<char>, Seq<char>)| has_value(after, p) && p != place implies value_of(
                after[p.0]->Table_0[p.1],
            ) == value_of(before[p.0]->Table_0[p.1]) by {
                if p.0 == section@ {
                    assert(after[p.0]->Table_0 == section_after);
                }
            }
            assert(after[section@]->Table_0[key@] == toml_data(value));
            assert(values_of(after) =~= values_of(before).insert(
                place,
                value_of(toml_data(value)),
            ));
        }
    }

    /// Puts a string under a section and key; the section comes into being with it.
    pub fn set_string(&mut self, section: &str, key: &str, val: &str)
        ensures
            final(self)@ == old(self)@.with_value(section@, key@, ValueView::Text(val@)),
            final(self).file_path == old(self).file_path,
    {
        self.set_value(section, key, value_string(val));
    }

    /// Puts a list of strings under a section and key; the section comes into being with it.
    pub fn set_array(&mut self, section: &str, key: &str, val: &Vec<String>)
        ensures
            final(self)@ == old(self)@.with_value(
                section@,
                key@,
                ValueView::List(text_items(val@)),
            ),
            final(self).file_path == old(self).file_path,
    {
        let mut values: Vec<toml::Value> = Vec::new();
        let mut i: usize = 0;
        while i < val.len()
            invariant
                i <= val.len(),
                values@.len() == i,
                forall|k: int| 0 <= k < i ==> toml_data(values@[k]) == TomlData::Text(val@[k]@),
            decreases val.len() - i,
        {
            values.push(value_string(val[i].as_str()));
            i += 1;
        }
        assert(Seq::new(
            array_data(values@).len(),
            |k: int| item_of(array_data(values@)[k]),
        ) =~= text_items(val@));
        self.set_value(section, key, value_array(values));
    }

    /// Whether a user may run restricted commands; see `ConfigView::whitelisted`.
    pub fn whitelist_validate_user(&self, user: &str) -> (valid: Result<bool, String>)
        ensures
            match valid {
                Ok(b) => self@.whitelisted(user@) == Ok::<bool, Seq<char>>(b),
                Err(e) => self@.whitelisted(user@) == Err::<bool, Seq<char>>(e@),
            },
    {
        let owner = match self.get_string_required("config", "github_owner_name") {
            Ok(owner) => owner,
            Err(e) => return Err(e),
        };
        let wanted = user.to_owned();
        if owner == wanted {
            return Ok(true);
        }
        let whitelist = match self.get_array_required("config", "whitelist") {
            Ok(items) => items,
            Err(e) => return Err(e),
        };
        let mut i: usize = 0;
        while i < whitelist.len()
            invariant
                i <= whitelist.len(),
                wanted@ == user@,
                self@.required_string_at("config"@, "github_owner_name"@) == Ok::<
                    Seq<char>,
                    Seq<char>,
                >(owner@),
                owner@ != user@,
                self@.required_list_at("config"@, "whitelist"@) == Ok::<Seq<ItemView>, Seq<char>>(
                    item_views(whitelist@),
                ),
                forall|k: int| 0 <= k < i ==> item_views(whitelist@)[k] != ItemView::Text(user@),
            decreases whitelist.len() - i,
        {
            match &whitelist[i] {
                ConfigItem::Text(name) => {
                    if *name == wanted {
                        assert(item_views(whitelist@)[i as int] == ItemView::Text(user@));
                        assert(item_views(whitelist@).contains(ItemView::Text(user@)));
                        return Ok(true);
                    }
                },
                ConfigItem::Other => {},
            }
            i += 1;
        }
        Ok(false)
    }

    /// Why a required string fails the validation, if it does.
    pub fn check_required(&self, key: &str) -> (complaint: Option<String>)
        ensures
            match complaint {
                Some(e) => self@.missing(key@) == Some(e@),
                None => self@.missing(key@) is None,
            },
    {
        match self.get_string_required("config", key) {
            Err(e) => Some(e),
            Ok(s) => {
                if s.as_str().unicode_len() == 0 {
                    Some(join3("Required config value of \"", key, "\" must be non-empty."))
                } else {
                    None
                }
            },
        }
    }

    /// Checks that every value the program cannot do without is there, and that the strings
    /// among them are not empty. The whitelist may be empty.
    pub fn validate(&self) -> (outcome: Result<(), String>)
        ensures
            match outcome {
                Ok(_) => self@.validation() is Ok,
                Err(e) => self@.validation() == Err::<(), Seq<char>>(e@),
            },
    {
        if let Some(e) = self.check_required("github_bot_name") {
            return Err(e);
        }
        if let Some(e) = self.check_required("github_bot_token") {
            return Err(e);
        }
        if let Some(e) = self.check_required("github_follow_repo") {
            return Err(e);
        }
        if let Some(e) = self.check_required("github_owner_name") {
            return Err(e);
        }
        if let Some(e) = self.check_required("github_owner_token") {
            return Err(e);
        }
        if let Some(e) = self.check_required("listen_port") {
            return Err(e);
        }
        if let Some(e) = self.check_required("local_ip_address") {
            return Err(e);
        }
        if let Some(e) = self.check_required("public_ip_address") {
            return Err(e);
        }
        match self.get_array_required("config", "whitelist") {
            Err(e) => Err(e),
            Ok(_) => Ok(()),
        }
    }
}

/// What was asked for once is there: after the string under a section and key was asked
/// for, asking again gives the same answer and changes nothing, and every other value is as
/// it was.
pub proof fn law_default_is_kept(config: ConfigView, section: Seq<char>, key: Seq<char>)
    ensures
        ({
            let after = config.with_default_string(section, key);
            &&& after.string_at(section, key) == config.string_at(section, key)
            &&& after.with_default_string(section, key) == after
            &&& after.values.contains_key((section, key))
            &&& forall|s: Seq<char>, k: Seq<char>|
                (s, k) != (section, key) ==> after.string_at(s, k) == config.string_at(s, k)
                    && after.list_at(s, k) == config.list_at(s, k)
        }),
{
}

} // verus!
