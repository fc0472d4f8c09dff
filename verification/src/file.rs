//! The configuration file: a TOML document with an optional `input_path` and
//! an optional `[font]` table.

use vstd::prelude::*;
use crate::config::{
    default_config, default_view, Configuration, ConfigurationView, FontSettings,
    FontSettingsView, PartialConfiguration, PartialView, FONT_SIZE_FLOOR,
};

verus! {

/// What a TOML value holds, as far as the configuration file is read: text,
/// whole numbers and tables. Every other kind of value is `Other`.
pub enum Toml {
    Text(Seq<char>),
    Integer(int),
    Table(Map<Seq<char>, Toml>),
    Other,
}

/// The entry of table `value` under `key`; `None` where `value` is no table
/// or has no such key.
pub open spec fn member(value: Toml, key: Seq<char>) -> Option<Toml> {
    match value {
        Toml::Table(entries) => if entries.contains_key(key) {
            Some(entries[key])
        } else {
            None
        },
        _ => None,
    }
}

/// `toml::Value`, carried between the calls into the `toml` crate.
#[verifier::external_type_specification]
#[verifier::external_body]
pub struct ExTomlValue(toml::Value);

/// `toml::de::Error`, the parser's diagnosis of a document it rejects.
#[verifier::external_type_specification]
#[verifier::external_body]
pub struct ExTomlError(toml::de::Error);

/// The document that the `toml` crate reads from `text`; `None` where it
/// rejects the text.
pub uninterp spec fn toml_document(text: Seq<char>) -> Option<Toml>;

/// What `value` holds: the text of a string, the number of an integer, the
/// entries of a table under their keys, and `Other` for every other kind of
/// value.
pub uninterp spec fn toml_content(value: toml::Value) -> Toml;

/// Calls `toml::from_str` to read `text` as a TOML document. The outcome is
/// a function of the text alone, which `toml_document` names; nothing is
/// claimed of which texts are accepted.
#[verifier::external_body]
fn parse_document(text: &str) -> (parsed: Result<toml::Value, toml::de::Error>)
    ensures
        (match parsed {
            Ok(document) => toml_document(text@) == Some(toml_content(document)),
            Err(_) => toml_document(text@) is None,
        }),
{
    toml::from_str::<toml::Value>(text)
}

/// Calls `toml::Value::get` with a string key: the entry under `key` where
/// `value` is a table that has one, and `None` otherwise.
#[verifier::external_body]
fn entry_of<'a>(value: &'a toml::Value, key: &str) -> (entry: Option<&'a toml::Value>)
    ensures
        (match entry {
            Some(found) => member(toml_content(*value), key@) == Some(toml_content(*found)),
            None => member(toml_content(*value), key@) is None,
        }),
{
    value.get(key)
}

/// Calls `toml::Value::as_str`: the text of a string value, `None` for every
/// other kind of value.
#[verifier::external_body]
fn text_of<'a>(value: &'a toml::Value) -> (text: Option<&'a str>)
    ensures
        (match text {
            Some(s) => toml_content(*value) == Toml::Text(s@),
            None => !(toml_content(*value) is Text),
        }),
{
    value.as_str()
}

/// Calls `toml::Value::as_integer`: the number of an integer value, `None`
/// for every other kind of value.
#[verifier::external_body]
fn integer_of(value: &toml::Value) -> (number: Option<i64>)
    ensures
        (match number {
            Some(n) => toml_content(*value) == Toml::Integer(n as int),
            None => !(toml_content(*value) is Integer),
        }),
{
    value.as_integer()
}

/// Calls `to_string` on the parser's error, which writes out its diagnosis.
/// Nothing is claimed of the message.
#[verifier::external_body]
fn message_of(error: &toml::de::Error) -> (message: String)
{
    error.to_string()
}

/// What is wrong with a configuration file.
#[derive(Clone, Copy, Debug, PartialEq, Eq, Structural)]
pub enum FileFault {
    /// The text is no TOML document.
    Syntax,
    /// `input_path` is there and is no string.
    InputPath,
    /// `font` is there and holds no string `name`.
    FontName,
    /// `font` is there and holds no `size_min` that is a small integer.
    FontSizeMin,
    /// `font` is there and holds no `size_max` that is a small integer.
    FontSizeMax,
}

/// A `FileFault`, with the parser's diagnosis where the text is no document.
#[derive(Clone, Debug, PartialEq, Eq)]
pub enum FileError {
    Syntax(String),
    InputPath,
    FontName,
    FontSizeMin,
    FontSizeMax,
}

impl View for FileError {
    type V = FileFault;

    open spec fn view(&self) -> FileFault {
        match self {
            FileError::Syntax(_) => FileFault::Syntax,
            FileError::InputPath => FileFault::InputPath,
            FileError::FontName => FileFault::FontName,
            FileError::FontSizeMin => FileFault::FontSizeMin,
            FileError::FontSizeMax => FileFault::FontSizeMax,
        }
    }
}

/// The number of `value`, where `value` is an integer that fits in eight
/// bits.
pub open spec fn small_number(value: Option<Toml>) -> Option<int> {
    match value {
        Some(Toml::Integer(n)) => if i8::MIN <= n <= i8::MAX {
            Some(n)
        } else {
            None
        },
        _ => None,
    }
}

/// The scan path of `document`: absent, a string, or a fault.
pub open spec fn input_path_of(document: Toml) -> Result<Option<Seq<char>>, FileFault> {
    match member(document, "input_path"@) {
        None => Ok(None),
        Some(Toml::Text(path)) => Ok(Some(path)),
        Some(_) => Err(FileFault::InputPath),
    }
}

/// The font of `document`: absent, a table with all three settings, or the
/// fault of the first setting that is missing or of the wrong kind.
pub open spec fn font_of(document: Toml) -> Result<Option<FontSettingsView>, FileFault> {
    match member(document, "font"@) {
        None => Ok(None),
        Some(font) => match member(font, "name"@) {
            Some(Toml::Text(name)) => match small_number(member(font, "size_min"@)) {
                Some(size_min) => match small_number(member(font, "size_max"@)) {
                    Some(size_max) => Ok(Some(FontSettingsView { name, size_min, size_max })),
                    None => Err(FileFault::FontSizeMax),
                },
                None => Err(FileFault::FontSizeMin),
            },
            _ => Err(FileFault::FontName),
        },
    }
}

/// The layer that `document` holds. Keys other than `input_path` and `font`,
/// and keys of the font table other than its three settings, are passed over.
pub open spec fn layer_of(document: Toml) -> Result<PartialView, FileFault> {
    match input_path_of(document) {
        Err(fault) => Err(fault),
        Ok(input_path) => match font_of(document) {
            Err(fault) => Err(fault),
            Ok(font) => Ok(PartialView { input_path, font }),
        },
    }
}

/// The layer that a file with the content `text` holds.
pub open spec fn file_layer(text: Seq<char>) -> Result<PartialView, FileFault> {
    match toml_document(text) {
        None => Err(FileFault::Syntax),
        Some(document) => layer_of(document),
    }
}

/// The configuration that a file with the content `text` gives: the defaults
/// under its layer, and the bare defaults where the file has a fault.
pub open spec fn parsed_file(text: Seq<char>) -> ConfigurationView {
    match file_layer(text) {
        Ok(layer) => default_view().overlaid(layer),
        Err(_) => default_view(),
    }
}

/// The mathematical content of what reading a layer gave.
pub open spec fn layer_view(layer: Result<PartialConfiguration, FileError>) -> Result<
    PartialView,
    FileFault,
> {
    match layer {
        Ok(partial) => Ok(partial@),
        Err(e) => Err(e@),
    }
}

/// The mathematical content of what reading a scan path gave.
spec fn path_view(path: Result<Option<String>, FileError>) -> Result<Option<Seq<char>>, FileFault> {
    match path {
        Ok(Some(p)) => Ok(Some(p@)),
        Ok(None) => Ok(None),
        Err(e) => Err(e@),
    }
}

/// The mathematical content of what reading a font table gave.
spec fn font_view(font: Result<Option<FontSettings>, FileError>) -> Result<
    Option<FontSettingsView>,
    FileFault,
> {
    match font {
        Ok(Some(f)) => Ok(Some(f@)),
        Ok(None) => Ok(None),
        Err(e) => Err(e@),
    }
}

/// Reads the scan path of `document`.
fn read_input_path(document: &toml::Value) -> (path: Result<Option<String>, FileError>)
    ensures
        path_view(path) == input_path_of(toml_content(*document)),
{
    match entry_of(document, "input_path") {
        None => Ok(None),
        Some(value) => match text_of(value) {
            Some(path) => Ok(Some(path.to_owned())),
            None => Err(FileError::InputPath),
        },
    }
}

/// Reads the entry of `table` under `key` as an integer of eight bits.
fn read_small_number(table: &toml::Value, key: &str) -> (number: Option<i8>)
    ensures
        (match number {
            Some(n) => small_number(member(toml_content(*table), key@)) == Some(n as int),
            None => small_number(member(toml_content(*table), key@)) is None,
        }),
{
    match entry_of(table, key) {
        None => None,
        Some(value) => match integer_of(value) {
            Some(n) => if -128 <= n && n <= 127 {
                Some(n as i8)
            } else {
                None
            },
            None => None,
        },
    }
}

/// Reads the font table of `document`.
fn read_font(document: &toml::Value) -> (font: Result<Option<FontSettings>, FileError>)
    ensures
        font_view(font) == font_of(toml_content(*document)),
{
    let table = match entry_of(document, "font") {
        None => { return Ok(None); },
        Some(table) => table,
    };
    let name = match entry_of(table, "name") {
        None => { return Err(FileError::FontName); },
        Some(value) => match text_of(value) {
            None => { return Err(FileError::FontName); },
            Some(name) => name.to_owned(),
        },
    };
    let size_min = match read_small_number(table, "size_min") {
        None => { return Err(FileError::FontSizeMin); },
        Some(n) => n,
    };
    let size_max = match read_small_number(table, "size_max") {
        None => { return Err(FileError::FontSizeMax); },
        Some(n) => n,
    };
    Ok(Some(FontSettings { name, size_min, size_max }))
}

/// Reads a parsed TOML document into the layer it holds.
///
/// `input_path`, where present, must be a string; `font`, where present, must
/// hold a string `name` and the small integers `size_min` and `size_max`.
/// The first fault found comes back: the scan path before the font, and the
/// font's settings in that order. Other keys are passed over.
pub fn read_document(document: &toml::Value) -> (layer: Result<PartialConfiguration, FileError>)
    ensures
        layer_view(layer) == layer_of(toml_content(*document)),
{
    let input_path = match read_input_path(document) {
        Err(e) => { return Err(e); },
        Ok(path) => path,
    };
    let font = match read_font(document) {
        Err(e) => { return Err(e); },
        Ok(font) => font,
    };
    Ok(PartialConfiguration { input_path, font })
}

/// Reads the content of a configuration file into the layer it holds.
///
/// The content must be a TOML document, and the document must keep to what
/// `read_document` asks of it. A text that is no TOML document comes back as
/// a syntax fault, with the parser's message.
pub fn read_config_file(content: &str) -> (layer: Result<PartialConfiguration, FileError>)
    ensures
        layer_view(layer) == file_layer(content@),
{
    match parse_document(content) {
        Err(e) => Err(FileError::Syntax(message_of(&e))),
        Ok(document) => read_document(&document),
    }
}

/// Turns the content of a configuration file into a configuration: the
/// defaults, under what the file sets. A file with a fault gives the bare
/// defaults; nothing of it is kept.
pub fn parse_config_file(content: &str) -> (config: Configuration)
    ensures
        config@ == parsed_file(content@),
        file_layer(content@) is Err ==> config@ == default_view(),
{
    let mut config = default_config();
    match read_config_file(content) {
        Ok(layer) => {
            config.overlay(layer);
        },
        Err(_) => {},
    }
    config
}

/// What came of reading a configuration file from disk.
#[derive(Clone, Debug, PartialEq, Eq)]
pub enum FileRead {
    /// The file could not be opened.
    Unopened,
    /// The file was opened, and its content could not be read as text.
    Unreadable,
    /// The whole content of the file.
    Content(String),
}

impl FileRead {
    /// The text that was read, where the file gave any.
    pub open spec fn content(&self) -> Option<Seq<char>> {
        match self {
            FileRead::Content(text) => Some(text@),
            _ => None,
        }
    }
}

/// The configuration that a file gives: what its content holds, and the bare
/// defaults where there is no content.
pub open spec fn loaded(content: Option<Seq<char>>) -> ConfigurationView {
    match content {
        Some(text) => parsed_file(text),
        None => default_view(),
    }
}

/// Turns what came of reading a configuration file into a configuration. A
/// file that could not be opened or read gives the bare defaults, as a file
/// with a fault does.
pub fn load_config(read: &FileRead) -> (config: Configuration)
    ensures
        config@ == loaded(read.content()),
        read.content() is None ==> config@ == default_view(),
        read.content() matches Some(text) && file_layer(text) is Err ==> config@ == default_view(),
{
    match read {
        FileRead::Content(text) => parse_config_file(text.as_str()),
        _ => default_config(),
    }
}

/// A file that cannot be used leaves no trace: where it could not be read,
/// is no TOML document or breaks the schema in any place, the result is the
/// baseline, whatever else the file holds.
pub proof fn lemma_unusable_file_gives_defaults(content: Option<Seq<char>>)
    requires
        content matches Some(text) ==> file_layer(text) is Err,
    ensures
        loaded(content) == default_view(),
{
}

/// What a file gives is valid unless its font table names sizes that are out
/// of order or under the floor: those are taken as written.
pub proof fn lemma_loaded_valid(content: Option<Seq<char>>)
    ensures
        loaded(content).valid() <==> !(content matches Some(text)
            && file_layer(text) matches Ok(layer)
            && layer.font matches Some(font)
            && !(FONT_SIZE_FLOOR <= font.size_min <= font.size_max)),
{
    reveal_strlit("./");
}

} // verus!
