//! The configuration record, its defaults and the overlay of one layer.

use vstd::prelude::*;
use crate::file::{load_config, loaded, FileRead};
use crate::range::{apply_font_range, font_range, with_font_range};

verus! {

/// The smallest font size that a command-line range may name.
pub const FONT_SIZE_FLOOR: i8 = 4;

/// The resolved settings that the processing engine consumes.
#[derive(Clone, Debug, PartialEq, Eq)]
pub struct Configuration {
    /// The file or folder to scan.
    pub input_path: String,
    /// The smallest font size to try.
    pub font_size_min: i8,
    /// The largest font size to try.
    pub font_size_max: i8,
    /// The font family to try.
    pub font_name: String,
}

/// The mathematical content of a `Configuration`.
pub struct ConfigurationView {
    pub input_path: Seq<char>,
    pub font_size_min: int,
    pub font_size_max: int,
    pub font_name: Seq<char>,
}

impl View for Configuration {
    type V = ConfigurationView;

    open spec fn view(&self) -> ConfigurationView {
        ConfigurationView {
            input_path: self.input_path@,
            font_size_min: self.font_size_min as int,
            font_size_max: self.font_size_max as int,
            font_name: self.font_name@,
        }
    }
}

/// The font of a configuration file: its three settings come together.
#[derive(Clone, Debug, PartialEq, Eq)]
pub struct FontSettings {
    pub name: String,
    pub size_min: i8,
    pub size_max: i8,
}

/// The mathematical content of a `FontSettings`.
pub struct FontSettingsView {
    pub name: Seq<char>,
    pub size_min: int,
    pub size_max: int,
}

impl View for FontSettings {
    type V = FontSettingsView;

    open spec fn view(&self) -> FontSettingsView {
        FontSettingsView {
            name: self.name@,
            size_min: self.size_min as int,
            size_max: self.size_max as int,
        }
    }
}

/// One layer of settings, each of them present or absent. An absent setting
/// leaves what the layers below have set.
#[derive(Clone, Debug, PartialEq, Eq)]
pub struct PartialConfiguration {
    pub input_path: Option<String>,
    pub font: Option<FontSettings>,
}

/// The mathematical content of a `PartialConfiguration`.
pub struct PartialView {
    pub input_path: Option<Seq<char>>,
    pub font: Option<FontSettingsView>,
}

impl View for PartialConfiguration {
    type V = PartialView;

    open spec fn view(&self) -> PartialView {
        PartialView {
            input_path: match self.input_path {
                Some(path) => Some(path@),
                None => None,
            },
            font: match self.font {
                Some(font) => Some(font@),
                None => None,
            },
        }
    }
}

impl ConfigurationView {
    /// A scan path is named, and the font sizes run upwards from the floor.
    pub open spec fn valid(self) -> bool {
        &&& self.input_path.len() > 0
        &&& FONT_SIZE_FLOOR <= self.font_size_min <= self.font_size_max
    }

    /// `self` with `path` as the scan path; an empty `path` counts as absent.
    pub open spec fn with_input_path(self, path: Option<Seq<char>>) -> ConfigurationView {
        match path {
            Some(p) => if p.len() > 0 {
                ConfigurationView { input_path: p, ..self }
            } else {
                self
            },
            None => self,
        }
    }

    /// `self` with the three settings of `font`, where there is one.
    pub open spec fn with_font(self, font: Option<FontSettingsView>) -> ConfigurationView {
        match font {
            Some(f) => ConfigurationView {
                font_size_min: f.size_min,
                font_size_max: f.size_max,
                font_name: f.name,
                ..self
            },
            None => self,
        }
    }

    /// `self` under `layer`: what the layer holds replaces what `self` has.
    pub open spec fn overlaid(self, layer: PartialView) -> ConfigurationView {
        self.with_input_path(layer.input_path).with_font(layer.font)
    }
}

/// The baseline: scan the current folder with `FreeMono` in sizes 8 to 16.
pub open spec fn default_view() -> ConfigurationView {
    ConfigurationView {
        input_path: "./"@,
        font_size_min: 8,
        font_size_max: 16,
        font_name: "FreeMono"@,
    }
}

/// Returns the baseline configuration.
pub fn default_config() -> (config: Configuration)
    ensures
        config@ == default_view(),
{
    Configuration {
        input_path: "./".to_owned(),
        font_size_min: 8,
        font_size_max: 16,
        font_name: "FreeMono".to_owned(),
    }
}

impl Configuration {
    /// Lays `layer` over `self`: a scan path that is present and not empty
    /// replaces the path, a font replaces name and sizes together.
    pub fn overlay(&mut self, layer: PartialConfiguration)
        ensures
            final(self)@ == old(self)@.overlaid(layer@),
    {
        let PartialConfiguration { input_path, font } = layer;
        match input_path {
            Some(path) => {
                if !path.as_str().is_empty() {
                    self.input_path = path;
                }
            },
            None => {},
        }
        match font {
            Some(f) => {
                self.font_name = f.name;
                self.font_size_min = f.size_min;
                self.font_size_max = f.size_max;
            },
            None => {},
        }
    }
}

/// The raw values of the command line, each present where its argument was
/// given.
#[derive(Clone, Debug, PartialEq, Eq)]
pub struct CliValues {
    /// The positional argument: the file or folder to scan.
    pub input: Option<String>,
    /// The value of the font option.
    pub font_name: Option<String>,
    /// The value of the size option, such as `12:16`.
    pub font_range: Option<String>,
}

/// The mathematical content of a `CliValues`.
pub struct CliView {
    pub input: Option<Seq<char>>,
    pub font_name: Option<Seq<char>>,
    pub font_range: Option<Seq<char>>,
}

/// The characters of an optional string.
pub open spec fn text_view(text: Option<String>) -> Option<Seq<char>> {
    match text {
        Some(t) => Some(t@),
        None => None,
    }
}

impl View for CliValues {
    type V = CliView;

    open spec fn view(&self) -> CliView {
        CliView {
            input: text_view(self.input),
            font_name: text_view(self.font_name),
            font_range: text_view(self.font_range),
        }
    }
}

impl ConfigurationView {
    /// `self` with `name` as the font, where a name is given.
    pub open spec fn with_font_name(self, name: Option<Seq<char>>) -> ConfigurationView {
        match name {
            Some(n) => ConfigurationView { font_name: n, ..self },
            None => self,
        }
    }

    /// `self` with the sizes that `range` names, where it is given and names
    /// any.
    pub open spec fn with_range(self, range: Option<Seq<char>>) -> ConfigurationView {
        match range {
            Some(r) => with_font_range(self, r),
            None => self,
        }
    }
}

/// The configuration before the command line is looked at: what the
/// configuration file gives where one was named, the baseline where none was.
pub open spec fn starting_point(file: Option<FileRead>) -> ConfigurationView {
    match file {
        Some(read) => loaded(read.content()),
        None => default_view(),
    }
}

/// `base` under the command line: scan path, font name and size range, each
/// where it is given.
pub open spec fn resolved(base: ConfigurationView, cli: CliView) -> ConfigurationView {
    base.with_input_path(cli.input).with_font_name(cli.font_name).with_range(cli.font_range)
}

/// Resolves the configuration from its three sources.
///
/// `file` is what came of reading the configuration file, where the command
/// line named one. The file's settings replace the defaults, and the values
/// of the command line replace the file's. A size range that names no range
/// is passed over.
///
/// The result always names a scan path: an empty path, from the file or from
/// the command line, counts as none given.
pub fn create_config(file: Option<FileRead>, cli: &CliValues) -> (config: Configuration)
    ensures
        config@ == resolved(starting_point(file), cli@),
        config@.input_path.len() > 0,
        cli.input matches Some(path) ==> path@.len() > 0 ==> config@.input_path == path@,
        cli.font_name matches Some(name) ==> config@.font_name == name@,
{
    let mut config = match &file {
        Some(read) => load_config(read),
        None => default_config(),
    };
    proof {
        lemma_starting_point_names_a_path(file);
    }
    match &cli.input {
        Some(path) => {
            if !path.as_str().is_empty() {
                config.input_path = path.clone();
            }
        },
        None => {},
    }
    match &cli.font_name {
        Some(name) => {
            config.font_name = name.clone();
        },
        None => {},
    }
    match &cli.font_range {
        Some(range) => {
            let _ = apply_font_range(&mut config, range.as_str());
        },
        None => {},
    }
    config
}

/// The baseline is a valid configuration.
pub proof fn lemma_defaults_valid()
    ensures
        default_view().valid(),
{
    reveal_strlit("./");
}

/// Whatever the configuration file holds, there is a scan path before the
/// command line is looked at.
pub proof fn lemma_starting_point_names_a_path(file: Option<FileRead>)
    ensures
        starting_point(file).input_path.len() > 0,
{
    reveal_strlit("./");
}

/// The command line has the last word on the scan path: a path given there
/// stands in the result, whatever the configuration file holds.
pub proof fn lemma_command_line_path_wins(file: Option<FileRead>, cli: CliView)
    requires
        cli.input matches Some(path) && path.len() > 0,
    ensures
        resolved(starting_point(file), cli).input_path == cli.input->0,
{
}

/// The command line has the last word on the font name as well.
pub proof fn lemma_command_line_font_wins(file: Option<FileRead>, cli: CliView)
    requires
        cli.font_name is Some,
    ensures
        resolved(starting_point(file), cli).font_name == cli.font_name->0,
{
}

/// What the command line leaves out stays as the layers below set it.
pub proof fn lemma_silent_command_line_keeps_base(base: ConfigurationView, cli: CliView)
    requires
        cli.input is None,
        cli.font_name is None,
        cli.font_range is None,
    ensures
        resolved(base, cli) == base,
{
}

/// The resolved configuration is valid in every case but one: the
/// configuration file names font sizes that are out of order or under the
/// floor, and the command line names no range that is accepted.
pub proof fn lemma_resolved_valid(file: Option<FileRead>, cli: CliView)
    ensures
        resolved(starting_point(file), cli).valid() <==> (starting_point(file).valid() || (
            cli.font_range matches Some(range) && font_range(range) is Ok)),
{
    lemma_starting_point_names_a_path(file);
}

} // verus!
