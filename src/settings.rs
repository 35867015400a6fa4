use vstd::prelude::*;

verus! {

/// Indentation width used when no width has been chosen.
pub const DEFAULT_INDENT_WIDTH: usize = 4;

/// Font size used when no size has been chosen.
pub const DEFAULT_FONT_SIZE: u32 = 14;

/// What a reader of `AppSettings` sees: the field values, strings as characters.
pub struct SettingsView {
    pub indent_type: Seq<char>,
    pub indent_width: usize,
    pub theme: Seq<char>,
    pub font_size: u32,
}

/// What a reader of `AppData` sees.
pub struct AppDataView {
    pub last_json_input: Seq<char>,
    pub settings: SettingsView,
}

/// User preferences: indentation style and width, colour theme and font size.
/// An empty theme means "follow the system".
#[derive(Debug, Clone)]
pub struct AppSettings {
    pub indent_type: String,
    pub indent_width: usize,
    pub theme: String,
    pub font_size: u32,
}

/// The persisted record: the last input typed by the user and the settings.
#[derive(Debug, Clone)]
pub struct AppData {
    pub last_json_input: String,
    pub settings: AppSettings,
}

impl View for AppSettings {
    type V = SettingsView;

    open spec fn view(&self) -> SettingsView {
        SettingsView {
            indent_type: self.indent_type@,
            indent_width: self.indent_width,
            theme: self.theme@,
            font_size: self.font_size,
        }
    }
}

impl View for AppData {
    type V = AppDataView;

    open spec fn view(&self) -> AppDataView {
        AppDataView { last_json_input: self.last_json_input@, settings: self.settings@ }
    }
}

/// The settings in force before the user changes anything.
pub open spec fn default_settings() -> SettingsView {
    SettingsView {
        indent_type: "space"@,
        indent_width: DEFAULT_INDENT_WIDTH,
        theme: Seq::empty(),
        font_size: DEFAULT_FONT_SIZE,
    }
}

/// The record held before anything was saved.
pub open spec fn default_data() -> AppDataView {
    AppDataView { last_json_input: Seq::empty(), settings: default_settings() }
}

impl Default for AppSettings {
    fn default() -> (r: Self)
        ensures
            r@ == default_settings(),
    {
        AppSettings {
            indent_type: String::from_str("space"),
            indent_width: DEFAULT_INDENT_WIDTH,
            theme: String::new(),
            font_size: DEFAULT_FONT_SIZE,
        }
    }
}

impl Default for AppData {
    fn default() -> (r: Self)
        ensures
            r@ == default_data(),
    {
        AppData { last_json_input: String::new(), settings: AppSettings::default() }
    }
}

impl AppSettings {
    /// A field-by-field copy.
    pub fn duplicate(&self) -> (r: Self)
        ensures
            r@ == self@,
    {
        AppSettings {
            indent_type: self.indent_type.clone(),
            indent_width: self.indent_width,
            theme: self.theme.clone(),
            font_size: self.font_size,
        }
    }
}

impl AppData {
    /// A field-by-field copy.
    pub fn duplicate(&self) -> (r: Self)
        ensures
            r@ == self@,
    {
        AppData {
            last_json_input: self.last_json_input.clone(),
            settings: self.settings.duplicate(),
        }
    }
}

impl PartialEq for AppSettings {
    fn eq(&self, o: &AppSettings) -> (r: bool) {
        self.indent_type == o.indent_type && self.indent_width == o.indent_width && self.theme
            == o.theme && self.font_size == o.font_size
    }
}

impl vstd::std_specs::cmp::PartialEqSpecImpl for AppSettings {
    open spec fn obeys_eq_spec() -> bool {
        true
    }

    open spec fn eq_spec(&self, o: &AppSettings) -> bool {
        self@ == o@
    }
}

impl PartialEq for AppData {
    fn eq(&self, o: &AppData) -> (r: bool) {
        self.last_json_input == o.last_json_input && self.settings == o.settings
    }
}

impl vstd::std_specs::cmp::PartialEqSpecImpl for AppData {
    open spec fn obeys_eq_spec() -> bool {
        true
    }

    open spec fn eq_spec(&self, o: &AppData) -> bool {
        self@ == o@
    }
}

} // verus!
