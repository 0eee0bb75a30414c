use vstd::prelude::*;

verus! {

/// Persisted user settings. Every field is optional on disk; missing
/// fields are healed additively with documented defaults, never treated
/// as an error. Reading and writing the settings file is the shell's
/// business; this type owns the defaulting rules alone.
pub struct AppSettings {
    pub theme: Option<String>,
    pub download_path: Option<String>,
    pub show_debug_options: Option<bool>,
}

/// The default theme name.
pub open spec fn default_theme() -> Seq<char> {
    "Dark"@
}

/// The documented default base directory for downloads.
pub open spec fn default_download_path() -> Seq<char> {
    "/tmp/.void/pd2"@
}

impl AppSettings {
    /// Every recognized field carries a value.
    pub open spec fn complete(&self) -> bool {
        &&& self.theme is Some
        &&& self.download_path is Some
        &&& self.show_debug_options is Some
    }

    /// The settings used when no settings file exists yet.
    pub fn default() -> (s: AppSettings)
        ensures
            s.theme matches Some(t) && t@ == default_theme(),
            s.download_path matches Some(p) && p@ == default_download_path(),
            s.show_debug_options == Some(false),
            s.complete(),
    {
        AppSettings {
            theme: Some(String::from_str("Dark")),
            download_path: Some(String::from_str("/tmp/.void/pd2")),
            show_debug_options: Some(false),
        }
    }

    /// Heals missing fields with their defaults: a field that carries a
    /// value is kept exactly; a missing field is set to its default.
    /// Afterwards every field carries a value.
    pub fn fill_defaults(&mut self)
        ensures
            final(self).complete(),
            old(self).theme is Some ==> final(self).theme == old(self).theme,
            old(self).theme is None ==> (final(self).theme matches Some(t) && t@
                == default_theme()),
            old(self).download_path is Some ==> final(self).download_path == old(
                self,
            ).download_path,
            old(self).download_path is None ==> (final(self).download_path matches Some(p) && p@
                == default_download_path()),
            old(self).show_debug_options is Some ==> final(self).show_debug_options == old(
                self,
            ).show_debug_options,
            old(self).show_debug_options is None ==> final(self).show_debug_options == Some(
                false,
            ),
    {
        if self.theme.is_none() {
            self.theme = Some(String::from_str("Dark"));
        }
        if self.download_path.is_none() {
            self.download_path = Some(String::from_str("/tmp/.void/pd2"));
        }
        if self.show_debug_options.is_none() {
            self.show_debug_options = Some(false);
        }
    }
}

} // verus!
