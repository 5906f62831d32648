//! User settings: the stored shape, its defaults, and the merge rule
//! that saving applies to partial updates.

use vstd::prelude::*;

verus! {

/// The theme used when none is stored.
pub fn default_theme() -> (r: String)
    ensures
        r@ == "system"@,
{
    "system".to_owned()
}

/// The stored user settings.
#[derive(Debug, PartialEq, Eq)]
pub struct Settings {
    pub theme: String,
    pub notifications: bool,
    pub font_size: String,
    pub file_directory: String,
    pub recently_viewed_option: bool,
    pub api_key: Option<String>,
}

impl Clone for Settings {
    fn clone(&self) -> (r: Self)
        ensures
            r == *self,
    {
        let r = Settings {
            theme: self.theme.clone(),
            notifications: self.notifications,
            font_size: self.font_size.clone(),
            file_directory: self.file_directory.clone(),
            recently_viewed_option: self.recently_viewed_option,
            api_key: self.api_key.clone(),
        };
        proof {
            if self.api_key is Some {
                assert(vstd::pervasive::cloned::<String>(self.api_key->0, r.api_key->0));
            }
        }
        r
    }
}

impl Default for Settings {
    fn default() -> (r: Self)
        ensures
            r.theme@ == "system"@,
            r.notifications == true,
            r.font_size@ == "medium"@,
            r.file_directory@ == Seq::<char>::empty(),
            r.recently_viewed_option == false,
            r.api_key is None,
    {
        Settings {
            theme: "system".to_owned(),
            notifications: true,
            font_size: "medium".to_owned(),
            file_directory: String::new(),
            recently_viewed_option: false,
            api_key: None,
        }
    }
}

/// Merges a saved update into the settings already on disk: an empty
/// string or a missing key in the update keeps the current value,
/// anything else replaces it; the two switches are always taken from
/// the update.
pub fn merge_settings(update: Settings, current: Settings) -> (r: Settings)
    ensures
        update.theme@.len() == 0 ==> r.theme == current.theme,
        update.theme@.len() > 0 ==> r.theme == update.theme,
        r.notifications == update.notifications,
        update.font_size@.len() == 0 ==> r.font_size == current.font_size,
        update.font_size@.len() > 0 ==> r.font_size == update.font_size,
        update.file_directory@.len() == 0 ==> r.file_directory == current.file_directory,
        update.file_directory@.len() > 0 ==> r.file_directory == update.file_directory,
        r.recently_viewed_option == update.recently_viewed_option,
        update.api_key is None ==> r.api_key == current.api_key,
        update.api_key is Some ==> r.api_key == update.api_key,
{
    Settings {
        theme: if update.theme.as_str().is_empty() {
            current.theme
        } else {
            update.theme
        },
        notifications: update.notifications,
        font_size: if update.font_size.as_str().is_empty() {
            current.font_size
        } else {
            update.font_size
        },
        file_directory: if update.file_directory.as_str().is_empty() {
            current.file_directory
        } else {
            update.file_directory
        },
        recently_viewed_option: update.recently_viewed_option,
        api_key: if update.api_key.is_none() {
            current.api_key
        } else {
            update.api_key
        },
    }
}

/// The stored key for the summarization service, or the error shown
/// when none is stored.
pub fn settings_api_key(settings: Settings) -> (r: Result<String, String>)
    ensures
        settings.api_key matches Some(k) ==> (r matches Ok(k2) && k2 == k),
        settings.api_key is None ==> (r matches Err(m) && m@ == "No API key found"@),
{
    match settings.api_key {
        Some(k) => Ok(k),
        None => Err("No API key found".to_owned()),
    }
}

} // verus!
