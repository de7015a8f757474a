//! The persisted configuration record.

use vstd::prelude::*;

verus! {

/// Access credentials and the selected target, as kept between runs.
#[derive(Debug, PartialEq, Eq)]
pub struct NotionConfig {
    pub access_secret: String,
    pub database_id: String,
    pub title_property: String,
}

/// Mathematical model of a [`NotionConfig`].
pub struct ConfigModel {
    pub access_secret: Seq<char>,
    pub database_id: Seq<char>,
    pub title_property: Seq<char>,
}

impl ConfigModel {
    /// All three fields are present.
    pub open spec fn is_complete(self) -> bool {
        &&& self.access_secret.len() > 0
        &&& self.database_id.len() > 0
        &&& self.title_property.len() > 0
    }

    /// All three fields are absent.
    pub open spec fn is_blank(self) -> bool {
        &&& self.access_secret.len() == 0
        &&& self.database_id.len() == 0
        &&& self.title_property.len() == 0
    }
}

impl View for NotionConfig {
    type V = ConfigModel;

    open spec fn view(&self) -> ConfigModel {
        ConfigModel {
            access_secret: self.access_secret@,
            database_id: self.database_id@,
            title_property: self.title_property@,
        }
    }
}

impl DeepView for NotionConfig {
    type V = ConfigModel;

    open spec fn deep_view(&self) -> ConfigModel {
        self@
    }
}

impl Clone for NotionConfig {
    fn clone(&self) -> (copy: NotionConfig)
        ensures
            copy@ == self@,
    {
        NotionConfig {
            access_secret: self.access_secret.clone(),
            database_id: self.database_id.clone(),
            title_property: self.title_property.clone(),
        }
    }
}

impl Default for NotionConfig {
    /// The unconfigured record: every field empty.
    fn default() -> (config: NotionConfig)
        ensures
            config@.is_blank(),
    {
        NotionConfig {
            access_secret: String::new(),
            database_id: String::new(),
            title_property: String::new(),
        }
    }
}

impl NotionConfig {
    /// The configuration to start from, given what the store held: the
    /// stored record, or the unconfigured one where the store held none or
    /// could not be read.
    pub fn loaded(stored: Option<NotionConfig>) -> (config: NotionConfig)
        ensures
            stored matches Some(record) ==> config == record,
            stored is None ==> config@.is_blank(),
    {
        match stored {
            Some(record) => record,
            None => NotionConfig::default(),
        }
    }

    /// Tells whether every field is filled in, so that pages can be created
    /// without running the configuration flow first.
    pub fn is_configured(&self) -> (complete: bool)
        ensures
            complete == self@.is_complete(),
    {
        !self.access_secret.as_str().is_empty() && !self.database_id.as_str().is_empty()
            && !self.title_property.as_str().is_empty()
    }
}

} // verus!
