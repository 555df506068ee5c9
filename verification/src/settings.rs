//! The settings record and the list of timesheets.

use vstd::prelude::*;

verus! {

/// The settings of the service. The calendar pipeline reads the feed URL and
/// the list of title exclusions; the other fields are carried for clients.
#[derive(Debug)]
pub struct Settings {
    pub ics_url: String,
    pub ics_filter: Vec<String>,
    pub projects: Vec<String>,
    pub tags: Vec<String>,
    pub name: String,
    pub company: String,
    pub client: String,
    pub gitlab_url: String,
    pub gitlab_access_token: String,
    pub last_updated: Option<u64>,
}

impl Default for Settings {
    fn default() -> (settings: Self)
        ensures
            settings.ics_url@.len() == 0,
            settings.ics_filter@.len() == 0,
            settings.projects@.len() == 0,
            settings.tags@.len() == 0,
            settings.name@.len() == 0,
            settings.company@.len() == 0,
            settings.client@.len() == 0,
            settings.gitlab_url@.len() == 0,
            settings.gitlab_access_token@.len() == 0,
            settings.last_updated is None,
    {
        Settings {
            ics_url: String::new(),
            ics_filter: Vec::new(),
            projects: Vec::new(),
            tags: Vec::new(),
            name: String::new(),
            company: String::new(),
            client: String::new(),
            gitlab_url: String::new(),
            gitlab_access_token: String::new(),
            last_updated: None,
        }
    }
}

impl Settings {
    /// Marks the settings as updated at `now`, unless they already say when
    /// they were last updated.
    pub fn stamp(&mut self, now: u64)
        ensures
            final(self).last_updated == match old(self).last_updated {
                Some(at) => Some(at),
                None => Some(now),
            },
            final(self).ics_url == old(self).ics_url,
            final(self).ics_filter == old(self).ics_filter,
            final(self).projects == old(self).projects,
            final(self).tags == old(self).tags,
            final(self).name == old(self).name,
            final(self).company == old(self).company,
            final(self).client == old(self).client,
            final(self).gitlab_url == old(self).gitlab_url,
            final(self).gitlab_access_token == old(self).gitlab_access_token,
    {
        if self.last_updated.is_none() {
            self.last_updated = Some(now);
        }
    }
}

/// The list of timesheets that the service offers.
#[derive(Debug)]
pub struct ListTimesheets {
    pub sheets: Vec<String>,
}

impl Default for ListTimesheets {
    fn default() -> (list: Self)
        ensures
            list.sheets@.len() == 0,
    {
        ListTimesheets { sheets: Vec::new() }
    }
}

} // verus!
