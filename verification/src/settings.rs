//! The application's settings: where pool manifests are stored, which
//! executable the dispatcher runs, and which pool is current.
//!
//! Reading and writing the settings file, and locating the user's
//! configuration directory, happen outside the library; the directory
//! (when one exists) is handed in as a plain value.

use vstd::prelude::*;

use crate::text::path_join;
use crate::text::spec_opt_str;
use crate::text::spec_path_join;

verus! {

/// The application's settings record.
pub struct Settings {
    /// Directory holding the pool manifests; absolute, or relative to
    /// the configuration directory.
    pub store: String,
    /// The external command the dispatcher invokes.
    pub executable: String,
    /// The label of the current pool, when one is set.
    pub current: Option<String>,
}

/// Whether a path is absolute in this library's path model: it starts
/// with `'/'`.
pub open spec fn spec_is_absolute(p: Seq<char>) -> bool {
    p.len() > 0 && p[0] == '/'
}

/// Where the settings store resolves to: an absolute `store` stands by
/// itself; a relative one lives under the configuration directory when
/// there is one, and stands by itself otherwise.
pub open spec fn spec_store_full_path(store: Seq<char>, config_dir: Option<Seq<char>>) -> Seq<
    char,
> {
    if spec_is_absolute(store) {
        store
    } else {
        match config_dir {
            Option::Some(d) => spec_path_join(d, store),
            Option::None => store,
        }
    }
}

impl Settings {
    /// Resolve the manifest store's directory against the
    /// configuration directory, when one exists.
    pub fn store_full_path(&self, config_dir: &Option<String>) -> (r: String)
        ensures
            r@ == spec_store_full_path(self.store@, spec_opt_str(*config_dir)),
    {
        if !self.store.as_str().is_empty() && self.store.as_str().get_char(0) == '/' {
            return self.store.clone();
        }
        match config_dir {
            Some(d) => path_join(d.as_str(), self.store.as_str()),
            None => self.store.clone(),
        }
    }

    /// Where the user's settings file lives: `gmux.yml` under the
    /// configuration directory, when one exists.
    pub fn user_config_file(config_dir: &Option<String>) -> (r: Option<String>)
        ensures
            r is Some <==> config_dir is Some,
            r matches Some(p) ==> (config_dir matches Some(d) && p@ == spec_path_join(
                d@,
                "gmux.yml"@,
            )),
    {
        match config_dir {
            Some(d) => Some(path_join(d.as_str(), "gmux.yml")),
            None => None,
        }
    }

    /// Make the given pool the current one.
    pub fn set_current(&mut self, label: String)
        ensures
            final(self).current == Some(label),
            final(self).store == old(self).store,
            final(self).executable == old(self).executable,
    {
        self.current = Some(label);
    }
}

} // verus!
