//! A pool: a named, persisted collection of repositories and loose
//! files rooted at a directory.
//!
//! Loading and saving a pool (its on-disk serialization) is the manifest
//! store's business and happens outside the library; the record itself
//! and every change made to it are modelled and verified here.

use vstd::prelude::*;
use vstd::string::StringExecFns;

use crate::repository::File;
use crate::repository::Repository;
use crate::text::path_join;
use crate::text::spec_path_join;

verus! {

/// A collection of repositories and files to manage.
pub struct Pool {
    /// The pool's user-facing label.
    pub label: String,
    /// Root of the repositories tree; every repository and file of the
    /// pool lies below it.
    pub root: String,
    /// Exclusion glob patterns applied during discovery.
    pub excludes: Vec<String>,
    /// The repositories the pool manages.
    pub repositories: Vec<Repository>,
    /// The loose files the pool manages.
    pub files: Vec<File>,
}

impl Pool {
    /// A fresh pool: no excludes, no repositories, no files.
    pub fn new(label: String, root: String) -> (r: Pool)
        ensures
            r.label == label,
            r.root == root,
            r.excludes@.len() == 0,
            r.repositories@.len() == 0,
            r.files@.len() == 0,
    {
        Pool { label, root, excludes: Vec::new(), repositories: Vec::new(), files: Vec::new() }
    }

    /// Add one exclusion pattern for this pool's discovery.
    pub fn add_exclude(&mut self, pattern: String)
        ensures
            final(self).excludes@ == old(self).excludes@.push(pattern),
            final(self).label == old(self).label,
            final(self).root == old(self).root,
            final(self).repositories@ == old(self).repositories@,
            final(self).files@ == old(self).files@,
    {
        self.excludes.push(pattern);
    }

    /// Change the pool's label.  (Whether the new label collides with a
    /// stored pool is the manifest store's question.)
    pub fn set_label(&mut self, label: String)
        ensures
            final(self).label == label,
            final(self).root == old(self).root,
            final(self).excludes@ == old(self).excludes@,
            final(self).repositories@ == old(self).repositories@,
            final(self).files@ == old(self).files@,
    {
        self.label = label;
    }

    /// Move the pool's root.  Only the record changes; nothing on disk
    /// moves.
    pub fn set_root(&mut self, root: String)
        ensures
            final(self).root == root,
            final(self).label == old(self).label,
            final(self).excludes@ == old(self).excludes@,
            final(self).repositories@ == old(self).repositories@,
            final(self).files@ == old(self).files@,
    {
        self.root = root;
    }

    /// Replace the pool's repository and file lists with what a
    /// discovery found.
    pub fn set_contents(&mut self, repositories: Vec<Repository>, files: Vec<File>)
        ensures
            final(self).repositories == repositories,
            final(self).files == files,
            final(self).label == old(self).label,
            final(self).root == old(self).root,
            final(self).excludes@ == old(self).excludes@,
    {
        self.repositories = repositories;
        self.files = files;
    }

    /// Where the manifest store keeps a pool of this label: the file
    /// `label.yml` under the store directory.
    pub fn storage_path(store: &str, label: &str) -> (r: String)
        ensures
            r@ == spec_path_join(store@, label@ + ".yml"@),
    {
        let file = String::from_str(label).concat(".yml");
        path_join(store, file.as_str())
    }
}

} // verus!
