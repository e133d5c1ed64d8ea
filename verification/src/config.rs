//! Application configuration.
//!
//! The value object for the configuration file: a version stamp and the
//! list of directories holding the music library. Reading and writing the
//! file itself is left to the surrounding application.

use vstd::prelude::*;

verus! {

/// The persisted application configuration.
#[derive(Debug)]
pub struct AppConfig {
    pub version: u32,
    pub media_dirs: Vec<String>,
}

impl Clone for AppConfig {
    /// A copy carrying the same version and the same directories.
    fn clone(&self) -> (res: AppConfig)
        ensures
            res.version == self.version,
            res.media_dirs@ == self.media_dirs@,
    {
        let mut dirs: Vec<String> = Vec::new();
        let mut i: usize = 0;
        while i < self.media_dirs.len()
            invariant
                0 <= i <= self.media_dirs@.len(),
                dirs@ == self.media_dirs@.subrange(0, i as int),
            decreases self.media_dirs@.len() - i,
        {
            dirs.push(self.media_dirs[i].clone());
            proof {
                assert(self.media_dirs@.subrange(0, i + 1)
                    =~= self.media_dirs@.subrange(0, i as int).push(self.media_dirs@[i as int]));
            }
            i = i + 1;
        }
        proof {
            assert(self.media_dirs@.subrange(0, self.media_dirs@.len() as int)
                =~= self.media_dirs@);
        }
        AppConfig { version: self.version, media_dirs: dirs }
    }
}

impl Default for AppConfig {
    /// The configuration before a file exists: version 1, no directories.
    fn default() -> (c: AppConfig)
        ensures
            c.version == 1,
            c.media_dirs@.len() == 0,
    {
        AppConfig { version: 1, media_dirs: Vec::new() }
    }
}

} // verus!
