//! Media catalog scan state.
//!
//! Tracks the progress of a library scan: the overall status, one status
//! record per scanned directory, and which directory is being worked on.

use vstd::prelude::*;

verus! {

use vstd::string::StrSliceExecFns;

/// Progress of the scan as a whole, or of one directory.
#[derive(Debug, Clone, Copy, PartialEq, Eq, Structural)]
pub enum CatalogStatus {
    Idle,
    Scanning,
    Finished,
}

/// Scan progress of a single directory.
#[derive(Debug)]
pub struct DirectoryStatus {
    pub status: CatalogStatus,
    pub name: String,
    pub count: usize,
}

/// Scan progress of the whole catalog.
pub struct Catalog {
    pub status: CatalogStatus,
    pub directory_status: Vec<DirectoryStatus>,
    pub current_directory_index: Option<usize>,
}

/// Compares two strings character by character.
fn str_eq(a: &str, b: &str) -> (r: bool)
    ensures
        r == (a@ == b@),
{
    let a_len = a.unicode_len();
    let b_len = b.unicode_len();
    if a_len != b_len {
        assert(a@ != b@) by {
            assert(a@.len() != b@.len());
        }
        return false;
    }
    let mut i: usize = 0;
    while i < a_len
        invariant
            0 <= i <= a@.len(),
            a@.len() == b@.len(),
            a_len == a@.len(),
            forall|k: int| 0 <= k < i ==> a@[k] == b@[k],
        decreases a@.len() - i,
    {
        if a.get_char(i) != b.get_char(i) {
            return false;
        }
        i = i + 1;
    }
    proof {
        assert(a@ =~= b@);
    }
    true
}

impl Catalog {
    /// The directory currently being scanned, if any.
    pub open spec fn spec_current_index(self) -> Option<usize> {
        self.current_directory_index
    }

    /// An index held as current always points into the directory list.
    pub open spec fn wf(self) -> bool {
        self.spec_current_index() matches Some(i) ==> i < self.directory_status@.len()
    }

    /// A catalog with no scan in progress.
    pub fn new() -> (c: Catalog)
        ensures
            c.wf(),
            c.status == CatalogStatus::Idle,
            c.directory_status@.len() == 0,
            c.spec_current_index() is None,
    {
        Catalog {
            status: CatalogStatus::Idle,
            directory_status: Vec::new(),
            current_directory_index: None,
        }
    }

    /// Starts a scan over the given directories: one idle record per
    /// directory, in the given order, each with a zero file count.
    pub fn prepare_scan(&mut self, directories: &Vec<String>)
        ensures
            final(self).wf(),
            final(self).status == CatalogStatus::Scanning,
            final(self).directory_status@.len() == directories@.len(),
            forall|i: int|
                0 <= i < directories@.len() ==> {
                    &&& (#[trigger] final(self).directory_status@[i]).status
                        == CatalogStatus::Idle
                    &&& final(self).directory_status@[i].name@ == directories@[i]@
                    &&& final(self).directory_status@[i].count == 0
                },
            final(self).spec_current_index() is None,
    {
        self.status = CatalogStatus::Scanning;

        let mut statuses: Vec<DirectoryStatus> = Vec::new();
        let mut i: usize = 0;
        while i < directories.len()
            invariant
                0 <= i <= directories@.len(),
                statuses@.len() == i,
                forall|k: int|
                    0 <= k < i ==> {
                        &&& (#[trigger] statuses@[k]).status == CatalogStatus::Idle
                        &&& statuses@[k].name@ == directories@[k]@
                        &&& statuses@[k].count == 0
                    },
            decreases directories@.len() - i,
        {
            statuses.push(DirectoryStatus {
                status: CatalogStatus::Idle,
                name: directories[i].clone(),
                count: 0,
            });
            i = i + 1;
        }
        self.directory_status = statuses;
        self.current_directory_index = None;
    }

    /// Marks the record whose name matches the given directory as being
    /// scanned and remembers its position; with no match, no directory is
    /// current.
    pub fn begin_scan_directory(&mut self, directory: &str)
        requires
            old(self).wf(),
        ensures
            final(self).wf(),
            final(self).status == old(self).status,
            final(self).directory_status@.len() == old(self).directory_status@.len(),
            match final(self).spec_current_index() {
                Some(i) => {
                    &&& i < old(self).directory_status@.len()
                    &&& old(self).directory_status@[i as int].name@ == directory@
                    &&& forall|k: int|
                        0 <= k < i ==> (#[trigger] old(self).directory_status@[k]).name@
                            != directory@
                    &&& final(self).directory_status@[i as int].status
                        == CatalogStatus::Scanning
                    &&& forall|k: int|
                        0 <= k < old(self).directory_status@.len() && k != i
                            ==> #[trigger] final(self).directory_status@[k]
                                == old(self).directory_status@[k]
                },
                None => {
                    &&& forall|k: int|
                        0 <= k < old(self).directory_status@.len()
                            ==> (#[trigger] old(self).directory_status@[k]).name@
                                != directory@
                    &&& final(self).directory_status@ == old(self).directory_status@
                },
            },
    {
        let mut found: Option<usize> = None;
        let mut i: usize = 0;
        while i < self.directory_status.len() && found.is_none()
            invariant
                0 <= i <= self.directory_status@.len(),
                found is None ==> forall|k: int|
                    0 <= k < i ==> (#[trigger] self.directory_status@[k]).name@
                        != directory@,
                match found {
                    Some(f) => {
                        &&& f == i - 1
                        &&& f < self.directory_status@.len()
                        &&& self.directory_status@[f as int].name@ == directory@
                        &&& forall|k: int|
                            0 <= k < f ==> (#[trigger] self.directory_status@[k]).name@
                                != directory@
                    },
                    None => true,
                },
            decreases self.directory_status@.len() - i,
        {
            if str_eq(self.directory_status[i].name.as_str(), directory) {
                found = Some(i);
            }
            i = i + 1;
        }
        self.current_directory_index = found;

        if let Some(idx) = self.current_directory_index {
            let ghost before = self.directory_status@;
            let name = self.directory_status[idx].name.clone();
            let count = self.directory_status[idx].count;
            self.directory_status.set(
                idx,
                DirectoryStatus { status: CatalogStatus::Scanning, name: name, count: count },
            );
            proof {
                assert(self.directory_status@[idx as int].name@ == before[idx as int].name@);
            }
        }
    }

    /// Updates the file count of the directory currently being scanned;
    /// without one, nothing changes.
    pub fn update_scan_directory(&mut self, count: usize)
        requires
            old(self).wf(),
        ensures
            final(self).wf(),
            final(self).status == old(self).status,
            final(self).spec_current_index() == old(self).spec_current_index(),
            match old(self).spec_current_index() {
                Some(i) => {
                    &&& final(self).directory_status@.len()
                        == old(self).directory_status@.len()
                    &&& final(self).directory_status@[i as int].count == count
                    &&& final(self).directory_status@[i as int].status
                        == old(self).directory_status@[i as int].status
                    &&& final(self).directory_status@[i as int].name@
                        == old(self).directory_status@[i as int].name@
                    &&& forall|k: int|
                        0 <= k < old(self).directory_status@.len() && k != i
                            ==> #[trigger] final(self).directory_status@[k]
                                == old(self).directory_status@[k]
                },
                None => final(self).directory_status@ == old(self).directory_status@,
            },
    {
        if let Some(idx) = self.current_directory_index {
            let status = self.directory_status[idx].status;
            let name = self.directory_status[idx].name.clone();
            self.directory_status.set(
                idx,
                DirectoryStatus { status: status, name: name, count: count },
            );
        }
    }

    /// Marks the directory currently being scanned as finished and forgets
    /// the current position.
    pub fn end_scan_directory(&mut self)
        requires
            old(self).wf(),
        ensures
            final(self).wf(),
            final(self).status == old(self).status,
            final(self).spec_current_index() is None,
            match old(self).spec_current_index() {
                Some(i) => {
                    &&& final(self).directory_status@.len()
                        == old(self).directory_status@.len()
                    &&& final(self).directory_status@[i as int].status
                        == CatalogStatus::Finished
                    &&& final(self).directory_status@[i as int].name@
                        == old(self).directory_status@[i as int].name@
                    &&& final(self).directory_status@[i as int].count
                        == old(self).directory_status@[i as int].count
                    &&& forall|k: int|
                        0 <= k < old(self).directory_status@.len() && k != i
                            ==> #[trigger] final(self).directory_status@[k]
                                == old(self).directory_status@[k]
                },
                None => final(self).directory_status@ == old(self).directory_status@,
            },
    {
        if let Some(idx) = self.current_directory_index {
            let name = self.directory_status[idx].name.clone();
            let count = self.directory_status[idx].count;
            self.directory_status.set(
                idx,
                DirectoryStatus { status: CatalogStatus::Finished, name: name, count: count },
            );
        }
        self.current_directory_index = None;
    }

    /// Marks the whole scan as finished.
    pub fn finish_scan(&mut self)
        requires
            old(self).wf(),
        ensures
            final(self).wf(),
            final(self).status == CatalogStatus::Finished,
            final(self).directory_status@ == old(self).directory_status@,
            final(self).spec_current_index() == old(self).spec_current_index(),
    {
        self.status = CatalogStatus::Finished;
    }
}

} // verus!
