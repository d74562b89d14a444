//! The analysis record and its parts: totals, per-language and per-file counts.
use vstd::prelude::*;

verus! {

/// Line counts of one unit (a file, a language, a whole repository).
#[derive(Debug, Clone, Copy, PartialEq, Eq, Structural)]
pub struct Info {
    pub code: u32,
    pub comments: u32,
    pub blanks: u32,
}

/// Total number of lines that a set of counts stands for.
pub open spec fn lines_of(info: Info) -> int {
    info.code + info.comments + info.blanks
}

impl Info {
    pub fn new(code: u32, comments: u32, blanks: u32) -> (r: Self)
        ensures
            r.code == code,
            r.comments == comments,
            r.blanks == blanks,
    {
        Self { code: code, comments: comments, blanks: blanks }
    }

    /// All lines counted, widened so that the sum cannot overflow.
    pub fn lines(&self) -> (r: u64)
        ensures
            r == lines_of(*self),
    {
        self.code as u64 + self.comments as u64 + self.blanks as u64
    }
}

/// Counts of one file, with its path relative to the repository root.
#[derive(Debug)]
pub struct FileInfo {
    pub path: String,
    pub code: u32,
    pub comments: u32,
    pub blanks: u32,
}

/// What a `FileInfo` states, with the path as a sequence of characters.
pub struct FileView {
    pub path: Seq<char>,
    pub code: u32,
    pub comments: u32,
    pub blanks: u32,
}

impl View for FileInfo {
    type V = FileView;

    open spec fn view(&self) -> FileView {
        FileView { path: self.path@, code: self.code, comments: self.comments, blanks: self.blanks }
    }
}

impl FileInfo {
    pub fn new(path: String, code: u32, comments: u32, blanks: u32) -> (r: Self)
        ensures
            r.path == path,
            r.code == code,
            r.comments == comments,
            r.blanks == blanks,
    {
        Self { path: path, code: code, comments: comments, blanks: blanks }
    }
}

/// Totals of one language, and the counts of each of its files.
#[derive(Debug)]
pub struct LanguageInfo {
    pub name: String,
    pub total: Info,
    pub files: Vec<FileInfo>,
}

/// What a `LanguageInfo` states, over views of its parts.
pub struct LanguageView {
    pub name: Seq<char>,
    pub total: Info,
    pub files: Seq<FileView>,
}

impl View for LanguageInfo {
    type V = LanguageView;

    open spec fn view(&self) -> LanguageView {
        LanguageView {
            name: self.name@,
            total: self.total,
            files: self.files@.map_values(|f: FileInfo| f@),
        }
    }
}

impl LanguageInfo {
    pub fn new(name: String, total: Info) -> (r: Self)
        ensures
            r.name == name,
            r.total == total,
            r.files@ == Seq::<FileInfo>::empty(),
    {
        Self { name: name, total: total, files: Vec::new() }
    }
}

/// The analysis of one repository: the unit that the cache holds.
///
/// `creation_time` is when the counts were produced; `verified_time` is when
/// they were last known to match the remote HEAD (never before creation);
/// `hash` is the HEAD commit hash that the counts belong to.
#[derive(Debug)]
pub struct Data {
    pub creation_time: u64,
    pub verified_time: u64,
    pub repo: String,
    pub hash: String,
    pub total: Info,
    pub languages: Vec<LanguageInfo>,
}

impl Data {
    /// A record is well formed when it was not verified before it was created.
    pub open spec fn wf(&self) -> bool {
        self.creation_time <= self.verified_time
    }

    /// A fresh record for `repo` with the given totals, stamped with the
    /// current time, no languages and no hash yet.
    pub fn new(repo: String, total: Info) -> (r: Self)
        ensures
            r.wf(),
            r.verified_time == r.creation_time,
            r.repo == repo,
            r.total == total,
            r.hash@ == Seq::<char>::empty(),
            r.languages@ == Seq::<LanguageInfo>::empty(),
    {
        let now = current_time();
        Self {
            creation_time: now,
            verified_time: now,
            repo: repo,
            hash: String::new(),
            total: total,
            languages: Vec::new(),
        }
    }
}

/// Seconds since the epoch by the system clock; a clock set before the
/// epoch reads as the epoch itself.
pub(crate) fn current_time() -> u64 {
    match unix_time_secs() {
        Some(t) => t,
        None => 0,
    }
}

/// Relies on `std::time::SystemTime::now` and `duration_since(UNIX_EPOCH)`:
/// whole seconds since the epoch, or `None` when the clock reads earlier than it.
/// Nothing is known of the value: it is the time.
#[verifier::external_body]
fn unix_time_secs() -> (r: Option<u64>) {
    match std::time::SystemTime::now().duration_since(std::time::UNIX_EPOCH) {
        Ok(d) => Some(d.as_secs()),
        Err(_) => None,
    }
}

} // verus!
