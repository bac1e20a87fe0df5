//! The index of captures.
//!
//! The manager keeps the index in memory, oldest capture first. Writing
//! files and taking screenshots is left to the embedding program, which
//! loads the index at startup and stores it after each change.

use crate::text::{copy_opt, opt_str_text, opt_text};
use crate::types::CaptureMetadata;
use std::path::PathBuf;
use vstd::prelude::*;
use vstd::string::*;

verus! {

/// The capture type of a screenshot.
pub const SCREENSHOT_TYPE: &'static str = "screenshot";

/// The note on a screenshot that the operating system took.
pub const OS_SCREENSHOT_NOTE: &'static str = "OS-level screenshot";

pub struct CaptureMetadataView {
    pub id: Seq<char>,
    pub capture_type: Seq<char>,
    pub timestamp: Seq<char>,
    pub file_path: Option<Seq<char>>,
    pub tag: Option<Seq<char>>,
    pub session_id: Option<Seq<char>>,
    pub content_id: Option<Seq<char>>,
    pub note: Option<Seq<char>>,
}

impl View for CaptureMetadata {
    type V = CaptureMetadataView;

    open spec fn view(&self) -> CaptureMetadataView {
        CaptureMetadataView {
            id: self.id@,
            capture_type: self.capture_type@,
            timestamp: self.timestamp@,
            file_path: opt_text(self.file_path),
            tag: opt_text(self.tag),
            session_id: opt_text(self.session_id),
            content_id: opt_text(self.content_id),
            note: opt_text(self.note),
        }
    }
}

/// The values of a sequence of capture records.
pub open spec fn capture_views(entries: Seq<CaptureMetadata>) -> Seq<CaptureMetadataView> {
    entries.map_values(|e: CaptureMetadata| e@)
}

/// A copy of a capture record.
pub fn copy_capture(entry: &CaptureMetadata) -> (r: CaptureMetadata)
    ensures
        r@ == entry@,
{
    CaptureMetadata {
        id: entry.id.clone(),
        capture_type: entry.capture_type.clone(),
        timestamp: entry.timestamp.clone(),
        file_path: copy_opt(&entry.file_path),
        tag: copy_opt(&entry.tag),
        session_id: copy_opt(&entry.session_id),
        content_id: copy_opt(&entry.content_id),
        note: copy_opt(&entry.note),
    }
}

/// The name of a screenshot file: `screenshot_`, the timestamp, the tag
/// after an underscore where there is one, and `.png`.
pub open spec fn screenshot_name(timestamp: Seq<char>, tag: Option<Seq<char>>) -> Seq<char> {
    match tag {
        Some(t) => "screenshot_"@ + timestamp + "_"@ + t + ".png"@,
        None => "screenshot_"@ + timestamp + ".png"@,
    }
}

/// The index of captures under one directory.
pub struct CaptureManager {
    capture_dir: PathBuf,
    entries: Vec<CaptureMetadata>,
}

impl CaptureManager {
    /// The directory that the captures are written to.
    pub closed spec fn dir(&self) -> PathBuf {
        self.capture_dir
    }

    /// The recorded captures, oldest first.
    pub closed spec fn index(&self) -> Seq<CaptureMetadataView> {
        capture_views(self.entries@)
    }

    /// A manager for the directory, with an empty index.
    pub fn new(capture_dir: PathBuf) -> (r: CaptureManager)
        ensures
            r.dir() == capture_dir,
            r.index() == Seq::<CaptureMetadataView>::empty(),
    {
        let r = CaptureManager { capture_dir, entries: Vec::new() };
        proof {
            assert(r.index() =~= Seq::empty());
        }
        r
    }

    /// A manager for the directory, with the index that was stored there.
    pub fn with_index(capture_dir: PathBuf, entries: Vec<CaptureMetadata>) -> (r: CaptureManager)
        ensures
            r.dir() == capture_dir,
            r.index() == capture_views(entries@),
    {
        CaptureManager { capture_dir, entries }
    }

    /// The directory that the captures are written to.
    pub fn capture_dir(&self) -> (r: &PathBuf)
        ensures
            *r == self.dir(),
    {
        &self.capture_dir
    }

    /// Appends a capture to the index.
    pub fn record_capture(&mut self, metadata: CaptureMetadata)
        ensures
            final(self).dir() == old(self).dir(),
            final(self).index() == old(self).index().push(metadata@),
    {
        self.entries.push(metadata);
        proof {
            assert(self.index() =~= old(self).index().push(metadata@));
        }
    }

    /// Copies of the recorded captures, oldest first.
    pub fn list_captures(&self) -> (r: Vec<CaptureMetadata>)
        ensures
            capture_views(r@) == self.index(),
    {
        let mut out: Vec<CaptureMetadata> = Vec::new();
        let mut i: usize = 0;
        while i < self.entries.len()
            invariant
                i <= self.entries.len(),
                capture_views(out@) == self.index().subrange(0, i as int),
            decreases self.entries.len() - i,
        {
            let entry = copy_capture(&self.entries[i]);
            proof {
                assert(self.index()[i as int] == self.entries[i as int]@);
                assert(capture_views(out@.push(entry)) =~= capture_views(out@).push(entry@));
                assert(capture_views(out@.push(entry)) =~= self.index().subrange(
                    0,
                    i as int + 1,
                ));
            }
            out.push(entry);
            i = i + 1;
        }
        proof {
            assert(self.index().subrange(0, i as int) =~= self.index());
        }
        out
    }

    /// The name of the file that a screenshot taken at `timestamp` is
    /// written to.
    pub fn screenshot_file_name(timestamp: &str, tag: Option<&str>) -> (r: String)
        ensures
            r@ == screenshot_name(timestamp@, opt_str_text(tag)),
    {
        let mut name = String::from_str("screenshot_");
        name.append(timestamp);
        match tag {
            Some(t) => {
                name.append("_");
                name.append(t);
            },
            None => {},
        }
        name.append(".png");
        name
    }

    /// The record of a screenshot that the operating system took.
    pub fn screenshot_record(
        id: String,
        timestamp: String,
        file_path: String,
        tag: Option<String>,
    ) -> (r: CaptureMetadata)
        ensures
            r@ == (CaptureMetadataView {
                id: id@,
                capture_type: SCREENSHOT_TYPE@,
                timestamp: timestamp@,
                file_path: Some(file_path@),
                tag: opt_text(tag),
                session_id: None,
                content_id: None,
                note: Some(OS_SCREENSHOT_NOTE@),
            }),
    {
        CaptureMetadata {
            id,
            capture_type: String::from_str(SCREENSHOT_TYPE),
            timestamp,
            file_path: Some(file_path),
            tag,
            session_id: None,
            content_id: None,
            note: Some(String::from_str(OS_SCREENSHOT_NOTE)),
        }
    }
}

} // verus!
