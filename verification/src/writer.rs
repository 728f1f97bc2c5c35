use crate::host::{absolute_path_string, now_timestamp};
use crate::timestamp::{date_string, filename_string, lemma_date_seq_injective, Timestamp};
use vstd::prelude::*;
use vstd::string::StringExecFns;

verus! {

/// A capture is a duplicate when it is byte-for-byte equal to the last
/// written frame. An absent baseline matches nothing.
pub open spec fn is_duplicate(last: Option<Seq<u8>>, image: Seq<u8>) -> bool {
    last == Some(image)
}

/// The day folder for the date of `ts`: `root/YYYY-MM-DD`.
pub open spec fn spec_date_folder(root: Seq<char>, ts: Timestamp) -> Seq<char> {
    root + seq!['/'] + ts.date_seq()
}

/// The full path of a frame taken at `ts`:
/// `root/YYYY-MM-DD/YYYY-MM-DDThh.mm.ss.png`.
pub open spec fn spec_file_path(root: Seq<char>, ts: Timestamp) -> Seq<char> {
    spec_date_folder(root, ts) + seq!['/'] + ts.filename_seq()
}

/// The one fatal, configuration-time failure: the output root could not be
/// resolved to an absolute path.
#[derive(Clone, Copy, PartialEq, Eq, Structural, Debug)]
pub enum ConfigError {
    UnresolvablePath,
}

/// What one capture iteration did, when it did not fail.
#[derive(Debug)]
pub enum WriteOutcome {
    /// A frame was persisted at this path.
    Written(String),
    /// The capture equalled the last written frame and duplicate
    /// suppression was on; nothing was touched.
    Skipped,
}

/// The recoverable per-iteration failures.
#[derive(Clone, Copy, PartialEq, Eq, Structural, Debug)]
pub enum WriteError {
    /// The capture provider could not obtain a frame.
    CaptureFailed,
    /// Creating the day folder or writing the file failed.
    IoFailed,
}

/// What the writer asks its caller to do with a fresh capture.
#[derive(Debug)]
pub enum WritePlan {
    /// Duplicate of the last written frame: do not touch the filesystem.
    Skip,
    /// Create `dir` (and its ancestors) and write the frame to `file`.
    Save { dir: String, file: String },
}

/// Compares two byte strings for exact equality.
pub fn bytes_equal(a: &[u8], b: &[u8]) -> (r: bool)
    ensures
        r == (a@ == b@),
{
    if a.len() != b.len() {
        assert(a@.len() != b@.len());
        return false;
    }
    let mut i: usize = 0;
    while i < a.len()
        invariant
            0 <= i <= a@.len(),
            a@.len() == b@.len(),
            forall|j: int| 0 <= j < i ==> a@[j] == b@[j],
        decreases a@.len() - i,
    {
        if a[i] != b[i] {
            return false;
        }
        i += 1;
    }
    proof {
        assert(a@ =~= b@);
    }
    true
}

/// Owns the output root and the duplicate-detection baseline: the bytes of
/// the most recently written (not merely captured) frame.
pub struct ScreenshotWriter {
    write_folder: String,
    last_screenshot: Option<Vec<u8>>,
}

impl ScreenshotWriter {
    /// The output root path.
    pub closed spec fn folder(&self) -> Seq<char> {
        self.write_folder@
    }

    /// The bytes of the last written frame, absent until the first
    /// successful write.
    pub closed spec fn last_image(&self) -> Option<Seq<u8>> {
        match self.last_screenshot {
            Some(ref v) => Some(v@),
            None => None,
        }
    }

    /// The root is a nonempty (absolute) path.
    pub open spec fn wf(&self) -> bool {
        self.folder().len() > 0
    }

    /// Resolves `folder` against the current working directory and starts
    /// with no baseline. Fails exactly when the host cannot resolve the
    /// path; it never touches the filesystem.
    pub fn new(folder: String) -> (r: Result<ScreenshotWriter, ConfigError>)
        ensures
            (match r {
                Ok(w) => w.wf() && w.folder()[0] == '/' && w.last_image() is None,
                Err(e) => e == ConfigError::UnresolvablePath,
            }),
            folder@.len() == 0 ==> r is Err,
    {
        match absolute_path_string(folder.as_str()) {
            Some(p) => Ok(ScreenshotWriter::from_absolute(p)),
            None => Err(ConfigError::UnresolvablePath),
        }
    }

    /// Builds a writer over an already-resolved root, with no baseline.
    pub fn from_absolute(folder: String) -> (w: ScreenshotWriter)
        requires
            folder@.len() > 0,
        ensures
            w.folder() == folder@,
            w.last_image() is None,
            w.wf(),
    {
        ScreenshotWriter { write_folder: folder, last_screenshot: None }
    }

    /// The resolved output root.
    pub fn write_folder(&self) -> (r: &String)
        ensures
            r@ == self.folder(),
    {
        &self.write_folder
    }

    /// Whether `new_image` is byte-identical to the last written frame.
    pub fn images_are_identical(&self, new_image: &[u8]) -> (r: bool)
        ensures
            r == is_duplicate(self.last_image(), new_image@),
    {
        match &self.last_screenshot {
            Some(last) => bytes_equal(last.as_slice(), new_image),
            None => false,
        }
    }

    /// The day folder for the date of `ts`.
    pub fn date_folder_path_at(&self, ts: &Timestamp) -> (r: String)
        requires
            ts.wf(),
        ensures
            r@ == spec_date_folder(self.folder(), *ts),
    {
        proof {
            reveal_strlit("/");
        }
        let d = date_string(ts);
        let r = self.write_folder.clone().concat("/").concat(d.as_str());
        proof {
            assert(r@ =~= spec_date_folder(self.folder(), *ts));
        }
        r
    }

    /// The full file path for a frame taken at `ts`.
    pub fn file_path_at(&self, ts: &Timestamp) -> (r: String)
        requires
            ts.wf(),
        ensures
            r@ == spec_file_path(self.folder(), *ts),
    {
        proof {
            reveal_strlit("/");
        }
        let dir = self.date_folder_path_at(ts);
        let name = filename_string(ts);
        let r = dir.concat("/").concat(name.as_str());
        proof {
            assert(r@ =~= spec_file_path(self.folder(), *ts));
        }
        r
    }

    /// The day folder for today, read fresh from the host clock on every
    /// call: the date is never cached across iterations.
    pub fn date_folder_path(&self) -> (r: String)
        ensures
            exists|ts: Timestamp| ts.wf() && r@ == spec_date_folder(self.folder(), ts),
    {
        let ts = now_timestamp();
        let r = self.date_folder_path_at(&ts);
        proof {
            assert(ts.wf() && r@ == spec_date_folder(self.folder(), ts));
        }
        r
    }

    /// Today's date formatted `YYYY-MM-DD`, read fresh from the host clock.
    pub fn today_directory_name() -> (r: String)
        ensures
            exists|ts: Timestamp| ts.wf() && r@ == ts.date_seq(),
    {
        let ts = now_timestamp();
        let r = date_string(&ts);
        proof {
            assert(ts.wf() && r@ == ts.date_seq());
        }
        r
    }

    /// The file name for a frame taken now: a second-accurate timestamp
    /// with the image extension.
    pub fn current_time_image_filename() -> (r: String)
        ensures
            exists|ts: Timestamp| ts.wf() && r@ == ts.filename_seq(),
    {
        let ts = now_timestamp();
        let r = filename_string(&ts);
        proof {
            assert(ts.wf() && r@ == ts.filename_seq());
        }
        r
    }

    /// Decides what to do with a fresh capture: skip it as a duplicate, or
    /// save it under the day folder of `ts`. Touches nothing and decides
    /// exactly as the duplicate rule says.
    pub fn plan_write(&self, skip_duplicates: bool, image: &Vec<u8>, ts: &Timestamp) -> (p:
        WritePlan)
        requires
            self.wf(),
            ts.wf(),
        ensures
            (match p {
                WritePlan::Skip => skip_duplicates && is_duplicate(self.last_image(), image@),
                WritePlan::Save { dir, file } => !(skip_duplicates && is_duplicate(
                    self.last_image(),
                    image@,
                )) && dir@ == spec_date_folder(self.folder(), *ts) && file@ == spec_file_path(
                    self.folder(),
                    *ts,
                ),
            }),
    {
        if skip_duplicates && self.images_are_identical(image.as_slice()) {
            WritePlan::Skip
        } else {
            let dir = self.date_folder_path_at(ts);
            let file = self.file_path_at(ts);
            WritePlan::Save { dir, file }
        }
    }

    /// Records the result the caller reports for a planned save: on
    /// success the frame becomes the new duplicate-detection baseline; a
    /// failed write never becomes the baseline.
    pub fn finish_write(&mut self, image: Vec<u8>, io_ok: bool)
        ensures
            final(self).folder() == old(self).folder(),
            io_ok ==> final(self).last_image() == Some(image@),
            !io_ok ==> final(self).last_image() == old(self).last_image(),
    {
        if io_ok {
            self.last_screenshot = Some(image);
        }
    }

    /// One full capture iteration, given the events of that iteration: the
    /// provider's capture (or its failure) and whether the filesystem save
    /// succeeded. The baseline moves exactly on a confirmed write.
    pub fn write_screenshot(
        &mut self,
        skip_duplicates: bool,
        capture: Option<Vec<u8>>,
        io_ok: bool,
        ts: &Timestamp,
    ) -> (r: Result<WriteOutcome, WriteError>)
        requires
            old(self).wf(),
            ts.wf(),
        ensures
            final(self).folder() == old(self).folder(),
            final(self).wf(),
            (match capture {
                None => r == Err::<WriteOutcome, WriteError>(WriteError::CaptureFailed)
                    && final(self).last_image() == old(self).last_image(),
                Some(img) => if skip_duplicates && is_duplicate(old(self).last_image(), img@) {
                    r == Ok::<WriteOutcome, WriteError>(WriteOutcome::Skipped)
                        && final(self).last_image() == old(self).last_image()
                } else if io_ok {
                    (r matches Ok(WriteOutcome::Written(p)) && p@ == spec_file_path(
                        old(self).folder(),
                        *ts,
                    )) && final(self).last_image() == Some(img@)
                } else {
                    r == Err::<WriteOutcome, WriteError>(WriteError::IoFailed)
                        && final(self).last_image() == old(self).last_image()
                },
            }),
    {
        match capture {
            None => Err(WriteError::CaptureFailed),
            Some(img) => {
                match self.plan_write(skip_duplicates, &img, ts) {
                    WritePlan::Skip => Ok(WriteOutcome::Skipped),
                    WritePlan::Save { dir: _, file } => {
                        self.finish_write(img, io_ok);
                        if io_ok {
                            Ok(WriteOutcome::Written(file))
                        } else {
                            Err(WriteError::IoFailed)
                        }
                    },
                }
            },
        }
    }
}

/// Under one root, two well-formed timestamps with different dates name
/// different day folders: the folder changes with the date without
/// reconstructing the writer.
pub proof fn lemma_distinct_dates_distinct_folders(root: Seq<char>, t1: Timestamp, t2: Timestamp)
    requires
        t1.wf(),
        t2.wf(),
        !(t1.year == t2.year && t1.month == t2.month && t1.day == t2.day),
    ensures
        spec_date_folder(root, t1) != spec_date_folder(root, t2),
{
    if spec_date_folder(root, t1) == spec_date_folder(root, t2) {
        let n = root.len() as int;
        assert(t1.date_seq() =~= spec_date_folder(root, t1).subrange(n + 1, n + 11));
        assert(t2.date_seq() =~= spec_date_folder(root, t2).subrange(n + 1, n + 11));
        lemma_date_seq_injective(t1, t2);
        assert(false);
    }
}

} // verus!
