//! The abstraction of text buffers: the text being edited, its binding to a
//! filesystem path, and the dirty flag that drives saving.

use vstd::prelude::*;

use crate::storage::OpenOutcome;
use crate::storage::StorageError;
use crate::storage::create_rw;
use crate::storage::flush_file;
use crate::storage::open_rw;
use crate::storage::read_all;
use crate::storage::rewind_start;
use crate::storage::truncate_all;
use crate::storage::write_all_text;

verus! {

/// A trailing carriage return is part of a line break, not of the line.
pub open spec fn strip_cr(t: Seq<char>) -> Seq<char> {
    if t.len() > 0 && t.last() == '\r' {
        t.drop_last()
    } else {
        t
    }
}

/// The index of the first newline of `s`, or `s.len()` when there is none.
pub open spec fn first_nl(s: Seq<char>) -> nat
    decreases s.len(),
{
    if s.len() == 0 {
        0
    } else if s[0] == '\n' {
        0
    } else {
        1 + first_nl(s.skip(1))
    }
}

/// The lines of a text: the pieces between line breaks, where a line break
/// is a newline or a carriage return followed by a newline, and a final
/// line break ends the last line rather than opening an empty one.
pub open spec fn lines_spec(s: Seq<char>) -> Seq<Seq<char>>
    decreases s.len(),
{
    if s.len() == 0 {
        Seq::empty()
    } else {
        let i = first_nl(s) as int;
        if i < s.len() {
            seq![strip_cr(s.take(i))] + lines_spec(s.skip(i + 1))
        } else {
            seq![s]
        }
    }
}

proof fn lemma_first_nl_is(s: Seq<char>, k: int)
    requires
        0 <= k <= s.len(),
        forall|j: int| 0 <= j < k ==> s[j] != '\n',
        k < s.len() ==> s[k] == '\n',
    ensures
        first_nl(s) == k,
    decreases s.len(),
{
    if s.len() == 0 {
    } else if k == 0 {
    } else {
        assert(s[0] != '\n');
        assert forall|j: int| 0 <= j < k - 1 implies s.skip(1)[j] != '\n' by {
            assert(s.skip(1)[j] == s[j + 1]);
        }
        if k - 1 < s.skip(1).len() {
            assert(s.skip(1)[k - 1] == s[k]);
        }
        lemma_first_nl_is(s.skip(1), k - 1);
    }
}

/// Status of a file binding: the relationship between in-memory text and a
/// location in the filesystem. A handle is held exactly when the file
/// exists, so a write to a never-opened handle is unrepresentable.
pub enum FileStatus {
    /// The file exists in the filesystem and is held open read/write.
    Exist { fd: tokio::fs::File, file_path: String },
    /// A path is assigned but nothing exists there yet.
    New { file_path: String },
    /// No path was ever assigned.
    Unnamed,
}

/// Truncates the open file to nothing and writes `text` from the start, so
/// that the file holds exactly `text` afterwards.
fn overwrite_whole(fd: &mut tokio::fs::File, text: &String) -> (r: Result<(), StorageError>)
    ensures
        r matches Err(e) ==> !(e is NoTarget),
{
    match rewind_start(fd) {
        Ok(()) => {}
        Err(e) => {
            return Err(e);
        }
    }
    match truncate_all(fd) {
        Ok(()) => {}
        Err(e) => {
            return Err(e);
        }
    }
    match write_all_text(fd, text) {
        Ok(()) => {}
        Err(e) => {
            return Err(e);
        }
    }
    flush_file(fd)
}

impl FileStatus {
    /// The assigned path, if any.
    pub open spec fn path_spec(&self) -> Option<Seq<char>> {
        match self {
            FileStatus::Exist { file_path, .. } => Some(file_path@),
            FileStatus::New { file_path } => Some(file_path@),
            FileStatus::Unnamed => None,
        }
    }

    /// Continue a write on a not-yet-created binding from the outcome of the
    /// creation: a failed creation is handed back unchanged and the binding
    /// stays pending, while a successful creation promotes the binding to
    /// the freshly opened file before the write, whatever the write then
    /// returns.
    pub fn write_created(
        created: Result<tokio::fs::File, StorageError>,
        file_path: String,
        text: &String,
    ) -> (res: (FileStatus, Result<(), StorageError>))
        ensures
            created matches Err(e) ==> res.0 == (FileStatus::New { file_path }) && res.1
                == Err::<(), StorageError>(e),
            created is Ok ==> (res.0 matches FileStatus::Exist { file_path: p, .. } && p
                == file_path),
            created is Ok ==> (res.1 matches Err(e) ==> !(e is NoTarget)),
    {
        match created {
            Ok(mut fd) => {
                let r = overwrite_whole(&mut fd, text);
                (FileStatus::Exist { fd, file_path }, r)
            }
            Err(e) => (FileStatus::New { file_path }, Err(e)),
        }
    }

    /// Write the given text to the bound file, overwriting all previously
    /// existing data. For a file that does not exist yet, this first creates
    /// it and promotes the binding: a one-shot, irreversible transition.
    /// Writing with no path assigned fails with `NoTarget` and nothing else
    /// ever does.
    pub fn write(&mut self, text: &String) -> (r: Result<(), StorageError>)
        ensures
            final(self).path_spec() == old(self).path_spec(),
            ((*old(self)) is Unnamed) <==> (r matches Err(e) && e is NoTarget),
            (*old(self)) is Unnamed ==> *final(self) == *old(self),
            (*old(self)) is Exist ==> (*final(self)) is Exist,
            (*old(self)) is New ==> ((*final(self)) is New || (*final(self)) is Exist),
            (*old(self)) is New && (*final(self)) is New ==> r is Err,
            r is Ok ==> (*final(self)) is Exist,
    {
        let mut current = FileStatus::Unnamed;
        core::mem::swap(self, &mut current);
        match current {
            FileStatus::Unnamed => Err(StorageError::NoTarget),
            FileStatus::Exist { mut fd, file_path } => {
                let r = overwrite_whole(&mut fd, text);
                *self = FileStatus::Exist { fd, file_path };
                r
            }
            FileStatus::New { file_path } => {
                let created = create_rw(&file_path);
                let (status, r) = Self::write_created(created, file_path, text);
                *self = status;
                r
            }
        }
    }

    /// The file path of the binding, if applicable.
    pub fn file_path(&self) -> (r: Option<&String>)
        ensures
            match r {
                Some(p) => self.path_spec() == Some(p@),
                None => self.path_spec() is None,
            },
    {
        match self {
            FileStatus::Exist { file_path, .. } => Some(file_path),
            FileStatus::New { file_path } => Some(file_path),
            FileStatus::Unnamed => None,
        }
    }
}

/// A text buffer: the single point of truth for what the user is editing
/// and whether it has been saved.
pub struct TextBuffer {
    text: String,
    status: FileStatus,
    dirty: bool,
}

impl TextBuffer {
    /// The text held by the buffer.
    pub closed spec fn text_spec(&self) -> Seq<char> {
        self.text@
    }

    /// Whether the text may differ from what is durably stored.
    pub closed spec fn dirty_spec(&self) -> bool {
        self.dirty
    }

    /// The buffer's file binding.
    pub closed spec fn status_spec(&self) -> FileStatus {
        self.status
    }

    /// The assigned path, if any.
    pub open spec fn path_spec(&self) -> Option<Seq<char>> {
        self.status_spec().path_spec()
    }

    /// Create a new empty unnamed buffer. It is clean: an empty unnamed
    /// buffer has nothing worth forcing a save for.
    pub fn new() -> (r: TextBuffer)
        ensures
            r.text_spec() == Seq::<char>::empty(),
            r.status_spec() is Unnamed,
            !r.dirty_spec(),
    {
        TextBuffer { text: String::new(), status: FileStatus::Unnamed, dirty: false }
    }

    /// Create a new unnamed buffer from a string. Seeded text is not itself
    /// unsaved work until further edited.
    pub fn from_text(text: String) -> (r: TextBuffer)
        ensures
            r.text_spec() == text@,
            r.status_spec() is Unnamed,
            !r.dirty_spec(),
    {
        TextBuffer { text, status: FileStatus::Unnamed, dirty: false }
    }

    /// Continue an open on a file that exists, from the outcome of reading
    /// it: the read text becomes the buffer's text, stored behind a bound
    /// binding holding the given handle, and a failed read is handed back
    /// unchanged.
    pub fn from_read_result(
        read: Result<String, StorageError>,
        fd: tokio::fs::File,
        file_path: String,
    ) -> (r: Result<TextBuffer, StorageError>)
        ensures
            read matches Ok(text) ==> (r matches Ok(b) && b.status_spec() == (FileStatus::Exist {
                fd,
                file_path,
            }) && b.text_spec() == text@ && !b.dirty_spec()),
            read matches Err(e) ==> (r matches Err(e2) && e2 == e),
    {
        match read {
            Ok(text) => Ok(
                TextBuffer { text, status: FileStatus::Exist { fd, file_path }, dirty: false },
            ),
            Err(e) => Err(e),
        }
    }

    /// Continue opening a buffer from the outcome of the open itself. An
    /// absent file is not an error: it yields a clean empty buffer whose
    /// binding is pending creation. An open failure is handed back
    /// unchanged. An opened file is read in whole, giving a clean bound
    /// buffer.
    pub fn from_open_outcome(outcome: OpenOutcome, file_path: String) -> (r: Result<
        TextBuffer,
        StorageError,
    >)
        ensures
            outcome is Absent ==> (r matches Ok(b) && b.status_spec() == (FileStatus::New {
                file_path,
            }) && b.text_spec() == Seq::<char>::empty() && !b.dirty_spec()),
            outcome matches OpenOutcome::Failed(e) ==> (r matches Err(e2) && e2 == e),
            outcome matches OpenOutcome::Opened(_) ==> {
                &&& (r matches Ok(b) ==> b.status_spec() is Exist && b.path_spec() == Some(
                    file_path@,
                ) && !b.dirty_spec())
                &&& (r matches Err(e) ==> !(e is NoTarget))
            },
    {
        match outcome {
            OpenOutcome::Opened(mut fd) => {
                let read = read_all(&mut fd);
                Self::from_read_result(read, fd, file_path)
            }
            OpenOutcome::Absent => Ok(
                TextBuffer {
                    text: String::new(),
                    status: FileStatus::New { file_path },
                    dirty: false,
                },
            ),
            OpenOutcome::Failed(e) => Err(e),
        }
    }

    /// Create a new buffer bound to the given path. When a file exists
    /// there, its whole content is read in; when nothing exists there, the
    /// buffer starts empty and the file will be created on the first save.
    /// Either way the fresh buffer is clean.
    pub fn from_file(file_path: String) -> (r: Result<TextBuffer, StorageError>)
        ensures
            r matches Ok(b) ==> {
                &&& !b.dirty_spec()
                &&& b.path_spec() == Some(file_path@)
                &&& (b.status_spec() is Exist || b.status_spec() is New)
                &&& (b.status_spec() is New ==> b.text_spec() == Seq::<char>::empty())
            },
            r matches Err(e) ==> !(e is NoTarget),
    {
        let outcome = open_rw(&file_path);
        Self::from_open_outcome(outcome, file_path)
    }

    /// The text of this buffer.
    pub fn text(&self) -> (r: &String)
        ensures
            r@ == self.text_spec(),
    {
        &self.text
    }

    /// The lines of this buffer, as a fresh vector.
    pub fn lines(&self) -> (r: Vec<String>)
        ensures
            r.deep_view() == lines_spec(self.text_spec()),
    {
        let s: &str = self.text.as_str();
        let n: usize = s.unicode_len();
        let mut out: Vec<String> = Vec::new();
        let mut start: usize = 0;
        let mut i: usize = 0;
        proof {
            assert(s@.skip(0) =~= s@);
            assert(out.deep_view() =~= Seq::<Seq<char>>::empty());
            assert(out.deep_view() + lines_spec(s@) =~= lines_spec(s@));
        }
        while i < n
            invariant
                s@ == self.text_spec(),
                n == s@.len(),
                start <= i <= n,
                forall|j: int| start <= j < i ==> s@[j] != '\n',
                out.deep_view() + lines_spec(s@.skip(start as int)) == lines_spec(s@),
            decreases n - i,
        {
            if s.get_char(i) == '\n' {
                let end: usize = if i > start && s.get_char(i - 1) == '\r' {
                    i - 1
                } else {
                    i
                };
                let line: String = s.substring_char(start, end).to_owned();
                let ghost pre = out.deep_view();
                proof {
                    let t = s@.skip(start as int);
                    assert forall|j: int| 0 <= j < i - start implies t[j] != '\n' by {
                        assert(t[j] == s@[start + j]);
                    }
                    assert(t[i - start] == s@[i as int]);
                    lemma_first_nl_is(t, i - start);
                    assert(t.take(i - start) =~= s@.subrange(start as int, i as int));
                    assert(t.skip(i - start + 1) =~= s@.skip(i + 1));
                    assert(lines_spec(t) == seq![strip_cr(s@.subrange(start as int, i as int))]
                        + lines_spec(s@.skip(i + 1)));
                    if i > start && s@[i - 1] == '\r' {
                        assert(strip_cr(s@.subrange(start as int, i as int)) =~= s@.subrange(
                            start as int,
                            i - 1,
                        ));
                    } else {
                        assert(strip_cr(s@.subrange(start as int, i as int)) =~= s@.subrange(
                            start as int,
                            i as int,
                        ));
                    }
                    assert(line@ == strip_cr(s@.subrange(start as int, i as int)));
                }
                out.push(line);
                proof {
                    assert(out.deep_view() =~= pre.push(line@));
                    assert(pre.push(line@) + lines_spec(s@.skip(i + 1)) =~= pre + (seq![line@]
                        + lines_spec(s@.skip(i + 1))));
                }
                start = i + 1;
            }
            i = i + 1;
        }
        if start < n {
            let line: String = s.substring_char(start, n).to_owned();
            let ghost pre = out.deep_view();
            proof {
                let t = s@.skip(start as int);
                assert forall|j: int| 0 <= j < t.len() implies t[j] != '\n' by {
                    assert(t[j] == s@[start + j]);
                }
                lemma_first_nl_is(t, t.len() as int);
                assert(t =~= s@.subrange(start as int, n as int));
                assert(lines_spec(t) == seq![t]);
            }
            out.push(line);
            proof {
                assert(out.deep_view() =~= pre.push(line@));
                assert(pre.push(line@) =~= pre + seq![line@]);
            }
        } else {
            proof {
                assert(s@.skip(start as int) =~= Seq::<char>::empty());
                assert(lines_spec(s@.skip(start as int)) == Seq::<Seq<char>>::empty());
                assert(out.deep_view() + Seq::<Seq<char>>::empty() =~= out.deep_view());
            }
        }
        out
    }

    /// The suffix the render surface shows after the title: nothing when the
    /// buffer is clean, `+` when its unsaved edits would land in an existing
    /// file, `*` when it is dirty and no file exists on disk yet.
    pub open spec fn suffix_spec(&self) -> Seq<char> {
        if !self.dirty_spec() {
            Seq::<char>::empty()
        } else if self.status_spec() is Exist {
            "+"@
        } else {
            "*"@
        }
    }

    /// The existing-file mark `+` appears exactly when unsaved edits would
    /// land in a file that already exists. While the file is absent, or the
    /// buffer unnamed, a dirty buffer is marked `*`; a clean buffer shows no
    /// mark at all. In particular a buffer bound to a not-yet-created file
    /// is never marked `+`.
    pub proof fn lemma_suffix_states(self)
        ensures
            !self.dirty_spec() ==> self.suffix_spec() == Seq::<char>::empty(),
            (self.dirty_spec() && self.status_spec() is Exist) <==> self.suffix_spec() == "+"@,
            (self.dirty_spec() && !(self.status_spec() is Exist)) <==> self.suffix_spec() == "*"@,
    {
        reveal_strlit("");
        reveal_strlit("+");
        reveal_strlit("*");
        assert(""@.len() == 0 && "+"@.len() == 1 && "*"@.len() == 1);
        assert("+"@[0] == '+' && "*"@[0] == '*');
        assert(""@ =~= Seq::<char>::empty());
        assert("+"@ != "*"@);
    }

    /// The title of the buffer: its path, or `UNNAMED`, followed by the
    /// dirty-state suffix.
    pub open spec fn title_spec(&self) -> Seq<char> {
        (match self.path_spec() {
            Some(p) => p,
            None => "UNNAMED"@,
        }) + self.suffix_spec()
    }

    /// The title to display for this buffer.
    pub fn title(&self) -> (r: String)
        ensures
            r@ == self.title_spec(),
    {
        let mut base: String = match &self.status {
            FileStatus::Exist { file_path, .. } => file_path.clone(),
            FileStatus::New { file_path } => file_path.clone(),
            FileStatus::Unnamed => "UNNAMED".to_owned(),
        };
        let suffix: &str = if !self.dirty {
            proof {
                reveal_strlit("");
                assert(""@ =~= Seq::<char>::empty());
            }
            ""
        } else {
            match &self.status {
                FileStatus::Exist { .. } => "+",
                FileStatus::New { .. } => "*",
                FileStatus::Unnamed => "*",
            }
        };
        base.append(suffix);
        base
    }

    /// Set the text of the buffer, replacing it wholesale.
    ///
    /// Also marks the buffer as dirty.
    pub fn set_text(&mut self, text: String)
        ensures
            final(self).text_spec() == text@,
            final(self).dirty_spec(),
            final(self).status_spec() == old(self).status_spec(),
    {
        self.dirty = true;
        self.text = text;
    }

    /// The current status of the buffer.
    pub fn status(&self) -> (r: &FileStatus)
        ensures
            *r == self.status_spec(),
    {
        &self.status
    }

    /// Save the buffer.
    ///
    /// A clean buffer is saved by doing nothing: saving is idempotent. A
    /// dirty buffer is written out whole; only a successful write clears the
    /// dirty flag, so a failed save never loses an edit, and `NoTarget`
    /// comes back exactly when a dirty buffer has no path assigned.
    pub fn save(&mut self) -> (r: Result<(), StorageError>)
        ensures
            final(self).text_spec() == old(self).text_spec(),
            final(self).path_spec() == old(self).path_spec(),
            !old(self).dirty_spec() ==> r is Ok && *final(self) == *old(self),
            r is Ok ==> !final(self).dirty_spec(),
            r is Err ==> final(self).dirty_spec() && old(self).dirty_spec(),
            (r matches Err(e) && e is NoTarget) <==> (old(self).dirty_spec()
                && old(self).status_spec() is Unnamed),
            old(self).status_spec() is Unnamed ==> final(self).status_spec() is Unnamed,
            old(self).status_spec() is Exist ==> final(self).status_spec() is Exist,
            old(self).status_spec() is New ==> (final(self).status_spec() is New
                || final(self).status_spec() is Exist),
            r is Ok && old(self).dirty_spec() ==> final(self).status_spec() is Exist,
    {
        if !self.dirty {
            return Ok(());
        }
        match self.status.write(&self.text) {
            Ok(()) => {
                self.dirty = false;
                Ok(())
            }
            Err(e) => Err(e),
        }
    }

    /// The file path of this [`TextBuffer`].
    pub fn file_path(&self) -> (r: Option<&String>)
        ensures
            match r {
                Some(p) => self.path_spec() == Some(p@),
                None => self.path_spec() is None,
            },
    {
        self.status.file_path()
    }

    /// Whether the buffer is dirty.
    pub fn dirty(&self) -> (r: bool)
        ensures
            r == self.dirty_spec(),
    {
        self.dirty
    }
}

} // verus!
