//! The state machine behind the file dialog window: the state it keeps, how
//! each user message changes it, and which outside work (looking up whether a
//! directory exists, listing a directory) a message asks for. The window
//! itself, and that outside work, are up to the caller, which hands the
//! outcome back through `dir_checked`, `outdir_checked` and `listing_done`.

use vstd::prelude::*;
use crate::text::{chars_of, join_path, joined, push_decimal, push_str, decimal};
use crate::fields::{fields, split_fields, bar_free, lemma_fields_of_three, lemma_first_field};
use crate::listing::{DirEntry, EntryKind, entry_line, parent_line, kind_detail};
use crate::datetime::LocalTime;

verus! {

/// Which page of the window is shown.
#[derive(Debug, Clone, Copy, PartialEq, Eq, Structural)]
pub enum PageChoice {
    ROT,
    CON,
}

impl Default for PageChoice {
    fn default() -> (p: Self)
        ensures
            p == PageChoice::ROT,
    {
        PageChoice::ROT
    }
}

/// Which files of the listing are shown: all of them, those not selected,
/// or those selected.
#[derive(Debug, Clone, Copy, PartialEq, Eq, Structural)]
pub enum Filterf {
    All,
    Active,
    Completed,
}

impl Default for Filterf {
    fn default() -> (f: Self)
        ensures
            f == Filterf::All,
    {
        Filterf::All
    }
}

/// A message from one file's checkbox.
#[derive(Debug, Clone, Copy, PartialEq, Eq, Structural)]
pub enum FileMessage {
    Completed(bool),
}

/// The colour of the status message: the initial one, success, or failure.
#[derive(Debug, Clone, Copy, PartialEq, Eq, Structural)]
pub enum MessColor {
    Info,
    Success,
    Failure,
}

/// One line of the listing, with whether it is selected.
#[derive(Debug, Clone)]
pub struct File {
    pub description: String,
    pub completed: bool,
}

/// The abstract value of a file line.
#[verifier::ext_equal]
pub struct FileView {
    pub description: Seq<char>,
    pub completed: bool,
}

impl View for File {
    type V = FileView;

    open spec fn view(&self) -> FileView {
        FileView { description: self.description@, completed: self.completed }
    }
}

/// What a checkbox message does to a file line.
pub open spec fn file_step(f: FileView, m: FileMessage) -> FileView {
    match m {
        FileMessage::Completed(c) => FileView { completed: c, ..f },
    }
}

/// Whether a filter shows a file line.
pub open spec fn filter_shows(filter: Filterf, f: FileView) -> bool {
    match filter {
        Filterf::All => true,
        Filterf::Active => !f.completed,
        Filterf::Completed => f.completed,
    }
}

impl File {
    /// A file line, not selected.
    pub fn new(description: String) -> (f: File)
        ensures
            f@ == (FileView { description: description@, completed: false }),
    {
        File { description, completed: false }
    }

    /// Applies a checkbox message.
    pub fn update(&mut self, message: FileMessage)
        ensures
            final(self)@ == file_step(old(self)@, message),
    {
        match message {
            FileMessage::Completed(completed) => {
                self.completed = completed;
            },
        }
    }
}

impl Filterf {
    /// Whether this filter shows `file`.
    pub fn matches(&self, file: &File) -> (b: bool)
        ensures
            b == filter_shows(*self, file@),
    {
        match self {
            Filterf::All => true,
            Filterf::Active => !file.completed,
            Filterf::Completed => file.completed,
        }
    }
}

/// A message from the window.
#[derive(Debug, Clone, Copy, PartialEq, Eq, Structural)]
pub enum Message {
    PageRadioSelected(PageChoice),
    RCListPressed,
    C8SetDirPressed,
    C8ListPressed,
    C8ChgDirPressed,
    FilterChangedf(Filterf),
    FileMessage(usize, FileMessage),
    GetDirItemsChk(bool),
}

/// The outside work a message asks for.
pub enum Action {
    /// Nothing to do.
    Done,
    /// Look up whether the current directory exists, then call `dir_checked`.
    CheckDir(String),
    /// Look up whether the listed directory exists, then call `outdir_checked`.
    CheckOutDir(String),
    /// List this directory (counting the items of subdirectories when the
    /// flag is set) with `get_dirlistc`, then call `listing_done`.
    ListDir(String, bool),
}

/// The abstract value of an action.
pub enum Request {
    Done,
    CheckDir(Seq<char>),
    CheckOutDir(Seq<char>),
    ListDir(Seq<char>, bool),
}

impl View for Action {
    type V = Request;

    open spec fn view(&self) -> Request {
        match self {
            Action::Done => Request::Done,
            Action::CheckDir(p) => Request::CheckDir(p@),
            Action::CheckOutDir(p) => Request::CheckOutDir(p@),
            Action::ListDir(p, b) => Request::ListDir(p@, *b),
        }
    }
}

/// The state of the dialog.
pub struct FileDialogX {
    pub dir_value: String,
    pub mess_color: MessColor,
    pub msg_value: String,
    pub pagechoice_value: PageChoice,
    pub outdir_value: String,
    pub filterf: Filterf,
    pub files: Vec<File>,
    pub getdiritems: bool,
}

/// The abstract value of the dialog's state.
#[verifier::ext_equal]
pub struct DialogView {
    pub dir: Seq<char>,
    pub color: MessColor,
    pub msg: Seq<char>,
    pub page: PageChoice,
    pub outdir: Seq<char>,
    pub filter: Filterf,
    pub files: Seq<FileView>,
    pub getdiritems: bool,
}

impl View for FileDialogX {
    type V = DialogView;

    open spec fn view(&self) -> DialogView {
        DialogView {
            dir: self.dir_value@,
            color: self.mess_color,
            msg: self.msg_value@,
            page: self.pagechoice_value,
            outdir: self.outdir_value@,
            filter: self.filterf,
            files: self.files@.map_values(|f: File| f@),
            getdiritems: self.getdiritems,
        }
    }
}

/// The number of selected file lines.
pub open spec fn count_selected(files: Seq<FileView>) -> nat
    decreases files.len(),
{
    if files.len() == 0 {
        0
    } else {
        count_selected(files.drop_last()) + if files.last().completed { 1nat } else { 0nat }
    }
}

/// The description of the last selected file line (a blank when none is).
pub open spec fn last_selected(files: Seq<FileView>) -> Seq<char>
    decreases files.len(),
{
    if files.len() == 0 {
        " "@
    } else if files.last().completed {
        files.last().description
    } else {
        last_selected(files.drop_last())
    }
}

/// Where "change directory" on a line leads: nowhere when its first field is
/// not `DIR`; the path in its second field when its third field is
/// `..parent`; otherwise the entry named in its second field, inside the
/// listed directory.
pub open spec fn change_dir_target(outdir: Seq<char>, description: Seq<char>) -> Option<Seq<char>> {
    let f = fields(description);
    if f[0] != "DIR"@ {
        None
    } else if f[2] == "..parent"@ {
        Some(f[1])
    } else {
        Some(joined(outdir, f[1]))
    }
}

/// A line that "change directory" can act on: if its first field is `DIR`,
/// it has at least three fields.
pub open spec fn enterable(description: Seq<char>) -> bool {
    fields(description)[0] == "DIR"@ ==> fields(description).len() >= 3
}

/// The message shown when a page is chosen.
pub open spec fn page_message(c: PageChoice) -> Seq<char> {
    match c {
        PageChoice::ROT => "page choice rotate correction selected"@,
        PageChoice::CON => "page choice file dialog selected"@,
    }
}

/// What a message does to the state, and what outside work it asks for.
pub open spec fn step(s: DialogView, m: Message) -> (DialogView, Request) {
    match m {
        Message::PageRadioSelected(c) => (
            DialogView { page: c, color: MessColor::Success, msg: page_message(c), ..s },
            Request::Done,
        ),
        Message::FilterChangedf(f) => (DialogView { filter: f, ..s }, Request::Done),
        Message::FileMessage(i, fm) => if i < s.files.len() {
            (DialogView { files: s.files.update(i as int, file_step(s.files[i as int], fm)), ..s }, Request::Done)
        } else {
            (s, Request::Done)
        },
        Message::RCListPressed => (s, Request::CheckDir(s.dir)),
        Message::C8ListPressed => (s, Request::ListDir(s.dir, s.getdiritems)),
        Message::C8SetDirPressed => (s, Request::CheckOutDir(s.outdir)),
        Message::GetDirItemsChk(b) => (DialogView { getdiritems: b, ..s }, Request::Done),
        Message::C8ChgDirPressed => {
            let n = count_selected(s.files);
            if n < 1 {
                (DialogView { msg: "no item selected"@, color: MessColor::Failure, ..s }, Request::Done)
            } else if n > 1 {
                (DialogView { msg: "more than 1 item selected"@, color: MessColor::Failure, ..s }, Request::Done)
            } else {
                let d = last_selected(s.files);
                match change_dir_target(s.outdir, d) {
                    None => (
                        DialogView { msg: d + " is not a directory"@, color: MessColor::Failure, ..s },
                        Request::Done,
                    ),
                    Some(t) => (s, Request::ListDir(t, s.getdiritems)),
                }
            }
        },
    }
}

/// How the outcome of checking the current directory is reported.
pub open spec fn after_dir_check(s: DialogView, exists: bool) -> DialogView {
    if exists {
        DialogView { msg: "directory exist: "@ + s.dir, color: MessColor::Success, ..s }
    } else {
        DialogView { msg: "directory does not exist: "@ + s.dir, color: MessColor::Failure, ..s }
    }
}

/// How the outcome of checking the listed directory is applied: when it
/// exists it becomes the current directory.
pub open spec fn after_outdir_check(s: DialogView, exists: bool) -> DialogView {
    if exists {
        DialogView {
            dir: s.outdir,
            msg: "directory has been set with "@ + s.outdir,
            color: MessColor::Success,
            ..s
        }
    } else {
        DialogView {
            msg: "directory "@ + s.outdir + " does not exist"@,
            color: MessColor::Failure,
            ..s
        }
    }
}

/// How a listing is applied: its message is shown; when it succeeded, its
/// lines replace the file lines (none selected) and its path becomes the
/// listed directory.
pub open spec fn after_listing(
    s: DialogView,
    code: u32,
    msg: Seq<char>,
    newdir: Seq<char>,
    lines: Seq<Seq<char>>,
) -> DialogView {
    if code == 0 {
        DialogView {
            msg,
            files: lines.map_values(|d: Seq<char>| FileView { description: d, completed: false }),
            outdir: newdir,
            color: MessColor::Success,
            ..s
        }
    } else {
        DialogView { msg, color: MessColor::Failure, ..s }
    }
}

impl DialogView {
    /// Every file line can be acted on by "change directory".
    pub open spec fn wf(self) -> bool {
        forall|i: int| 0 <= i < self.files.len() ==> enterable(#[trigger] self.files[i].description)
    }

    /// "Change directory" can act on the selection: when exactly one line is
    /// selected, it can be acted on.
    pub open spec fn change_dir_ready(self) -> bool {
        count_selected(self.files) == 1 ==> enterable(last_selected(self.files))
    }
}

/// The state the window opens with.
pub open spec fn initial_view() -> DialogView {
    DialogView {
        dir: "no directory"@,
        color: MessColor::Info,
        msg: "no message"@,
        page: PageChoice::ROT,
        outdir: Seq::empty(),
        filter: Filterf::All,
        files: Seq::empty(),
        getdiritems: false,
    }
}

/// Whether two character sequences are equal.
fn chars_eq(a: &[char], b: &[char]) -> (r: bool)
    ensures
        r == (a@ == b@),
{
    if a.len() != b.len() {
        return false;
    }
    let n = a.len();
    for i in 0..n
        invariant
            n == a@.len(),
            n == b@.len(),
            forall|j: int| 0 <= j < i ==> a@[j] == b@[j],
    {
        if a[i] != b[i] {
            return false;
        }
    }
    assert(a@ =~= b@);
    true
}

/// Where "change directory" on `description` leads (see `change_dir_target`).
fn change_dir_target_of(outdir: &String, description: &String) -> (r: Option<String>)
    requires
        enterable(description@),
    ensures
        match r {
            Some(t) => change_dir_target(outdir@, description@) == Some(t@),
            None => change_dir_target(outdir@, description@) is None,
        },
{
    let cs = chars_of(description.as_str());
    let parts = split_fields(cs.as_slice());
    proof {
        crate::fields::lemma_fields_from_nonempty(description@, 0);
        assert(parts@.len() == fields(description@).len());
        assert(parts@[0]@ =~= fields(description@)[0]);
    }
    let dir = chars_of("DIR");
    if !chars_eq(parts[0].as_slice(), dir.as_slice()) {
        return None;
    }
    proof {
        assert(parts@[1]@ =~= fields(description@)[1]);
        assert(parts@[2]@ =~= fields(description@)[2]);
    }
    let up = chars_of("..parent");
    let mut name = String::new();
    crate::text::push_chars(&mut name, parts[1].as_slice());
    if chars_eq(parts[2].as_slice(), up.as_slice()) {
        Some(name)
    } else {
        Some(join_path(outdir.as_str(), name.as_str()))
    }
}

/// The number of selected lines.
fn count_selected_of(files: &Vec<File>) -> (n: usize)
    ensures
        n == count_selected(files@.map_values(|f: File| f@)),
{
    let ghost fs = files@.map_values(|f: File| f@);
    let len = files.len();
    let mut n: usize = 0;
    for i in 0..len
        invariant
            len == files@.len(),
            fs == files@.map_values(|f: File| f@),
            n == count_selected(fs.take(i as int)),
            n <= i,
    {
        proof {
            assert(fs.take(i + 1).drop_last() =~= fs.take(i as int));
            assert(fs.take(i + 1).last() == files@[i as int]@);
        }
        if files[i].completed {
            n = n + 1;
        }
    }
    assert(fs.take(len as int) =~= fs);
    n
}

/// The description of the last selected line (a blank when none is).
fn last_selected_of(files: &Vec<File>) -> (d: String)
    ensures
        d@ == last_selected(files@.map_values(|f: File| f@)),
{
    let ghost fs = files@.map_values(|f: File| f@);
    let len = files.len();
    let mut d = " ".to_owned();
    for i in 0..len
        invariant
            len == files@.len(),
            fs == files@.map_values(|f: File| f@),
            d@ == last_selected(fs.take(i as int)),
    {
        proof {
            assert(fs.take(i + 1).drop_last() =~= fs.take(i as int));
            assert(fs.take(i + 1).last() == files@[i as int]@);
        }
        if files[i].completed {
            d = files[i].description.clone();
        }
    }
    assert(fs.take(len as int) =~= fs);
    d
}

/// When every line can be acted on, "Change Directory" can act on the
/// selection.
pub proof fn law_well_formed_can_change_dir(s: DialogView)
    requires
        s.wf(),
    ensures
        s.change_dir_ready(),
    decreases s.files.len(),
{
    let fs = s.files;
    if count_selected(fs) == 1 {
        if fs.len() > 0 && !fs.last().completed {
            let t = DialogView { files: fs.drop_last(), ..s };
            assert forall|i: int| 0 <= i < t.files.len() implies enterable(#[trigger] t.files[i].description) by {
                assert(t.files[i] == fs[i]);
            }
            law_well_formed_can_change_dir(t);
        } else if fs.len() > 0 {
            assert(enterable(fs[fs.len() - 1].description));
        }
    }
}

/// Whether a line can be acted on by "Change Directory" (see `enterable`).
fn enterable_line(description: &String) -> (b: bool)
    ensures
        b == enterable(description@),
{
    let cs = chars_of(description.as_str());
    let parts = split_fields(cs.as_slice());
    proof {
        crate::fields::lemma_fields_from_nonempty(description@, 0);
        assert(parts@.len() == fields(description@).len());
        assert(parts@[0]@ =~= fields(description@)[0]);
    }
    let dir = chars_of("DIR");
    !chars_eq(parts[0].as_slice(), dir.as_slice()) || parts.len() >= 3
}

impl FileDialogX {
    /// The state the window opens with.
    pub fn new() -> (d: FileDialogX)
        ensures
            d@ == initial_view(),
            d@.dir == "no directory"@ && d@.msg == "no message"@ && d@.color == MessColor::Info,
            d@.page == PageChoice::ROT && d@.filter == Filterf::All && !d@.getdiritems,
            d@.outdir.len() == 0 && d@.files.len() == 0,
    {
        let d = FileDialogX {
            dir_value: "no directory".to_owned(),
            mess_color: MessColor::Info,
            msg_value: "no message".to_owned(),
            pagechoice_value: PageChoice::ROT,
            outdir_value: String::new(),
            filterf: Filterf::All,
            files: Vec::new(),
            getdiritems: false,
        };
        assert(d@.files =~= Seq::<FileView>::empty());
        d
    }

    /// The window's title.
    pub fn title(&self) -> (t: String)
        ensures
            t@ == "File dialog test"@,
    {
        "File dialog test".to_owned()
    }

    /// Applies a message from the window and returns the outside work it
    /// asks for.
    pub fn update(&mut self, message: Message) -> (a: Action)
        requires
            message == Message::C8ChgDirPressed ==> old(self)@.change_dir_ready(),
        ensures
            (final(self)@, a@) == step(old(self)@, message),
            old(self)@.wf() ==> final(self)@.wf(),
            message == Message::C8ListPressed ==> final(self)@ == old(self)@ && a@ == Request::ListDir(
                old(self)@.dir,
                old(self)@.getdiritems,
            ),
            forall|i: usize, c: bool|
                message == Message::FileMessage(i, FileMessage::Completed(c)) && i < old(self)@.files.len()
                    ==> {
                    &&& final(self)@.files.len() == old(self)@.files.len()
                    &&& final(self)@.files[i as int].completed == c
                    &&& final(self)@.files[i as int].description == old(self)@.files[i as int].description
                    &&& forall|j: int| 0 <= j < old(self)@.files.len() && j != i ==> final(self)@.files[j]
                        == old(self)@.files[j]
                },
    {
        let ghost s0 = self@;
        match message {
            Message::PageRadioSelected(xchoice) => {
                let strx = match xchoice {
                    PageChoice::ROT => "page choice rotate correction selected".to_owned(),
                    PageChoice::CON => "page choice file dialog selected".to_owned(),
                };
                self.pagechoice_value = xchoice;
                self.mess_color = MessColor::Success;
                self.msg_value = strx;
                Action::Done
            },
            Message::FilterChangedf(filterf) => {
                self.filterf = filterf;
                Action::Done
            },
            Message::FileMessage(i, file_message) => {
                if i < self.files.len() {
                    self.files[i].update(file_message);
                    proof {
                        assert(self@.files =~= s0.files.update(i as int, file_step(s0.files[i as int], file_message)));
                        if s0.wf() {
                            assert forall|k: int| 0 <= k < self@.files.len() implies enterable(#[trigger] self@.files[k].description) by {
                                assert(self@.files[k].description == s0.files[k].description);
                            }
                        }
                    }
                }
                Action::Done
            },
            Message::RCListPressed => Action::CheckDir(self.dir_value.clone()),
            Message::C8ListPressed => Action::ListDir(self.dir_value.clone(), self.getdiritems),
            Message::C8SetDirPressed => Action::CheckOutDir(self.outdir_value.clone()),
            Message::GetDirItemsChk(checkx) => {
                self.getdiritems = checkx;
                Action::Done
            },
            Message::C8ChgDirPressed => {
                let files_selected = count_selected_of(&self.files);
                if files_selected < 1 {
                    self.msg_value = "no item selected".to_owned();
                    self.mess_color = MessColor::Failure;
                    Action::Done
                } else if files_selected > 1 {
                    self.msg_value = "more than 1 item selected".to_owned();
                    self.mess_color = MessColor::Failure;
                    Action::Done
                } else {
                    let itemstr = last_selected_of(&self.files);
                    match change_dir_target_of(&self.outdir_value, &itemstr) {
                        None => {
                            let mut m = itemstr;
                            push_str(&mut m, " is not a directory");
                            self.msg_value = m;
                            self.mess_color = MessColor::Failure;
                            Action::Done
                        },
                        Some(newdirx) => Action::ListDir(newdirx, self.getdiritems),
                    }
                }
            },
        }
    }

    /// Whether "Change Directory" can act on the selection (the condition
    /// `update` needs for `Message::C8ChgDirPressed`).
    pub fn can_change_dir(&self) -> (b: bool)
        ensures
            b == self@.change_dir_ready(),
    {
        if count_selected_of(&self.files) != 1 {
            return true;
        }
        let itemstr = last_selected_of(&self.files);
        enterable_line(&itemstr)
    }

    /// Reports whether the current directory exists (after `Action::CheckDir`).
    pub fn dir_checked(&mut self, exists: bool)
        ensures
            final(self)@ == after_dir_check(old(self)@, exists),
    {
        if !exists {
            let mut m = "directory does not exist: ".to_owned();
            push_str(&mut m, self.dir_value.as_str());
            self.msg_value = m;
            self.mess_color = MessColor::Failure;
        } else {
            let mut m = "directory exist: ".to_owned();
            push_str(&mut m, self.dir_value.as_str());
            self.msg_value = m;
            self.mess_color = MessColor::Success;
        }
    }

    /// Sets the current directory to the listed one if it exists (after
    /// `Action::CheckOutDir`).
    pub fn outdir_checked(&mut self, exists: bool)
        ensures
            final(self)@ == after_outdir_check(old(self)@, exists),
            final(self)@.outdir == old(self)@.outdir,
            final(self)@.files == old(self)@.files,
            final(self)@.filter == old(self)@.filter,
            final(self)@.page == old(self)@.page,
            final(self)@.getdiritems == old(self)@.getdiritems,
            final(self)@.dir == (if exists { old(self)@.outdir } else { old(self)@.dir }),
    {
        let a_dir = self.outdir_value.clone();
        if exists {
            let mut m = "directory has been set with ".to_owned();
            push_str(&mut m, a_dir.as_str());
            self.dir_value = a_dir;
            self.msg_value = m;
            self.mess_color = MessColor::Success;
        } else {
            let mut m = "directory ".to_owned();
            push_str(&mut m, a_dir.as_str());
            push_str(&mut m, " does not exist");
            self.msg_value = m;
            self.mess_color = MessColor::Failure;
        }
    }

    /// Applies the result of `get_dirlistc` (after `Action::ListDir`).
    pub fn listing_done(&mut self, listing: (u32, String, String, Vec<String>))
        ensures
            final(self)@ == after_listing(
                old(self)@,
                listing.0,
                listing.1@,
                listing.2@,
                listing.3@.map_values(|l: String| l@),
            ),
            old(self)@.wf() && (listing.0 == 0 ==> forall|i: int|
                0 <= i < listing.3@.len() ==> enterable(#[trigger] listing.3@[i]@)) ==> final(self)@.wf(),
    {
        let ghost s0 = self@;
        let ghost lines = listing.3@.map_values(|l: String| l@);
        let (errcd, errstr, newdir, listitems) = listing;
        self.msg_value = errstr;
        if errcd == 0 {
            let mut files: Vec<File> = Vec::new();
            let n = listitems.len();
            for k in 0..n
                invariant
                    n == listitems@.len(),
                    files@.len() == k,
                    forall|j: int| 0 <= j < k ==> (#[trigger] files@[j])@ == (FileView {
                        description: listitems@[j]@,
                        completed: false,
                    }),
            {
                files.push(File::new(listitems[k].clone()));
            }
            self.files = files;
            self.outdir_value = newdir;
            self.mess_color = MessColor::Success;
            proof {
                assert(self@.files =~= listitems@.map_values(|l: String| l@).map_values(
                    |d: Seq<char>| FileView { description: d, completed: false },
                ));
                assert(self@ =~= after_listing(s0, errcd, errstr@, newdir@, lines));
            }
        } else {
            self.mess_color = MessColor::Failure;
            assert(self@ =~= after_listing(s0, errcd, errstr@, newdir@, lines));
        }
    }
}

/// The positions of the lines a filter shows, in order.
pub open spec fn visible_indices(files: Seq<FileView>, filter: Filterf) -> Seq<usize>
    decreases files.len(),
{
    if files.len() == 0 {
        Seq::empty()
    } else {
        let prev = visible_indices(files.drop_last(), filter);
        if filter_shows(filter, files.last()) {
            prev.push((files.len() - 1) as usize)
        } else {
            prev
        }
    }
}

/// The positions of the lines `filter` shows, in order.
pub fn visible_files(files: &Vec<File>, filter: Filterf) -> (v: Vec<usize>)
    ensures
        v@ == visible_indices(files@.map_values(|f: File| f@), filter),
        forall|k: int| 0 <= k < v@.len() ==> v@[k] < files@.len() && filter_shows(
            filter,
            files@[#[trigger] v@[k] as int]@,
        ),
        forall|k: int, l: int| 0 <= k < l < v@.len() ==> v@[k] < v@[l],
        forall|i: int| 0 <= i < files@.len() && filter_shows(filter, #[trigger] files@[i]@) ==> v@.contains(
            i as usize,
        ),
{
    let ghost fs = files@.map_values(|f: File| f@);
    let len = files.len();
    proof {
        assert(fs.len() == len);
        law_visible_indices_exact(fs, filter);
        assert forall|i: int| 0 <= i < fs.len() implies fs[i] == #[trigger] files@[i]@ by {}
    }
    let mut v: Vec<usize> = Vec::new();
    for i in 0..len
        invariant
            len == files@.len(),
            fs == files@.map_values(|f: File| f@),
            v@ == visible_indices(fs.take(i as int), filter),
    {
        proof {
            assert(fs.take(i + 1).drop_last() =~= fs.take(i as int));
            assert(fs.take(i + 1).last() == files@[i as int]@);
        }
        if filter.matches(&files[i]) {
            v.push(i);
        }
    }
    assert(fs.take(len as int) =~= fs);
    v
}

/// The text shown when a filter shows no line.
pub open spec fn empty_listing_message(filter: Filterf) -> Seq<char> {
    match filter {
        Filterf::All => "No directory selected or no files in directory"@,
        Filterf::Active => "All files have been selected"@,
        Filterf::Completed => "No files have been selected"@,
    }
}

/// The text shown when `filter` shows no line.
pub fn empty_listing_text(filter: Filterf) -> (t: String)
    ensures
        t@ == empty_listing_message(filter),
        filter == Filterf::All ==> t@ == "No directory selected or no files in directory"@,
        filter == Filterf::Active ==> t@ == "All files have been selected"@,
        filter == Filterf::Completed ==> t@ == "No files have been selected"@,
{
    match filter {
        Filterf::All => "No directory selected or no files in directory".to_owned(),
        Filterf::Active => "All files have been selected".to_owned(),
        Filterf::Completed => "No files have been selected".to_owned(),
    }
}

/// The count of selected lines shown above the listing.
pub open spec fn selection_message(n: nat) -> Seq<char> {
    decimal(n) + " "@ + (if n == 1 { "file"@ } else { "files"@ }) + " selected"@
}

/// The count of selected lines, as shown above the listing.
pub fn selection_summary(files: &Vec<File>) -> (t: String)
    ensures
        t@ == selection_message(count_selected(files@.map_values(|f: File| f@))),
        count_selected(files@.map_values(|f: File| f@)) == 1 ==> t@ == "1 file selected"@,
        count_selected(files@.map_values(|f: File| f@)) != 1 ==> t@ == decimal(
            count_selected(files@.map_values(|f: File| f@)),
        ) + " files selected"@,
{
    let n = count_selected_of(files);
    let mut t = String::new();
    push_decimal(&mut t, n as u64);
    push_str(&mut t, " ");
    if n == 1 {
        push_str(&mut t, "file");
    } else {
        push_str(&mut t, "files");
    }
    push_str(&mut t, " selected");
    proof {
        reveal_strlit("1 file selected");
        reveal_strlit(" files selected");
        reveal_strlit(" ");
        reveal_strlit("file");
        reveal_strlit("files");
        reveal_strlit(" selected");
        if n == 1 {
            assert(decimal(1) =~= seq!['1']);
            assert(t@ =~= "1 file selected"@);
        } else {
            assert(t@ =~= decimal(n as nat) + " files selected"@);
        }
    }
    t
}

/// Every line is shown without a filter, and exactly one of the two other
/// filters shows it.
pub proof fn law_filters_partition(f: FileView)
    ensures
        filter_shows(Filterf::All, f),
        filter_shows(Filterf::Active, f) != filter_shows(Filterf::Completed, f),
{
}

/// Ticking or unticking a line's checkbox decides whether the "selected"
/// filter shows it, and leaves its text alone.
pub proof fn law_checkbox_decides_filter(f: FileView, b: bool)
    ensures
        filter_shows(Filterf::Completed, file_step(f, FileMessage::Completed(b))) == b,
        filter_shows(Filterf::Active, file_step(f, FileMessage::Completed(b))) == !b,
        file_step(f, FileMessage::Completed(b)).description == f.description,
{
}

/// Without a filter every line is shown; the "selected" filter shows as many
/// lines as the selection count; the two other filters split the lines.
pub proof fn law_visible_counts(files: Seq<FileView>)
    ensures
        visible_indices(files, Filterf::All).len() == files.len(),
        visible_indices(files, Filterf::Completed).len() == count_selected(files),
        visible_indices(files, Filterf::Active).len() + visible_indices(files, Filterf::Completed).len()
            == files.len(),
    decreases files.len(),
{
    if files.len() > 0 {
        law_visible_counts(files.drop_last());
    }
}

/// "Change directory" on the parent line of a listing leads to the parent
/// directory, when its path holds no `|`.
pub proof fn law_enter_parent_line(outdir: Seq<char>, parent: Seq<char>)
    requires
        bar_free(parent),
    ensures
        change_dir_target(outdir, parent_line(Some(parent))) == Some(parent),
{
    reveal_strlit("DIR | ");
    reveal_strlit(" | ..parent");
    reveal_strlit(" | ");
    reveal_strlit("DIR");
    reveal_strlit("..parent");
    assert("DIR | "@ + parent + " | ..parent"@ =~= "DIR"@ + " | "@ + parent + " | "@ + "..parent"@);
    lemma_fields_of_three("DIR"@, parent, "..parent"@);
}

/// "Change directory" on a subdirectory's line leads to that subdirectory
/// inside the listed directory, when its name holds no `|`.
pub proof fn law_enter_directory_line(outdir: Seq<char>, name: String, item_count: Option<usize>)
    requires
        bar_free(name@),
    ensures
        change_dir_target(outdir, entry_line(DirEntry { name, kind: EntryKind::Dir { item_count } }))
            == Some(joined(outdir, name@)),
{
    reveal_strlit(" | ");
    reveal_strlit("DIR");
    reveal_strlit("..parent");
    reveal_strlit(" items");
    reveal_strlit("-- items");
    let detail = kind_detail(EntryKind::Dir { item_count });
    if let Some(n) = item_count {
        crate::text::lemma_decimal_digits(n as nat);
        assert(bar_free(detail)) by {
            assert forall|i: int| 0 <= i < detail.len() implies detail[i] != '|' by {
                if i < decimal(n as nat).len() {
                    assert(detail[i] == decimal(n as nat)[i]);
                }
            }
        }
    }
    lemma_fields_of_three("DIR"@, name@, detail);
    assert(detail != "..parent"@) by {
        if item_count is None {
            assert(detail[0] != "..parent"@[0]);
        } else {
            let n = item_count->0;
            assert(decimal(n as nat).len() >= 1);
            assert(detail[0] == decimal(n as nat)[0]);
            assert(detail[0] != "..parent"@[0]);
        }
    }
}

/// "Change directory" on a regular file's line leads nowhere.
pub proof fn law_file_lines_lead_nowhere(outdir: Seq<char>, name: String, modified: LocalTime, len: u64)
    ensures
        change_dir_target(outdir, entry_line(DirEntry { name, kind: EntryKind::File { modified, len } }))
            is None,
{
    reveal_strlit("file");
    reveal_strlit("DIR");
    let e = DirEntry { name, kind: EntryKind::File { modified, len } };
    assert(entry_line(e) =~= "file"@ + " | "@ + (name@ + " | "@ + kind_detail(e.kind)));
    lemma_first_field("file"@, name@ + " | "@ + kind_detail(e.kind));
    assert("file"@[0] != "DIR"@[0]);
}

/// "Change directory" on the line of a directory without parent leads
/// nowhere.
pub proof fn law_no_parent_line_leads_nowhere(outdir: Seq<char>)
    ensures
        change_dir_target(outdir, parent_line(None)) is None,
{
    reveal_strlit("xxx | no parent | ..");
    reveal_strlit("no parent | ..");
    reveal_strlit("xxx");
    reveal_strlit(" | ");
    reveal_strlit("DIR");
    assert("xxx | no parent | .."@ =~= "xxx"@ + " | "@ + "no parent | .."@);
    lemma_first_field("xxx"@, "no parent | .."@);
    assert("xxx"@[0] != "DIR"@[0]);
}

/// Every line of a listing can be acted on by "change directory", so a
/// successful listing keeps the dialog's state well formed.
pub proof fn law_listing_lines_enterable(parent: Option<Seq<char>>, e: DirEntry)
    ensures
        enterable(parent_line(parent)),
        enterable(entry_line(e)),
{
    crate::listing::law_listing_lines_have_three_fields(parent, e);
}

/// With no line selected, the count is zero.
proof fn lemma_none_selected(fs: Seq<FileView>)
    requires
        forall|i: int| 0 <= i < fs.len() ==> !(#[trigger] fs[i]).completed,
    ensures
        count_selected(fs) == 0,
    decreases fs.len(),
{
    if fs.len() > 0 {
        assert(!fs[fs.len() - 1].completed);
        lemma_none_selected(fs.drop_last());
    }
}

/// With line `k` the only selected one, the count is one and the selected
/// description is line `k`'s.
proof fn lemma_only_selected(fs: Seq<FileView>, k: int)
    requires
        0 <= k < fs.len(),
        fs[k].completed,
        forall|i: int| 0 <= i < fs.len() && i != k ==> !(#[trigger] fs[i]).completed,
    ensures
        count_selected(fs) == 1,
        last_selected(fs) == fs[k].description,
    decreases fs.len(),
{
    let prev = fs.drop_last();
    if k == fs.len() - 1 {
        assert forall|i: int| 0 <= i < prev.len() implies !(#[trigger] prev[i]).completed by {
            assert(prev[i] == fs[i]);
        }
        lemma_none_selected(prev);
    } else {
        assert(!fs[fs.len() - 1].completed);
        assert forall|i: int| 0 <= i < prev.len() && i != k implies !(#[trigger] prev[i]).completed by {
            assert(prev[i] == fs[i]);
        }
        lemma_only_selected(prev, k);
    }
}

/// After a successful listing no line is selected, and there is one file
/// line per listing line.
pub proof fn law_listing_resets_selection(
    s: DialogView,
    msg: Seq<char>,
    newdir: Seq<char>,
    lines: Seq<Seq<char>>,
)
    ensures
        ({
            let t = after_listing(s, 0, msg, newdir, lines);
            &&& t.files.len() == lines.len()
            &&& count_selected(t.files) == 0
            &&& forall|i: int| 0 <= i < lines.len() ==> (#[trigger] t.files[i]).description == lines[i]
        }),
{
    let t = after_listing(s, 0, msg, newdir, lines);
    assert forall|i: int| 0 <= i < t.files.len() implies !(#[trigger] t.files[i]).completed by {}
    lemma_none_selected(t.files);
}

/// After a successful listing, ticking exactly one line and pressing
/// "Change Directory" acts on that line: it lists the line's target, or
/// reports that the line is not a directory.
pub proof fn law_change_dir_acts_on_ticked_line(
    s: DialogView,
    msg: Seq<char>,
    newdir: Seq<char>,
    lines: Seq<Seq<char>>,
    k: usize,
)
    requires
        k < lines.len(),
    ensures
        ({
            let listed = after_listing(s, 0, msg, newdir, lines);
            let ticked = step(listed, Message::FileMessage(k, FileMessage::Completed(true))).0;
            step(ticked, Message::C8ChgDirPressed) == match change_dir_target(newdir, lines[k as int]) {
                Some(t) => (ticked, Request::ListDir(t, s.getdiritems)),
                None => (
                    DialogView {
                        msg: lines[k as int] + " is not a directory"@,
                        color: MessColor::Failure,
                        ..ticked
                    },
                    Request::Done,
                ),
            }
        }),
{
    let listed = after_listing(s, 0, msg, newdir, lines);
    let ticked = step(listed, Message::FileMessage(k, FileMessage::Completed(true))).0;
    assert(ticked.files[k as int].completed);
    assert forall|i: int| 0 <= i < ticked.files.len() && i != k implies !(#[trigger] ticked.files[i]).completed by {
        assert(ticked.files[i] == listed.files[i]);
    }
    lemma_only_selected(ticked.files, k as int);
}

/// The positions a filter gives are exactly those of the lines it shows,
/// each once, in increasing order.
pub proof fn law_visible_indices_exact(files: Seq<FileView>, filter: Filterf)
    requires
        files.len() <= usize::MAX,
    ensures
        forall|k: int| 0 <= k < visible_indices(files, filter).len() ==> visible_indices(files, filter)[k]
            < files.len() && filter_shows(
            filter,
            files[#[trigger] visible_indices(files, filter)[k] as int],
        ),
        forall|k: int, l: int| 0 <= k < l < visible_indices(files, filter).len() ==> visible_indices(
            files,
            filter,
        )[k] < visible_indices(files, filter)[l],
        forall|i: int| 0 <= i < files.len() && filter_shows(filter, #[trigger] files[i]) ==> visible_indices(
            files,
            filter,
        ).contains(i as usize),
    decreases files.len(),
{
    if files.len() > 0 {
        let prev = files.drop_last();
        law_visible_indices_exact(prev, filter);
        let pv = visible_indices(prev, filter);
        let v = visible_indices(files, filter);
        let last = (files.len() - 1) as usize;
        assert(last as int == files.len() - 1);
        assert forall|k: int| 0 <= k < v.len() implies v[k] < files.len() && filter_shows(filter, files[#[trigger] v[k] as int]) by {
            if k < pv.len() {
                assert(v[k] == pv[k]);
                assert(files[pv[k] as int] == prev[pv[k] as int]);
            } else {
                assert(v[k] == last);
            }
        }
        assert forall|k: int, l: int| 0 <= k < l < v.len() implies v[k] < v[l] by {
            if l < pv.len() {
                assert(v[k] == pv[k] && v[l] == pv[l]);
            } else {
                assert(v[l] == last);
                assert(v[k] == pv[k]);
            }
        }
        assert forall|i: int| 0 <= i < files.len() && filter_shows(filter, #[trigger] files[i]) implies v.contains(i as usize) by {
            if i < prev.len() {
                assert(prev[i] == files[i]);
                let k = choose|k: int| 0 <= k < pv.len() && pv[k] == i as usize;
                assert(v[k] == pv[k]);
            } else {
                assert(v[v.len() - 1] == last);
            }
        }
    }
}

/// "List Directory" asks for a listing of the current directory, counting
/// subdirectory items exactly when "Get Directory Items" is ticked, and
/// changes nothing yet.
pub proof fn law_list_directory_request(s: DialogView)
    ensures
        step(s, Message::C8ListPressed) == (s, Request::ListDir(s.dir, s.getdiritems)),
{
}

/// Ticking or unticking line `i` changes that line's tick alone: its text
/// and every other line stay as they were, whatever else is selected.
pub proof fn law_tick_changes_only_that_line(s: DialogView, i: usize, c: bool)
    requires
        i < s.files.len(),
    ensures
        ({
            let (t, r) = step(s, Message::FileMessage(i, FileMessage::Completed(c)));
            &&& r == Request::Done
            &&& t.files.len() == s.files.len()
            &&& t.files[i as int].completed == c
            &&& t.files[i as int].description == s.files[i as int].description
            &&& forall|j: int| 0 <= j < s.files.len() && j != i ==> t.files[j] == s.files[j]
            &&& t.dir == s.dir && t.outdir == s.outdir && t.msg == s.msg && t.color == s.color
            &&& t.filter == s.filter && t.page == s.page && t.getdiritems == s.getdiritems
        }),
{
}

/// "Set Directory" makes the listed directory the current one when it
/// exists and leaves it as it was otherwise; the listed directory, the lines,
/// the filter, the page and the "Get Directory Items" flag stay as they were.
pub proof fn law_set_directory(s: DialogView, exists: bool)
    ensures
        ({
            let t = after_outdir_check(s, exists);
            &&& t.dir == (if exists { s.outdir } else { s.dir })
            &&& t.outdir == s.outdir
            &&& t.files == s.files
            &&& t.filter == s.filter
            &&& t.page == s.page
            &&& t.getdiritems == s.getdiritems
        }),
{
}

/// Choosing a page records it and reports the choice; choosing a filter or
/// ticking "Get Directory Items" records that choice alone; none of them asks
/// for outside work.
pub proof fn law_choices_are_recorded(s: DialogView, c: PageChoice, f: Filterf, b: bool)
    ensures
        ({
            let (t, r) = step(s, Message::PageRadioSelected(c));
            &&& r == Request::Done
            &&& t.page == c && t.color == MessColor::Success
            &&& t.msg == (if c == PageChoice::ROT {
                "page choice rotate correction selected"@
            } else {
                "page choice file dialog selected"@
            })
            &&& t.dir == s.dir && t.outdir == s.outdir && t.files == s.files
            &&& t.filter == s.filter && t.getdiritems == s.getdiritems
        }),
        step(s, Message::FilterChangedf(f)) == (DialogView { filter: f, ..s }, Request::Done),
        step(s, Message::GetDirItemsChk(b)) == (DialogView { getdiritems: b, ..s }, Request::Done),
{
}

/// Whatever "Get Directory Items" was last set to is what the next "List
/// Directory" asks for, on the current directory.
pub proof fn law_item_count_choice_reaches_listing(s: DialogView, b: bool)
    ensures
        step(step(s, Message::GetDirItemsChk(b)).0, Message::C8ListPressed).1 == Request::ListDir(s.dir, b),
{
}

/// "Check Directory" asks whether the current directory exists and "Set
/// Directory" whether the listed one does; neither changes the state.
pub proof fn law_directory_checks_requested(s: DialogView)
    ensures
        step(s, Message::RCListPressed) == (s, Request::CheckDir(s.dir)),
        step(s, Message::C8SetDirPressed) == (s, Request::CheckOutDir(s.outdir)),
{
}

/// The outcome of checking the current directory is reported with the
/// directory's path, as a success when it exists and a failure otherwise;
/// nothing else changes.
pub proof fn law_directory_check_reported(s: DialogView, exists: bool)
    ensures
        ({
            let t = after_dir_check(s, exists);
            &&& t.msg == (if exists { "directory exist: "@ } else { "directory does not exist: "@ }) + s.dir
            &&& t.color == (if exists { MessColor::Success } else { MessColor::Failure })
            &&& t == DialogView { msg: t.msg, color: t.color, ..s }
        }),
{
}

/// "Change Directory" with no line, or with more than one line, selected
/// reports the failure and asks for nothing.
pub proof fn law_change_dir_needs_one_line(s: DialogView)
    requires
        count_selected(s.files) != 1,
    ensures
        ({
            let (t, r) = step(s, Message::C8ChgDirPressed);
            &&& r == Request::Done
            &&& t.color == MessColor::Failure
            &&& t.msg == (if count_selected(s.files) == 0 {
                "no item selected"@
            } else {
                "more than 1 item selected"@
            })
            &&& t == DialogView { msg: t.msg, color: t.color, ..s }
        }),
{
}

/// A failed listing shows its message as a failure and keeps the lines, the
/// selection and the listed directory; a successful one shows its message as
/// a success and makes its path the listed directory.
pub proof fn law_listing_outcome(
    s: DialogView,
    code: u32,
    msg: Seq<char>,
    newdir: Seq<char>,
    lines: Seq<Seq<char>>,
)
    ensures
        ({
            let t = after_listing(s, code, msg, newdir, lines);
            &&& t.msg == msg
            &&& t.dir == s.dir && t.page == s.page && t.filter == s.filter
            &&& t.getdiritems == s.getdiritems
            &&& code != 0 ==> t.color == MessColor::Failure && t.files == s.files && t.outdir == s.outdir
            &&& code == 0 ==> t.color == MessColor::Success && t.outdir == newdir
        }),
{
}

} // verus!
