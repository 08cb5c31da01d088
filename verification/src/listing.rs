//! The lines of a directory listing. Reading the directory is up to the
//! caller, which hands over the requested path, whether it exists, the
//! working directory to list instead when it does not, and one record per
//! entry of the directory listed; this module decides which directory is
//! listed, finds its parent, and builds the listing lines and the report.

use vstd::prelude::*;
use crate::text::{decimal, push_decimal, push_str};
use crate::datetime::LocalTime;
use crate::fields::{fields, lemma_three_parts};

verus! {

/// What an entry of a directory is.
pub enum EntryKind {
    /// A regular file, with its modification time and its size in bytes.
    File { modified: LocalTime, len: u64 },
    /// A directory, with the number of items found by walking it when they
    /// were counted.
    Dir { item_count: Option<usize> },
    /// Anything else, with the debug text of its file type.
    Other { file_type: String },
}

/// One entry of a directory.
pub struct DirEntry {
    pub name: String,
    pub kind: EntryKind,
}

/// The parent of a path, as `std::path::Path::parent` gives it (as text).
pub uninterp spec fn path_parent(path: Seq<char>) -> Option<Seq<char>>;

/// Calls `std::path::Path::parent` on `path` and turns the parent into a
/// `String` (the parent of a path made from a `&str` is a prefix of it, so
/// it is valid UTF-8 and `to_str` succeeds). Claimed: the result is
/// `path_parent` of the path, a function of the text alone; and, as std's
/// documentation says ("Returns None if the path terminates in a root or
/// prefix, or if it's the empty string"), there is no parent for the empty
/// path nor for `/`.
#[verifier::external_body]
fn parent_of(path: &str) -> (r: Option<String>)
    ensures
        match r {
            Some(p) => path_parent(path@) == Some(p@),
            None => path_parent(path@) is None,
        },
        path@.len() == 0 ==> r is None,
        path@ == seq!['/'] ==> r is None,
{
    match std::path::Path::new(path).parent() {
        Some(p) => Some(p.to_str().unwrap().to_string()),
        None => None,
    }
}

/// The directory that is listed: the requested one when it exists,
/// otherwise the working directory.
pub open spec fn listed_dir(requested: Seq<char>, requested_exists: bool, working_dir: Seq<char>) -> Seq<char> {
    if requested_exists { requested } else { working_dir }
}

/// The directory that is listed: the requested one when it exists,
/// otherwise the working directory.
pub fn listing_dir(requested: &String, requested_exists: bool, working_dir: &String) -> (d: String)
    ensures
        d@ == listed_dir(requested@, requested_exists, working_dir@),
        requested_exists ==> d@ == requested@,
        !requested_exists ==> d@ == working_dir@,
{
    if requested_exists { requested.clone() } else { working_dir.clone() }
}

/// The first line of a listing, which leads to the parent directory.
pub open spec fn parent_line(parent: Option<Seq<char>>) -> Seq<char> {
    match parent {
        Some(p) => "DIR | "@ + p + " | ..parent"@,
        None => "xxx | no parent | .."@,
    }
}

/// The first field of an entry's line.
pub open spec fn kind_label(kind: EntryKind) -> Seq<char> {
    match kind {
        EntryKind::File { .. } => "file"@,
        EntryKind::Dir { .. } => "DIR"@,
        EntryKind::Other { file_type } => file_type@,
    }
}

/// The last field of an entry's line.
pub open spec fn kind_detail(kind: EntryKind) -> Seq<char> {
    match kind {
        EntryKind::File { modified, len } => modified.text() + "  "@ + decimal(len as nat),
        EntryKind::Dir { item_count } => match item_count {
            Some(n) => decimal(n as nat) + " items"@,
            None => "-- items"@,
        },
        EntryKind::Other { .. } => " "@,
    }
}

/// The line of an entry: kind, name and detail, separated by `" | "`.
pub open spec fn entry_line(e: DirEntry) -> Seq<char> {
    kind_label(e.kind) + " | "@ + e.name@ + " | "@ + kind_detail(e.kind)
}

/// The report code: 0 when the directory has entries, 1 otherwise.
pub open spec fn listing_code(n: nat) -> u32 {
    if n > 0 { 0 } else { 1 }
}

/// The report message for a directory with `n` entries.
pub open spec fn listing_message(n: nat) -> Seq<char> {
    if n > 0 {
        decimal(n) + " items in directory "@
    } else {
        "********* Directory 1: directory has no items **********"@
    }
}

fn line_of(e: &DirEntry) -> (line: String)
    ensures
        line@ == entry_line(*e),
{
    let mut line = match &e.kind {
        EntryKind::File { .. } => "file".to_owned(),
        EntryKind::Dir { .. } => "DIR".to_owned(),
        EntryKind::Other { file_type } => file_type.clone(),
    };
    push_str(&mut line, " | ");
    push_str(&mut line, e.name.as_str());
    push_str(&mut line, " | ");
    match &e.kind {
        EntryKind::File { modified, len } => {
            push_str(&mut line, modified.text_str());
            push_str(&mut line, "  ");
            push_decimal(&mut line, *len);
        },
        EntryKind::Dir { item_count } => match item_count {
            Some(n) => {
                push_decimal(&mut line, *n as u64);
                push_str(&mut line, " items");
            },
            None => push_str(&mut line, "-- items"),
        },
        EntryKind::Other { .. } => push_str(&mut line, " "),
    }
    line
}

/// Lists a directory: a report code and message, the directory listed,
/// and the listing lines (the line leading to its parent, then one line per
/// entry). The directory listed is `current_dir` when it exists
/// (`current_dir_exists`), otherwise `working_dir`; `entries` are the
/// readable entries of that directory.
pub fn get_dirlistc(
    current_dir: String,
    current_dir_exists: bool,
    working_dir: String,
    entries: Vec<DirEntry>,
) -> (r: (u32, String, String, Vec<String>))
    ensures
        r.0 == listing_code(entries@.len()),
        r.1@ == listing_message(entries@.len()),
        r.2@ == listed_dir(current_dir@, current_dir_exists, working_dir@),
        r.3@.len() == entries@.len() + 1,
        r.3@[0]@ == parent_line(path_parent(r.2@)),
        r.2@.len() == 0 || r.2@ == seq!['/'] ==> r.3@[0]@ == parent_line(None),
        forall|i: int| 0 <= i < entries@.len() ==> r.3@[i + 1]@ == entry_line(#[trigger] entries@[i]),
        r.0 == 0 <==> entries@.len() > 0,
        r.0 == 1 <==> entries@.len() == 0,
        entries@.len() > 0 ==> r.1@ == decimal(entries@.len()) + " items in directory "@,
        entries@.len() == 0 ==> r.1@ == "********* Directory 1: directory has no items **********"@,
        path_parent(r.2@) matches Some(p) ==> r.3@[0]@ == "DIR | "@ + p + " | ..parent"@,
        path_parent(r.2@) is None ==> r.3@[0]@ == "xxx | no parent | .."@,
{
    let strpath = listing_dir(&current_dir, current_dir_exists, &working_dir);
    let mut lines: Vec<String> = Vec::new();
    let first = match parent_of(strpath.as_str()) {
        Some(p) => {
            let mut l = "DIR | ".to_owned();
            push_str(&mut l, p.as_str());
            push_str(&mut l, " | ..parent");
            l
        },
        None => "xxx | no parent | ..".to_owned(),
    };
    lines.push(first);
    let n = entries.len();
    for i in 0..n
        invariant
            n == entries@.len(),
            lines@.len() == i + 1,
            lines@[0]@ == parent_line(path_parent(strpath@)),
            forall|j: int| 0 <= j < i ==> lines@[j + 1]@ == entry_line(#[trigger] entries@[j]),
    {
        let line = line_of(&entries[i]);
        lines.push(line);
    }
    let (code, msg) = if n > 0 {
        let mut m = String::new();
        push_decimal(&mut m, n as u64);
        push_str(&mut m, " items in directory ");
        (0, m)
    } else {
        (1, "********* Directory 1: directory has no items **********".to_owned())
    };
    (code, msg, strpath, lines)
}

/// Every line of a listing splits into at least three fields.
pub proof fn law_listing_lines_have_three_fields(parent: Option<Seq<char>>, e: DirEntry)
    ensures
        fields(parent_line(parent)).len() >= 3,
        fields(entry_line(e)).len() >= 3,
{
    match parent {
        Some(p) => {
            reveal_strlit("DIR | ");
            reveal_strlit(" | ..parent");
            reveal_strlit(" | ");
            reveal_strlit("DIR");
            reveal_strlit("..parent");
            assert("DIR | "@ + p + " | ..parent"@ =~= "DIR"@ + " | "@ + p + " | "@ + "..parent"@);
            lemma_three_parts("DIR"@, p, "..parent"@);
        },
        None => {
            reveal_strlit("xxx | no parent | ..");
            reveal_strlit(" | ");
            reveal_strlit("xxx");
            reveal_strlit("no parent");
            reveal_strlit("..");
            assert("xxx | no parent | .."@ =~= "xxx"@ + " | "@ + "no parent"@ + " | "@ + ".."@);
            lemma_three_parts("xxx"@, "no parent"@, ".."@);
        },
    }
    lemma_three_parts(kind_label(e.kind), e.name@, kind_detail(e.kind));
}

/// The line of a regular file reads `file | name | time  size`; that of a
/// directory reads `DIR | name | count items`, or `DIR | name | -- items`
/// when its items were not counted; that of anything else reads
/// `type | name |  `.
pub proof fn law_entry_line_forms(e: DirEntry)
    ensures
        e.kind matches EntryKind::File { modified, len } ==> entry_line(e) == "file | "@ + e.name@ + " | "@
            + modified.text() + "  "@ + decimal(len as nat),
        e.kind matches EntryKind::Dir { item_count } ==> entry_line(e) == "DIR | "@ + e.name@ + " | "@
            + match item_count {
            Some(n) => decimal(n as nat) + " items"@,
            None => "-- items"@,
        },
        e.kind matches EntryKind::Other { file_type } ==> entry_line(e) == file_type@ + " | "@ + e.name@
            + " |  "@,
{
    reveal_strlit("file | ");
    reveal_strlit("file");
    reveal_strlit("DIR | ");
    reveal_strlit("DIR");
    reveal_strlit(" | ");
    reveal_strlit(" |  ");
    reveal_strlit(" ");
    match e.kind {
        EntryKind::File { modified, len } => {
            assert(entry_line(e) =~= "file | "@ + e.name@ + " | "@ + modified.text() + "  "@ + decimal(len as nat));
        },
        EntryKind::Dir { item_count } => {
            assert(entry_line(e) =~= "DIR | "@ + e.name@ + " | "@ + kind_detail(e.kind));
        },
        EntryKind::Other { file_type } => {
            assert(entry_line(e) =~= file_type@ + " | "@ + e.name@ + " |  "@);
        },
    }
}

} // verus!
