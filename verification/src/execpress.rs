//! Validation of a request to export a processed file: the target and
//! source directories must exist, the reference name must be long enough,
//! and the target file name must have a proper name and file type and must
//! not exist yet.

use vstd::prelude::*;
use vstd::utf8::{encode_utf8, encode_scalar};
use crate::text::chars_of;

verus! {

/// Length in bytes of the UTF-8 encoding of `s` (what `str::len` counts).
pub open spec fn utf8_len(s: Seq<char>) -> nat {
    encode_utf8(s).len()
}

/// UTF-8 encoding distributes over concatenation.
pub proof fn lemma_utf8_len_concat(a: Seq<char>, b: Seq<char>)
    ensures
        utf8_len(a + b) == utf8_len(a) + utf8_len(b),
    decreases a.len(),
{
    if a.len() == 0 {
        assert(a + b =~= b);
    } else {
        assert((a + b).drop_first() =~= a.drop_first() + b);
        assert((a + b)[0] == a[0]);
        lemma_utf8_len_concat(a.drop_first(), b);
    }
}

/// The number of bytes that encode one character.
fn char_width(c: char) -> (w: u64)
    ensures
        w == utf8_len(seq![c]),
        1 <= w <= 4,
{
    broadcast use vstd::utf8::char_is_scalar;
    assert(seq![c].drop_first() =~= Seq::<char>::empty());
    assert(encode_utf8(seq![c]) == encode_scalar(c as u32) + encode_utf8(Seq::<char>::empty()));
    let v = c as u32;
    if v <= 0x7f {
        1
    } else if v <= 0x7ff {
        2
    } else if v <= 0xffff {
        3
    } else {
        4
    }
}

/// Whether the characters `cs[from..to]` take fewer than `bound` bytes.
fn utf8_len_below(cs: &[char], from: usize, to: usize, bound: u64) -> (b: bool)
    requires
        from <= to <= cs@.len(),
    ensures
        b == (utf8_len(cs@.subrange(from as int, to as int)) < bound),
{
    if bound == 0 {
        return false;
    }
    let mut total: u64 = 0;
    let mut i = from;
    while i < to
        invariant
            from <= i <= to <= cs@.len(),
            total == utf8_len(cs@.subrange(from as int, i as int)),
            total < bound,
        decreases to - i,
    {
        let w = char_width(cs[i]);
        proof {
            assert(cs@.subrange(from as int, i + 1) =~= cs@.subrange(from as int, i as int) + seq![cs@[i as int]]);
            lemma_utf8_len_concat(cs@.subrange(from as int, i as int), seq![cs@[i as int]]);
        }
        if w >= bound - total {
            proof {
                lemma_utf8_len_concat(cs@.subrange(from as int, i + 1), cs@.subrange(i + 1, to as int));
                assert(cs@.subrange(from as int, to as int) =~= cs@.subrange(from as int, i + 1) + cs@.subrange(i + 1, to as int));
            }
            return false;
        }
        total = total + w;
        i = i + 1;
    }
    true
}

/// The report code of an export request.
///
/// 7: the target directory does not exist; 6: the hard-drive directory does
/// not exist; 1: the reference name has fewer than 4 bytes; 2: the target
/// name has no `.`; 3: from its last `.` on, the target name has fewer than
/// 4 bytes; 4: before its first `.`, the target name has fewer than 3 bytes;
/// 5: the target file already exists; 0: the request is valid.
pub open spec fn export_code(
    target_dir_exists: bool,
    hd_dir_exists: bool,
    refname: Seq<char>,
    targetname: Seq<char>,
    target_file_exists: bool,
) -> u32 {
    if !target_dir_exists {
        7
    } else if !hd_dir_exists {
        6
    } else if utf8_len(refname) < 4 {
        1
    } else if !targetname.contains('.') {
        2
    } else if utf8_len(targetname.skip(targetname.index_of_last('.')->0)) < 4 {
        3
    } else if utf8_len(targetname.take(targetname.index_of_first('.')->0)) < 3 {
        4
    } else if target_file_exists {
        5
    } else {
        0
    }
}

/// The message that goes with each report code.
pub open spec fn export_message(code: u32) -> Seq<char> {
    if code == 0 {
        "all good and now process execution"@
    } else if code == 1 {
        "the reference name is less than 4 characters"@
    } else if code == 2 {
        "target name does not have a file type (ie xx.xxx)"@
    } else if code == 3 {
        "target name does not have a valid type (must be at least 3 characters"@
    } else if code == 4 {
        "target name is least than 3 characters"@
    } else if code == 5 {
        "the target output file already exists"@
    } else if code == 6 {
        "the harddrive directory does not exist"@
    } else {
        "the target directory does not exist"@
    }
}

fn message_for(code: u32) -> (m: String)
    ensures
        m@ == export_message(code),
{
    if code == 0 {
        "all good and now process execution".to_owned()
    } else if code == 1 {
        "the reference name is less than 4 characters".to_owned()
    } else if code == 2 {
        "target name does not have a file type (ie xx.xxx)".to_owned()
    } else if code == 3 {
        "target name does not have a valid type (must be at least 3 characters".to_owned()
    } else if code == 4 {
        "target name is least than 3 characters".to_owned()
    } else if code == 5 {
        "the target output file already exists".to_owned()
    } else if code == 6 {
        "the harddrive directory does not exist".to_owned()
    } else {
        "the target directory does not exist".to_owned()
    }
}

/// Positions of the first and of the last `c` in `cs`, if `c` occurs.
fn first_and_last(cs: &[char], c: char) -> (r: Option<(usize, usize)>)
    ensures
        r is None <==> !cs@.contains(c),
        r matches Some((f, l)) ==> f <= l < cs@.len() && cs@.index_of_first(c) == Some(f as int)
            && cs@.index_of_last(c) == Some(l as int),
{
    proof {
        cs@.index_of_first_ensures(c);
        cs@.index_of_last_ensures(c);
    }
    let n = cs.len();
    let mut first: Option<usize> = None;
    let mut last: usize = 0;
    for i in 0..n
        invariant
            n == cs@.len(),
            first is None <==> forall|j: int| 0 <= j < i ==> cs@[j] != c,
            first matches Some(f) ==> f < i && cs@[f as int] == c
                && (forall|j: int| 0 <= j < f ==> cs@[j] != c)
                && last < i && cs@[last as int] == c
                && (forall|j: int| last < j < i ==> cs@[j] != c),
    {
        if cs[i] == c {
            if first.is_none() {
                first = Some(i);
            }
            last = i;
        }
    }
    match first {
        None => None,
        Some(f) => {
            assert(cs@.contains(c)) by {
                assert(cs@[f as int] == c);
            }
            let ghost ff = cs@.index_of_first(c)->0;
            let ghost ll = cs@.index_of_last(c)->0;
            assert(ff == f) by {
                if ff < f {
                    assert(cs@[ff] == c);
                } else if f < ff {
                    assert(cs@[f as int] == c);
                }
            }
            assert(ll == last) by {
                if ll < last {
                    assert(cs@[last as int] == c);
                } else if last < ll {
                    assert(cs@[ll] == c);
                }
            }
            Some((f, last))
        },
    }
}

/// Validates an export request and reports it as a code and a message.
///
/// The existence of the directories and of the target file is looked up by
/// the caller: `target_dir_exists` for the target directory,
/// `hd_dir_exists` for the hard-drive directory, and `target_file_exists`
/// for `"{targetdir}/{targetname}"` (see `crate::text::join_path`).
pub fn execpress(
    target_dir_exists: bool,
    hd_dir_exists: bool,
    refname: String,
    targetname: String,
    target_file_exists: bool,
) -> (r: (u32, String))
    ensures
        r.0 == export_code(
            target_dir_exists,
            hd_dir_exists,
            refname@,
            targetname@,
            target_file_exists,
        ),
        r.1@ == export_message(r.0),
        !target_dir_exists ==> r.0 == 7,
        target_dir_exists && !hd_dir_exists ==> r.0 == 6,
        target_dir_exists && hd_dir_exists && utf8_len(refname@) < 4 ==> r.0 == 1,
        target_dir_exists && hd_dir_exists && utf8_len(refname@) >= 4 && !targetname@.contains('.')
            ==> r.0 == 2,
        r.0 == 3 <==> target_dir_exists && hd_dir_exists && utf8_len(refname@) >= 4
            && targetname@.contains('.')
            && utf8_len(targetname@.skip(targetname@.index_of_last('.')->0)) < 4,
        r.0 == 4 <==> target_dir_exists && hd_dir_exists && utf8_len(refname@) >= 4
            && targetname@.contains('.')
            && utf8_len(targetname@.skip(targetname@.index_of_last('.')->0)) >= 4
            && utf8_len(targetname@.take(targetname@.index_of_first('.')->0)) < 3,
        r.0 == 5 <==> target_dir_exists && hd_dir_exists && utf8_len(refname@) >= 4
            && targetname@.contains('.')
            && utf8_len(targetname@.skip(targetname@.index_of_last('.')->0)) >= 4
            && utf8_len(targetname@.take(targetname@.index_of_first('.')->0)) >= 3
            && target_file_exists,
        r.0 == 0 <==> target_dir_exists && hd_dir_exists && utf8_len(refname@) >= 4
            && targetname@.contains('.')
            && utf8_len(targetname@.skip(targetname@.index_of_last('.')->0)) >= 4
            && utf8_len(targetname@.take(targetname@.index_of_first('.')->0)) >= 3
            && !target_file_exists,
        r.0 == 0 ==> r.1@ == "all good and now process execution"@,
        r.0 == 1 ==> r.1@ == "the reference name is less than 4 characters"@,
        r.0 == 2 ==> r.1@ == "target name does not have a file type (ie xx.xxx)"@,
        r.0 == 3 ==> r.1@ == "target name does not have a valid type (must be at least 3 characters"@,
        r.0 == 4 ==> r.1@ == "target name is least than 3 characters"@,
        r.0 == 5 ==> r.1@ == "the target output file already exists"@,
        r.0 == 6 ==> r.1@ == "the harddrive directory does not exist"@,
        r.0 == 7 ==> r.1@ == "the target directory does not exist"@,
{
    let code: u32 = if !target_dir_exists {
        7
    } else if !hd_dir_exists {
        6
    } else if {
        let rs = chars_of(refname.as_str());
        assert(rs@.subrange(0, rs@.len() as int) =~= refname@);
        utf8_len_below(rs.as_slice(), 0, rs.len(), 4)
    } {
        1
    } else {
        let cs = chars_of(targetname.as_str());
        let n = cs.len();
        match first_and_last(cs.as_slice(), '.') {
            None => 2,
            Some((first, last)) => {
                assert(cs@.subrange(last as int, n as int) =~= targetname@.skip(last as int));
                if utf8_len_below(cs.as_slice(), last, n, 4) {
                    3
                } else {
                    assert(cs@.subrange(0, first as int) =~= targetname@.take(first as int));
                    if utf8_len_below(cs.as_slice(), 0, first, 3) {
                        4
                    } else if target_file_exists {
                        5
                    } else {
                        0
                    }
                }
            },
        }
    };
    (code, message_for(code))
}

/// An export request is accepted (code 0) exactly when both directories
/// exist, the reference name has at least 4 bytes, the target name has a
/// `.`, at least 4 bytes from its last `.` on and at least 3 bytes before its
/// first `.`, and the target file does not exist yet; and it is refused for
/// its file type (code 3) exactly when the part from the last `.` has fewer
/// than 4 bytes, all earlier checks having passed.
pub proof fn law_export_acceptance(
    target_dir_exists: bool,
    hd_dir_exists: bool,
    refname: Seq<char>,
    targetname: Seq<char>,
    target_file_exists: bool,
)
    ensures
        (export_code(target_dir_exists, hd_dir_exists, refname, targetname, target_file_exists) == 0)
            <==> (target_dir_exists && hd_dir_exists && utf8_len(refname) >= 4
            && targetname.contains('.')
            && utf8_len(targetname.skip(targetname.index_of_last('.')->0)) >= 4
            && utf8_len(targetname.take(targetname.index_of_first('.')->0)) >= 3
            && !target_file_exists),
        (export_code(target_dir_exists, hd_dir_exists, refname, targetname, target_file_exists) == 3)
            <==> (target_dir_exists && hd_dir_exists && utf8_len(refname) >= 4
            && targetname.contains('.')
            && utf8_len(targetname.skip(targetname.index_of_last('.')->0)) < 4),
{
}

} // verus!
