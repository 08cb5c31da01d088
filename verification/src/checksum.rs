//! MD5 checksum report for a file. Reading the file is up to the caller,
//! which hands over what the read gave; the digest is computed by the `md5`
//! crate and rendered as lower-case hexadecimal.

use vstd::prelude::*;
use crate::text::{hex_lower, hex_digit, push_str, to_hex_lower};

verus! {

/// The MD5 digest of `data`, as `md5::compute` returns it.
pub uninterp spec fn md5_digest(data: Seq<u8>) -> Seq<u8>;

/// Calls `md5::compute` on `data` and returns the 16 bytes of the digest.
/// Claimed: the bytes are `md5_digest(data)`, a function of the input bytes
/// alone, and there are 16 of them (`md5::Digest` wraps a `[u8; 16]`).
#[verifier::external_body]
fn md5_compute(data: &[u8]) -> (d: Vec<u8>)
    ensures
        d@ == md5_digest(data@),
        d@.len() == 16,
{
    md5::compute(data).0.to_vec()
}

/// What reading a file gave: it could not be opened, reading it failed
/// part-way, or its whole contents. The error variants carry the error's
/// text.
pub enum FileRead {
    OpenFailed(String),
    ReadFailed(String),
    Contents(Vec<u8>),
}

/// The code of the report: 1 when the file could not be opened, 2 when
/// reading it failed, 0 otherwise.
pub open spec fn md5_report_code(read: FileRead) -> u32 {
    match read {
        FileRead::OpenFailed(_) => 1,
        FileRead::ReadFailed(_) => 2,
        FileRead::Contents(_) => 0,
    }
}

/// The message of the report.
pub open spec fn md5_report_message(fullpath: Seq<char>, read: FileRead) -> Seq<char> {
    match read {
        FileRead::OpenFailed(e) => "unable to open file "@ + fullpath + " error: "@ + e@,
        FileRead::ReadFailed(e) => "unable to get buffer file "@ + fullpath + " error: "@ + e@,
        FileRead::Contents(_) => "all good"@,
    }
}

/// The checksum text: the lower-case hexadecimal digest of the contents, or
/// `-` when the contents could not be read.
pub open spec fn md5_report_hash(read: FileRead) -> Seq<char> {
    match read {
        FileRead::Contents(bytes) => hex_lower(md5_digest(bytes@)),
        _ => "-"@,
    }
}

/// Reports the MD5 checksum of the file at `fullpath`, given what reading it
/// gave: a code, a message and the checksum.
pub fn findmd5sum(fullpath: String, read: FileRead) -> (r: (u32, String, String))
    ensures
        r.0 == md5_report_code(read),
        r.1@ == md5_report_message(fullpath@, read),
        r.2@ == md5_report_hash(read),
        r.0 == 0 ==> r.2@.len() == 32,
        read matches FileRead::OpenFailed(e) ==> r.0 == 1 && r.2@ == "-"@
            && r.1@ == "unable to open file "@ + fullpath@ + " error: "@ + e@,
        read matches FileRead::ReadFailed(e) ==> r.0 == 2 && r.2@ == "-"@
            && r.1@ == "unable to get buffer file "@ + fullpath@ + " error: "@ + e@,
        read matches FileRead::Contents(bytes) ==> r.0 == 0 && r.1@ == "all good"@
            && r.2@ == hex_lower(md5_digest(bytes@)),
{
    match read {
        FileRead::OpenFailed(e) => {
            let mut msg = "unable to open file ".to_owned();
            push_str(&mut msg, fullpath.as_str());
            push_str(&mut msg, " error: ");
            push_str(&mut msg, e.as_str());
            (1, msg, "-".to_owned())
        },
        FileRead::ReadFailed(e) => {
            let mut msg = "unable to get buffer file ".to_owned();
            push_str(&mut msg, fullpath.as_str());
            push_str(&mut msg, " error: ");
            push_str(&mut msg, e.as_str());
            (2, msg, "-".to_owned())
        },
        FileRead::Contents(bytes) => {
            let digest = md5_compute(bytes.as_slice());
            proof {
                lemma_hex_lower_shape(digest@);
            }
            (0, "all good".to_owned(), to_hex_lower(digest.as_slice()))
        },
    }
}

/// A lower-case hexadecimal digit.
pub open spec fn is_hex_digit(c: char) -> bool {
    ('0' <= c && c <= '9') || ('a' <= c && c <= 'f')
}

/// Hexadecimal rendering gives two digits per byte.
pub proof fn lemma_hex_lower_shape(bytes: Seq<u8>)
    ensures
        hex_lower(bytes).len() == 2 * bytes.len(),
        forall|i: int| 0 <= i < hex_lower(bytes).len() ==> is_hex_digit(#[trigger] hex_lower(bytes)[i]),
    decreases bytes.len(),
{
    if bytes.len() > 0 {
        lemma_hex_lower_shape(bytes.drop_last());
        let hi = (bytes.last() / 16) as nat;
        let lo = (bytes.last() % 16) as nat;
        assert(is_hex_digit(hex_digit(hi)) && is_hex_digit(hex_digit(lo)));
        let prev = hex_lower(bytes.drop_last());
        assert forall|i: int| 0 <= i < hex_lower(bytes).len() implies is_hex_digit(#[trigger] hex_lower(bytes)[i]) by {
            if i < prev.len() {
                assert(hex_lower(bytes)[i] == prev[i]);
            }
        }
    }
}

/// The checksum is `-` exactly when the report is an error; a successful
/// report carries lower-case hexadecimal digits only, two per digest byte.
pub proof fn law_checksum_shape(read: FileRead)
    ensures
        (md5_report_code(read) != 0) == (md5_report_hash(read) == "-"@),
        md5_report_code(read) == 0 ==> forall|i: int|
            0 <= i < md5_report_hash(read).len() ==> is_hex_digit(#[trigger] md5_report_hash(read)[i]),
{
    reveal_strlit("-");
    if let FileRead::Contents(bytes) = read {
        lemma_hex_lower_shape(md5_digest(bytes@));
        if md5_report_hash(read) == "-"@ {
            assert(is_hex_digit(md5_report_hash(read)[0]));
        }
    }
}

} // verus!
