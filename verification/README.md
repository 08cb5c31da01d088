# filedialog

The verified core of a small file-dialog tool, written in Verus.

- `src/text.rs`, `src/fields.rs`: decimal and hexadecimal rendering, path
  joining, and how a listing line splits into `" | "`-separated fields.
- `src/execpress.rs`: validation of an export request (directories, reference
  name, target file name).
- `src/checksum.rs`: the MD5 checksum report of a file's contents (digest by
  the `md5` crate).
- `src/datetime.rs`: local dates and times and their `"%Y-%m-%d %T"` text
  (formatted by `chrono`, whose validity rules and text are stated).
- `src/listing.rs`: which directory is listed, its parent (`Path::parent`),
  and the lines and report of the listing.
- `src/dialog.rs`: the dialog's state machine: each window message gives a
  new state and the outside work to do (check a directory, list one).
- `app/`: the window (`iced`), and the disk access behind the library calls.
