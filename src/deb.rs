//! Building `.deb` packages: an ar archive of `debian-binary`, `control.tar`
//! and `data.tar`, whose bytes depend only on the control file, the manifest,
//! the file contents and one modification time.
use vstd::prelude::*;
use crate::archive::{
    ArMember, TarMember, tar_path_ok, ar_append, ar_finish, ar_new, ar_stream, md5_digest, md5_of, tar_append,
    tar_finish, tar_new, tar_stream,
};
use crate::control::{ControlFile, ControlParagraph, Fields, control_text, entry_spec};
use crate::error::Error;
use crate::manifest::{Entries, FileManifest};
use crate::text::hex_spec;
use vstd::utf8::encode_utf8;

verus! {

/// The content of one manifest entry's source file, and whether it is
/// executable.
#[derive(Debug, Clone)]
pub struct FileData {
    pub content: Vec<u8>,
    pub executable: bool,
}

/// The contents of a list of files.
pub open spec fn contents_of(data: Seq<FileData>) -> Seq<Seq<u8>> {
    data.map_values(|d: FileData| d.content@)
}

/// The `md5sums` line of one file: its digest in lower-case hex, two
/// spaces, its archive path.
pub open spec fn md5_line(path: Seq<char>, content: Seq<u8>) -> Seq<char> {
    hex_spec(md5_of(content)) + seq![' ', ' '] + path + seq!['\n']
}

/// The `md5sums` text: one line per manifest entry, in manifest order; the
/// content of entry `i` is `contents[i]`.
pub open spec fn md5sums_text(entries: Entries, contents: Seq<Seq<u8>>) -> Seq<char>
    decreases entries.len(),
{
    if entries.len() == 0 {
        Seq::empty()
    } else {
        md5sums_text(entries.drop_last(), contents) + md5_line(
            entries.last().0,
            contents[entries.len() - 1],
        )
    }
}

/// The mode of a packaged file.
pub open spec fn data_mode(executable: bool) -> u32 {
    if executable {
        0o755
    } else {
        0o644
    }
}

/// The members of `data.tar` as handed to tar: each entry as `./` and its
/// key, in manifest order. (tar stores the path without the leading `.`
/// segment.)
pub open spec fn data_members(entries: Entries, data: Seq<FileData>, mtime: u64) -> Seq<TarMember>
    decreases entries.len(),
{
    if entries.len() == 0 {
        Seq::empty()
    } else {
        let n = entries.len() - 1;
        data_members(entries.drop_last(), data, mtime).push(
            (seq!['.', '/'] + entries[n].0, data_mode(data[n].executable), mtime, data[n].content@),
        )
    }
}

/// The members of `control.tar`: `control`, then `md5sums`.
pub open spec fn control_members(
    control: Seq<Fields>,
    entries: Entries,
    data: Seq<FileData>,
    mtime: u64,
) -> Seq<TarMember> {
    seq![
        ("control"@, 0o644u32, mtime, encode_utf8(control_text(control))),
        ("md5sums"@, 0o644u32, mtime, encode_utf8(md5sums_text(entries, contents_of(data)))),
    ]
}

/// The content of `debian-binary`.
pub open spec fn debian_binary() -> Seq<u8> {
    seq![0x32u8, 0x2eu8, 0x30u8, 0x0au8]
}

/// The members of the `.deb` ar archive, in the order the format requires.
pub open spec fn deb_members(
    control: Seq<Fields>,
    entries: Entries,
    data: Seq<FileData>,
    mtime: u64,
) -> Seq<ArMember> {
    seq![
        ("debian-binary"@, 0o644u32, 0u32, 0u32, mtime, debian_binary()),
        ("control.tar"@, 0o644u32, 0u32, 0u32, mtime, tar_stream(control_members(control, entries, data, mtime))),
        ("data.tar"@, 0o644u32, 0u32, 0u32, mtime, tar_stream(data_members(entries, data, mtime))),
    ]
}

/// Every `./<key>` of the manifest is a path tar takes.
pub open spec fn keys_tar_ok(entries: Entries) -> bool {
    forall|i: int| 0 <= i < entries.len() ==> tar_path_ok(seq!['.', '/'] + (#[trigger] entries[i]).0)
}

/// A name of lower-case letters, such as the fixed member names, is a path
/// tar takes.
proof fn lemma_letters_path_ok(p: Seq<char>)
    requires
        0 < p.len() <= 100,
        forall|i: int| 0 <= i < p.len() ==> 'a' <= #[trigger] p[i] <= 'z',
    ensures
        tar_path_ok(p),
{
    assert(p[0] != '/' && p[0] != '.');
    assert forall|i: int| #![trigger crate::archive::segment_at(p, i, i + 2)] crate::archive::segment_at(p, i, i + 2)
        implies !(p[i] == '.' && p[i + 1] == '.') by {
        assert('a' <= p[i] <= 'z');
    }
}

proof fn lemma_md5sums_path_ok()
    ensures
        tar_path_ok("md5sums"@),
{
    reveal_strlit("md5sums");
    let p = "md5sums"@;
    assert(p =~= seq!['m', 'd', '5', 's', 'u', 'm', 's']);
    assert(p[0] != '/' && p[0] != '.');
    assert forall|i: int| 0 <= i < p.len() implies (#[trigger] p[i] as int) < 128 && p[i] != '\0' && p[i] != '.' by {
        assert(p[i] == 'm' || p[i] == 'd' || p[i] == '5' || p[i] == 's' || p[i] == 'u');
    }
    assert forall|i: int| #![trigger crate::archive::segment_at(p, i, i + 2)] crate::archive::segment_at(p, i, i + 2)
        implies !(p[i] == '.' && p[i + 1] == '.') by {
        assert(p[i] != '.');
    }
}

/// The bytes of the `.deb` package.
pub open spec fn deb_bytes(control: Seq<Fields>, entries: Entries, data: Seq<FileData>, mtime: u64) -> Seq<u8> {
    ar_stream(deb_members(control, entries, data, mtime))
}

/// The `md5sums` text of the manifest `files`, the content of entry `i`
/// being `data[i]`.
pub fn make_md5sums(files: &FileManifest, data: &Vec<FileData>) -> (r: String)
    requires
        data@.len() == files@.len(),
    ensures
        r@ == md5sums_text(files@, contents_of(data@)),
        forall|i: int| 0 <= i < files@.len() ==> (#[trigger] md5_of(data@[i].content@)).len() == 16,
{
    let mut r = String::new();
    let mut i: usize = 0;
    proof {
        reveal_strlit("  ");
        reveal_strlit("\n");
    }
    while i < files.files.len()
        invariant
            data@.len() == files@.len(),
            0 <= i <= files@.len(),
            r@ == md5sums_text(files@.subrange(0, i as int), contents_of(data@)),
            forall|j: int| 0 <= j < i ==> (#[trigger] md5_of(data@[j].content@)).len() == 16,
            "  "@ == seq![' ', ' '],
            "\n"@ == seq!['\n'],
        decreases files.files.len() - i,
    {
        proof {
            assert(files@.subrange(0, i as int + 1).drop_last() =~= files@.subrange(0, i as int));
        }
        let digest = md5_digest(data[i].content.as_slice());
        crate::text::append_hex(&mut r, &digest);
        r.append("  ");
        r.append(files.files[i].0.as_str());
        r.append("\n");
        i = i + 1;
    }
    proof {
        assert(files@.subrange(0, i as int) =~= files@);
    }
    r
}

/// The text of a control file, as bytes.
pub fn serialize_control_file(control_file: &ControlFile) -> (r: Vec<u8>)
    ensures
        r@ == encode_utf8(control_text(control_file@)),
{
    let t = control_file.render();
    t.as_str().as_bytes_vec()
}

fn tar_failure(what: &str, e: String) -> (r: Error)
    ensures
        r is IoFailure,
{
    let mut m = String::from_str(what);
    m.append(": ");
    m.append(e.as_str());
    Error::IoFailure { message: m }
}

/// The `control.tar` stream: the rendered control file, then `md5sums`.
pub fn build_control_tar(
    control_file: &ControlFile,
    files: &FileManifest,
    data: &Vec<FileData>,
    mtime: u64,
) -> (r: Result<Vec<u8>, Error>)
    requires
        data@.len() == files@.len(),
    ensures
        r is Ok,
        r is Ok ==> r->Ok_0@ == tar_stream(control_members(control_file@, files@, data@, mtime)),
{
    proof {
        reveal_strlit("control");
        reveal_strlit("md5sums");
        assert forall|i: int| 0 <= i < "control"@.len() implies 'a' <= #[trigger] "control"@[i] <= 'z' by {
            assert("control"@ =~= seq!['c', 'o', 'n', 't', 'r', 'o', 'l']);
        }
        lemma_letters_path_ok("control"@);
        lemma_md5sums_path_ok();
    }
    let control = serialize_control_file(control_file);
    let sums = make_md5sums(files, data).as_str().as_bytes_vec();
    let mut b = tar_new();
    match tar_append(&mut b, "control", 0o644, mtime, control.as_slice()) {
        Ok(()) => {},
        Err(e) => return Err(tar_failure("unable to append control", e)),
    }
    match tar_append(&mut b, "md5sums", 0o644, mtime, sums.as_slice()) {
        Ok(()) => {},
        Err(e) => return Err(tar_failure("unable to append md5sums", e)),
    }
    proof {
        assert(crate::archive::tar_members(b) =~= control_members(control_file@, files@, data@, mtime));
    }
    match tar_finish(b) {
        Ok(v) => Ok(v),
        Err(e) => Err(tar_failure("unable to finish archive", e)),
    }
}

/// The `data.tar` stream: one member per manifest entry, in manifest order.
pub fn build_data_tar(files: &FileManifest, data: &Vec<FileData>, mtime: u64) -> (r: Result<Vec<u8>, Error>)
    requires
        data@.len() == files@.len(),
    ensures
        keys_tar_ok(files@) ==> r is Ok,
        r is Ok ==> r->Ok_0@ == tar_stream(data_members(files@, data@, mtime)),
        r is Err ==> r->Err_0 is IoFailure,
{
    let mut b = tar_new();
    let mut i: usize = 0;
    proof {
        reveal_strlit("./");
    }
    while i < files.files.len()
        invariant
            data@.len() == files@.len(),
            0 <= i <= files@.len(),
            crate::archive::tar_members(b) == data_members(files@.subrange(0, i as int), data@, mtime),
            "./"@ == seq!['.', '/'],
        decreases files.files.len() - i,
    {
        proof {
            assert(files@.subrange(0, i as int + 1).drop_last() =~= files@.subrange(0, i as int));
        }
        let mut path = String::from_str("./");
        path.append(files.files[i].0.as_str());
        let mode: u32 = if data[i].executable {
            0o755
        } else {
            0o644
        };
        match tar_append(&mut b, path.as_str(), mode, mtime, data[i].content.as_slice()) {
            Ok(()) => {},
            Err(e) => {
                proof {
                    assert(path@ == seq!['.', '/'] + files@[i as int].0);
                    assert(!keys_tar_ok(files@));
                }
                return Err(tar_failure("unable to append data file", e));
            },
        }
        i = i + 1;
    }
    proof {
        assert(files@.subrange(0, i as int) =~= files@);
    }
    match tar_finish(b) {
        Ok(v) => Ok(v),
        Err(e) => Err(tar_failure("unable to finish archive", e)),
    }
}

/// The bytes of a `.deb` package: `debian-binary`, `control.tar` and
/// `data.tar`, each with mode 0644, owner and group 0, and the time `mtime`.
pub fn build_deb(
    control_file: &ControlFile,
    files: &FileManifest,
    data: &Vec<FileData>,
    mtime: u64,
) -> (r: Result<Vec<u8>, Error>)
    requires
        data@.len() == files@.len(),
    ensures
        keys_tar_ok(files@) ==> r is Ok,
        r is Ok ==> r->Ok_0@ == deb_bytes(control_file@, files@, data@, mtime),
        r is Err ==> r->Err_0 is IoFailure,
{
    let mut b = ar_new();
    let binary: Vec<u8> = vec![0x32, 0x2e, 0x30, 0x0a];
    match ar_append(&mut b, "debian-binary", 0o644, 0, 0, mtime, binary.as_slice()) {
        Ok(()) => {},
        Err(e) => return Err(tar_failure("unable to append debian-binary", e)),
    }
    let control_tar = build_control_tar(control_file, files, data, mtime)?;
    match ar_append(&mut b, "control.tar", 0o644, 0, 0, mtime, control_tar.as_slice()) {
        Ok(()) => {},
        Err(e) => return Err(tar_failure("unable to append control.tar", e)),
    }
    let data_tar = build_data_tar(files, data, mtime)?;
    match ar_append(&mut b, "data.tar", 0o644, 0, 0, mtime, data_tar.as_slice()) {
        Ok(()) => {},
        Err(e) => return Err(tar_failure("unable to append data.tar", e)),
    }
    proof {
        assert(binary@ =~= debian_binary());
        assert(crate::archive::ar_members(b) =~= deb_members(control_file@, files@, data@, mtime));
    }
    match ar_finish(b) {
        Ok(v) => Ok(v),
        Err(e) => Err(tar_failure("unable to finish archive", e)),
    }
}

/// The package file name `<Package>_<Version>.deb` of a paragraph.
pub open spec fn deb_name_spec(p: Fields) -> Option<Seq<char>> {
    match (entry_spec(p, "Package"@), entry_spec(p, "Version"@)) {
        (Some(n), Some(v)) => Some(n + seq!['_'] + v + seq!['.', 'd', 'e', 'b']),
        _ => None,
    }
}

/// The package file name `<Package>_<Version>.deb`, or `None` where either
/// field is missing.
pub fn deb_file_name(paragraph: &ControlParagraph) -> (r: Option<String>)
    ensures
        match r {
            Some(s) => deb_name_spec(paragraph@) == Some(s@),
            None => deb_name_spec(paragraph@).is_none(),
        },
{
    let name = paragraph.get_entry("Package");
    let version = paragraph.get_entry("Version");
    match (name, version) {
        (Some(n), Some(v)) => {
            let mut s = n;
            proof {
                reveal_strlit("_");
                reveal_strlit(".deb");
            }
            s.append("_");
            s.append(v.as_str());
            s.append(".deb");
            Some(s)
        },
        _ => None,
    }
}

/// Two builds from the same control file, manifest, file data and time give
/// the same bytes.
pub proof fn lemma_deb_reproducible(
    control_a: Seq<Fields>,
    control_b: Seq<Fields>,
    entries_a: Entries,
    entries_b: Entries,
    data_a: Seq<FileData>,
    data_b: Seq<FileData>,
    mtime: u64,
)
    requires
        control_a == control_b,
        entries_a == entries_b,
        data_a.len() == entries_a.len(),
        data_a.len() == data_b.len(),
        forall|i: int| 0 <= i < data_a.len() ==> (#[trigger] data_a[i]).content@ == data_b[i].content@
            && data_a[i].executable == data_b[i].executable,
    ensures
        deb_bytes(control_a, entries_a, data_a, mtime) == deb_bytes(control_b, entries_b, data_b, mtime),
{
    lemma_data_members_same(entries_a, data_a, data_b, mtime);
    assert(contents_of(data_a) =~= contents_of(data_b));
}

proof fn lemma_data_members_same(entries: Entries, a: Seq<FileData>, b: Seq<FileData>, mtime: u64)
    requires
        a.len() == b.len(),
        entries.len() <= a.len(),
        forall|i: int| 0 <= i < a.len() ==> (#[trigger] a[i]).content@ == b[i].content@ && a[i].executable
            == b[i].executable,
    ensures
        data_members(entries, a, mtime) == data_members(entries, b, mtime),
    decreases entries.len(),
{
    if entries.len() > 0 {
        lemma_data_members_same(entries.drop_last(), a, b, mtime);
        let n = entries.len() - 1;
        assert(a[n].content@ == b[n].content@);
    }
}

/// Hex rendering gives two digits per byte: 32 for a 16-byte digest.
pub proof fn lemma_hex_len(b: Seq<u8>)
    ensures
        hex_spec(b).len() == 2 * b.len(),
    decreases b.len(),
{
    if b.len() > 0 {
        lemma_hex_len(b.drop_last());
    }
}

/// The number of line ends in `s`.
pub open spec fn newlines(s: Seq<char>) -> nat
    decreases s.len(),
{
    if s.len() == 0 {
        0
    } else {
        newlines(s.drop_last()) + if s.last() == '\n' {
            1nat
        } else {
            0nat
        }
    }
}

proof fn lemma_newlines_concat(a: Seq<char>, b: Seq<char>)
    ensures
        newlines(a + b) == newlines(a) + newlines(b),
    decreases b.len(),
{
    if b.len() > 0 {
        assert((a + b).drop_last() =~= a + b.drop_last());
        lemma_newlines_concat(a, b.drop_last());
    } else {
        assert(a + b =~= a);
    }
}

proof fn lemma_hex_digit_not_newline(n: u8)
    requires
        n < 16,
    ensures
        crate::text::hex_digit(n) != '\n',
{
    if n < 10 {
        assert(((n + 48) as u8) >= 48);
    } else {
        assert(((n - 10 + 97) as u8) >= 97);
    }
}

proof fn lemma_hex_no_newlines(b: Seq<u8>)
    ensures
        newlines(hex_spec(b)) == 0,
    decreases b.len(),
{
    if b.len() > 0 {
        lemma_hex_no_newlines(b.drop_last());
        let d = seq![crate::text::hex_digit(b.last() / 16), crate::text::hex_digit(b.last() % 16)];
        assert(d.drop_last() =~= seq![crate::text::hex_digit(b.last() / 16)]);
        assert(d.drop_last().drop_last() =~= Seq::<char>::empty());
        lemma_hex_digit_not_newline(b.last() / 16);
        lemma_hex_digit_not_newline(b.last() % 16);
        reveal_with_fuel(newlines, 3);
        assert(newlines(d) == 0);
        lemma_newlines_concat(hex_spec(b.drop_last()), d);
    }
}

/// No line end in a path with no `'\n'`.
proof fn lemma_plain_no_newlines(p: Seq<char>)
    requires
        forall|i: int| 0 <= i < p.len() ==> p[i] != '\n',
    ensures
        newlines(p) == 0,
    decreases p.len(),
{
    if p.len() > 0 {
        lemma_plain_no_newlines(p.drop_last());
    }
}

/// The `md5sums` text has exactly one line per manifest entry, each ending
/// in a line end and none of the keys holding one; each line is that
/// entry's digest in hex, two spaces and its key, in manifest order.
pub proof fn lemma_md5sums_one_line_per_entry(entries: Entries, contents: Seq<Seq<u8>>)
    requires
        forall|i: int, j: int| 0 <= i < entries.len() && 0 <= j < entries[i].0.len() ==> #[trigger] entries[i].0[j]
            != '\n',
    ensures
        newlines(md5sums_text(entries, contents)) == entries.len(),
        entries.len() > 0 ==> md5sums_text(entries, contents) == md5sums_text(entries.drop_last(), contents)
            + md5_line(entries.last().0, contents[entries.len() - 1]),
    decreases entries.len(),
{
    if entries.len() > 0 {
        let n = entries.len() - 1;
        assert forall|i: int, j: int| 0 <= i < entries.drop_last().len() && 0 <= j < entries.drop_last()[i].0.len()
            implies #[trigger] entries.drop_last()[i].0[j] != '\n' by {
            assert(entries.drop_last()[i] == entries[i]);
            assert(entries[i].0[j] != '\n');
        }
        lemma_md5sums_one_line_per_entry(entries.drop_last(), contents);
        let key = entries[n].0;
        let digest = hex_spec(md5_of(contents[n]));
        lemma_hex_no_newlines(md5_of(contents[n]));
        assert forall|j: int| 0 <= j < key.len() implies key[j] != '\n' by {
            assert(entries[n].0[j] != '\n');
        }
        lemma_plain_no_newlines(key);
        let sp = seq![' ', ' '];
        assert(sp.drop_last().drop_last() =~= Seq::<char>::empty());
        assert(seq!['\n'].drop_last() =~= Seq::<char>::empty());
        lemma_newlines_concat(digest, sp);
        lemma_newlines_concat(digest + sp, key);
        lemma_newlines_concat(digest + sp + key, seq!['\n']);
        reveal_with_fuel(newlines, 3);
        assert(newlines(seq!['\n']) == 1);
        assert(newlines(sp) == 0);
        lemma_newlines_concat(md5sums_text(entries.drop_last(), contents), md5_line(key, contents[n]));
    }
}

} // verus!
