//! Calls into the tar, ar and md5 crates, each with the contract the library
//! relies on.
use vstd::prelude::*;

verus! {

/// A tar stream being built in memory. Verus cannot declare
/// `tar::Builder<W>` itself (its `W: Write` bound is refused), so the builder
/// is held here, hidden.
#[verifier::external_body]
pub struct TarBuffer {
    inner: tar::Builder<Vec<u8>>,
}

/// An ar archive being built in memory, held hidden as `TarBuffer` is.
#[verifier::external_body]
pub struct ArBuffer {
    inner: ar::Builder<Vec<u8>>,
}

/// One tar member: path, mode, modification time, content.
pub type TarMember = (Seq<char>, u32, u64, Seq<u8>);

/// One ar member: identifier, mode, owner id, group id, modification time,
/// content.
pub type ArMember = (Seq<char>, u32, u32, u32, u64, Seq<u8>);

/// The members appended so far to an in-memory tar builder.
pub uninterp spec fn tar_members(b: TarBuffer) -> Seq<TarMember>;

/// The bytes of a finished tar stream holding `members` in order.
pub uninterp spec fn tar_stream(members: Seq<TarMember>) -> Seq<u8>;

/// The members appended so far to an in-memory ar builder.
pub uninterp spec fn ar_members(b: ArBuffer) -> Seq<ArMember>;

/// The bytes of an ar archive holding `members` in order.
pub uninterp spec fn ar_stream(members: Seq<ArMember>) -> Seq<u8>;

/// The MD5 digest of `data`.
pub uninterp spec fn md5_of(data: Seq<u8>) -> Seq<u8>;

/// `p[i..j]` is one whole segment of `p` between separators.
pub open spec fn segment_at(p: Seq<char>, i: int, j: int) -> bool {
    &&& 0 <= i <= j <= p.len()
    &&& (i == 0 || p[i - 1] == '/')
    &&& (j == p.len() || p[j] == '/')
}

/// A member path that tar stores in a plain header: relative, at most 100
/// ASCII characters, no NUL, no `..` segment, and at least one segment that
/// is neither empty nor `.`.
pub open spec fn tar_path_ok(p: Seq<char>) -> bool {
    &&& 0 < p.len() <= 100
    &&& p[0] != '/'
    &&& forall|i: int| 0 <= i < p.len() ==> (p[i] as int) < 128 && p[i] != '\0'
    &&& exists|i: int| 0 <= i < p.len() && p[i] != '/' && p[i] != '.'
    &&& forall|i: int| #![trigger segment_at(p, i, i + 2)] segment_at(p, i, i + 2) ==> !(p[i] == '.' && p[i + 1] == '.')
}

/// Relies on `tar::Builder::new`: a builder over an empty buffer, with no
/// members yet.
#[verifier::external_body]
pub(crate) fn tar_new() -> (r: TarBuffer)
    ensures
        tar_members(r) == Seq::<TarMember>::empty(),
{
    TarBuffer { inner: tar::Builder::new(Vec::new()) }
}

/// Relies on `tar::Builder::append_data`: on success one more member, with
/// the given path, mode, time and content, follows the earlier ones. The
/// buffer takes every byte, so only the path can be refused, and a path that
/// fits a plain header and has no `..` segment is not.
#[verifier::external_body]
pub(crate) fn tar_append(
    b: &mut TarBuffer,
    path: &str,
    mode: u32,
    mtime: u64,
    data: &[u8],
) -> (r: Result<(), String>)
    ensures
        tar_path_ok(path@) ==> r is Ok,
        r is Ok ==> tar_members(*final(b)) == tar_members(*old(b)).push((path@, mode, mtime, data@)),
{
    let mut header = tar::Header::new_gnu();
    header.set_mtime(mtime);
    header.set_mode(mode);
    header.set_size(data.len() as u64);
    b.inner.append_data(&mut header, path, data).map_err(|e| e.to_string())
}

/// Relies on `tar::Builder::into_inner`: finishes the stream and hands back
/// its bytes; writing the end blocks into a buffer cannot fail.
#[verifier::external_body]
pub(crate) fn tar_finish(b: TarBuffer) -> (r: Result<Vec<u8>, String>)
    ensures
        r is Ok,
        r is Ok ==> r->Ok_0@ == tar_stream(tar_members(b)),
{
    b.inner.into_inner().map_err(|e| e.to_string())
}

/// Relies on `ar::Builder::new`: a builder over an empty buffer, with no
/// members yet.
#[verifier::external_body]
pub(crate) fn ar_new() -> (r: ArBuffer)
    ensures
        ar_members(r) == Seq::<ArMember>::empty(),
{
    ArBuffer { inner: ar::Builder::new(Vec::new()) }
}

/// Relies on `ar::Builder::append`: on success one more member, with a
/// header of the given fields and the content's size, follows the earlier
/// ones. The header's size is the content's, and a buffer takes every byte,
/// so it does not fail.
#[verifier::external_body]
pub(crate) fn ar_append(
    b: &mut ArBuffer,
    name: &str,
    mode: u32,
    uid: u32,
    gid: u32,
    mtime: u64,
    data: &[u8],
) -> (r: Result<(), String>)
    ensures
        r is Ok,
        r is Ok ==> ar_members(*final(b)) == ar_members(*old(b)).push((name@, mode, uid, gid, mtime, data@)),
{
    let mut header = ar::Header::new(name.as_bytes().to_vec(), data.len() as u64);
    header.set_mode(mode);
    header.set_uid(uid);
    header.set_gid(gid);
    header.set_mtime(mtime);
    b.inner.append(&header, data).map_err(|e| e.to_string())
}

/// Relies on `ar::Builder::into_inner`: hands back the archive's bytes; it
/// does not fail.
#[verifier::external_body]
pub(crate) fn ar_finish(b: ArBuffer) -> (r: Result<Vec<u8>, String>)
    ensures
        r is Ok,
        r is Ok ==> r->Ok_0@ == ar_stream(ar_members(b)),
{
    b.inner.into_inner().map_err(|e| e.to_string())
}

/// Relies on `md5::compute`: the 16-byte digest of `data`.
#[verifier::external_body]
pub(crate) fn md5_digest(data: &[u8]) -> (r: Vec<u8>)
    ensures
        r@ == md5_of(data@),
        r@.len() == 16,
{
    md5::compute(data).0.to_vec()
}

} // verus!
