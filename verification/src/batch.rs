//! Batch signer: signs each line of a document independently, frames each
//! as a `SIGN:` wire payload, renders each to a matrix-code image, and
//! packages all images into one archive.
//!
//! Entries are named `signed_<N>.svg` with `N` the 1-based original line
//! index, so the archive order reflects input order whatever order the
//! signatures were produced in. Any single failure aborts the whole batch:
//! partial results are discarded, nothing is handed out.

use vstd::prelude::*;
use vstd::utf8::{encode_utf8, is_ascii_chars, is_ascii_chars_encode_utf8, valid_utf8};
use crate::crypto;
use crate::qr;
use crate::text;
use crate::wire;

verus! {

/// The archive under construction. The outside writer type cannot be
/// declared to the verifier — its bounds name outside traits the verifier
/// does not know — so the writer is hidden whole, and what the archive
/// holds is tracked by `archive_entries` through the trusted operations
/// below.
#[verifier::external_body]
pub struct Archive {
    writer: zip::ZipWriter<std::io::Cursor<Vec<u8>>>,
}

/// The zip file bytes holding the given (name, text) entries in order.
/// A function of the entries alone: the archive is written with stored
/// (uncompressed) entries and a fixed default timestamp.
pub uninterp spec fn zip_bytes_of(entries: Seq<(Seq<char>, Seq<char>)>) -> Seq<u8>;

/// Relies on `zip::ZipWriter::new` over an in-memory cursor: a fresh
/// archive holding no entries.
#[verifier::external_body]
fn archive_new() -> (w: Archive)
    ensures
        archive_entries(w) == Seq::<(Seq<char>, Seq<char>)>::empty(),
        archive_intact(w),
{
    Archive { writer: zip::ZipWriter::new(std::io::Cursor::new(Vec::new())) }
}

/// What the archive under construction holds: its entries as (name, text)
/// pairs, in the order they were added.
pub uninterp spec fn archive_entries(w: Archive) -> Seq<(Seq<char>, Seq<char>)>;

/// Whether the archive writer is still usable: a failed operation closes
/// the underlying writer, and everything after that fails.
pub uninterp spec fn archive_intact(w: Archive) -> bool;

/// Relies on `zip::ZipWriter::{start_file, write_all}`: appends one entry
/// with the given name and text content. Writing a stored entry into the
/// in-memory cursor has exactly two failure paths — content over the
/// 32-bit zip size threshold, and a writer already broken by an earlier
/// failure — so an intact archive accepts every entry below that size. On
/// failure the archive is no longer usable and is abandoned by the caller.
#[verifier::external_body]
fn archive_add(w: &mut Archive, name: &str, content: &str) -> (r: Result<(), ()>)
    ensures
        r is Ok ==> archive_entries(*final (w)) == archive_entries(*old(w)).push((name@, content@)),
        r is Ok ==> archive_intact(*final (w)),
        archive_intact(*old(w)) && encode_utf8(content@).len() <= 0xFFFF_FFFF ==> r is Ok,
{
    if w.writer.start_file(name, zip::write::FileOptions::default()).is_err() {
        return Err(());
    }
    if std::io::Write::write_all(&mut w.writer, content.as_bytes()).is_err() {
        return Err(());
    }
    Ok(())
}

/// Relies on `zip::ZipWriter::finish` and `Cursor::into_inner`: closes the
/// archive and hands out the zip file bytes for exactly the entries added.
/// Closing an intact archive over the in-memory cursor cannot fail: the
/// central directory is plain writes, and oversized counts get a zip64
/// record rather than an error.
#[verifier::external_body]
fn archive_finish(w: Archive) -> (r: Result<Vec<u8>, ()>)
    ensures
        r matches Ok(b) ==> b@ == zip_bytes_of(archive_entries(w)),
        archive_intact(w) ==> r is Ok,
{
    let mut w = w;
    match w.writer.finish() {
        Ok(cursor) => Ok(cursor.into_inner()),
        Err(_) => Err(()),
    }
}

/// The archive entry name for the 1-based line number `n`.
pub open spec fn entry_name_spec(n: nat) -> Seq<char> {
    "signed_"@ + text::dec_spec(n) + ".svg"@
}

/// Render the archive entry name for the 1-based line number `n`.
pub fn entry_name(n: usize) -> (r: String)
    ensures
        r@ == entry_name_spec(n as nat),
{
    let mut out = "signed_".to_owned();
    out.append(text::dec_string(n).as_str());
    out.append(".svg");
    proof {
        assert(out@ =~= entry_name_spec(n as nat));
    }
    out
}

/// The wire payload placed in the QR code for one signed line.
pub open spec fn signed_payload_spec(private: Seq<u8>, line: Seq<u8>) -> Seq<u8> {
    wire::encode_signed_spec(crypto::sig_of(private, line), line)
}

/// The (name, image) entry for the line at 0-based index `idx`.
pub open spec fn batch_entry_spec(private: Seq<u8>, idx: nat, line: Seq<u8>) -> (
    Seq<char>,
    Seq<char>,
) {
    (entry_name_spec(idx + 1), qr::qr_svg_of(signed_payload_spec(private, line)))
}

/// Whether one line can be batch-signed: its signed payload must fit in a
/// QR code, and the engine must sign it.
pub open spec fn line_ok(private: Seq<u8>, line: Seq<u8>) -> bool {
    line.len() + 69 <= qr::QR_MAX_BYTES && crypto::sign_ok(private, line)
}

/// Whether a whole batch goes through: every line must be signable and
/// renderable — one bad line aborts everything.
pub open spec fn batch_ok(private: Seq<u8>, lines: Seq<Seq<u8>>) -> bool {
    forall|i: int| 0 <= i < lines.len() ==> line_ok(private, lines[i])
}

/// All entries of a batch over the given lines, in line order.
pub open spec fn batch_entries_model(private: Seq<u8>, lines: Seq<Seq<u8>>) -> Seq<
    (Seq<char>, Seq<char>),
> {
    Seq::new(lines.len(), |i: int| batch_entry_spec(private, i as nat, lines[i]))
}

/// One rendered, named archive entry.
pub struct ArchiveEntry {
    pub name: String,
    pub svg: String,
}

impl View for ArchiveEntry {
    type V = (Seq<char>, Seq<char>);

    open spec fn view(&self) -> (Seq<char>, Seq<char>) {
        (self.name@, self.svg@)
    }
}

/// Sign every line and render each signed payload as its own image,
/// recombined by original line index: entry `i` is named
/// `signed_<i+1>.svg` and shows exactly line `i`'s signed payload,
/// whatever order the signatures completed in. The batch goes through
/// exactly when every line fits in a QR code and the engine signs it; any
/// single failure aborts the whole batch.
pub fn batch_sign_entries(
    private_key: &crypto::PrivateKey,
    lines: &Vec<Vec<u8>>,
) -> (r: Result<Vec<ArchiveEntry>, crate::CoreError>)
    ensures
        r is Ok <==> batch_ok(private_key@, lines.deep_view()),
        r matches Ok(es) ==> ({
            &&& es@.len() == lines@.len()
            &&& (forall|i: int|
                0 <= i < es@.len() ==> es@[i]@ == batch_entry_spec(
                    private_key@,
                    i as nat,
                    lines@[i]@,
                ))
            &&& (forall|i: int|
                0 <= i < es@.len() ==> es@[i]@.1.len() < 600000 && is_ascii_chars(es@[i]@.1))
        }),
        r matches Err(e) ==> e == crate::CoreError::CryptoEngine,
{
    proof {
        assert forall|j: int| 0 <= j < lines@.len() implies lines.deep_view()[j] == lines@[j]@ by {
            assert(lines.deep_view()[j] =~= lines@[j]@);
        }
    }
    let mut out: Vec<ArchiveEntry> = Vec::new();
    let mut i: usize = 0;
    while i < lines.len()
        invariant
            i <= lines@.len(),
            out@.len() == i,
            forall|j: int|
                0 <= j < lines@.len() ==> lines.deep_view()[j] == lines@[j]@,
            forall|j: int|
                0 <= j < i ==> out@[j]@ == batch_entry_spec(private_key@, j as nat, lines@[j]@),
            forall|j: int| 0 <= j < i ==> line_ok(private_key@, lines@[j]@),
            forall|j: int| 0 <= j < i ==> out@[j]@.1.len() < 600000 && is_ascii_chars(out@[j]@.1),
        decreases lines@.len() - i,
    {
        let line = &lines[i];
        if line.len() > qr::QR_MAX_BYTES - 69 {
            proof {
                assert(!line_ok(private_key@, lines.deep_view()[i as int]));
            }
            return Err(crate::CoreError::CryptoEngine);
        }
        let signature = match crypto::sign(private_key, line) {
            Ok(s) => s,
            Err(e) => {
                proof {
                    assert(!line_ok(private_key@, lines.deep_view()[i as int]));
                }
                return Err(e);
            },
        };
        let payload = wire::encode_signed_message(&signature, line);
        let svg = match qr::encode_data(payload.as_slice()) {
            Ok(s) => s,
            Err(()) => {
                proof {
                    assert(payload@.len() == 69 + lines@[i as int]@.len());
                    assert(false);
                }
                return Err(crate::CoreError::CryptoEngine);
            },
        };
        let name = entry_name(i + 1);
        out.push(ArchiveEntry { name, svg });
        i += 1;
    }
    Ok(out)
}

/// Sign every line and package the images into one archive, entries in
/// original line order. Succeeds exactly when the batch over these lines
/// does.
pub fn batch_sign_archive(
    private_key: &crypto::PrivateKey,
    lines: &Vec<Vec<u8>>,
) -> (r: Result<Vec<u8>, crate::CoreError>)
    ensures
        r is Ok <==> batch_ok(private_key@, lines.deep_view()),
        r matches Ok(b) ==> b@ == zip_bytes_of(batch_entries_model(private_key@, lines.deep_view())),
        r matches Err(e) ==> e == crate::CoreError::CryptoEngine,
{
    let entries = match batch_sign_entries(private_key, lines) {
        Ok(es) => es,
        Err(e) => {
            return Err(e);
        },
    };
    let mut w = archive_new();
    let ghost model = batch_entries_model(private_key@, lines.deep_view());
    proof {
        assert forall|j: int| 0 <= j < lines@.len() implies lines.deep_view()[j] == lines@[j]@ by {
            assert(lines.deep_view()[j] =~= lines@[j]@);
        }
        assert(archive_entries(w) =~= model.take(0));
    }
    let mut i: usize = 0;
    while i < entries.len()
        invariant
            i <= entries@.len(),
            entries@.len() == lines@.len(),
            model == batch_entries_model(private_key@, lines.deep_view()),
            forall|j: int|
                0 <= j < lines@.len() ==> lines.deep_view()[j] == lines@[j]@,
            forall|j: int|
                0 <= j < entries@.len() ==> entries@[j]@ == batch_entry_spec(
                    private_key@,
                    j as nat,
                    lines@[j]@,
                ),
            forall|j: int|
                0 <= j < entries@.len() ==> entries@[j]@.1.len() < 600000 && is_ascii_chars(
                    entries@[j]@.1,
                ),
            archive_entries(w) == model.take(i as int),
            archive_intact(w),
        decreases entries@.len() - i,
    {
        let entry = &entries[i];
        proof {
            is_ascii_chars_encode_utf8(entry.svg@);
            assert(encode_utf8(entry.svg@).len() < 600000);
        }
        if archive_add(&mut w, entry.name.as_str(), entry.svg.as_str()).is_err() {
            proof {
                assert(false);
            }
            return Err(crate::CoreError::CryptoEngine);
        }
        proof {
            assert(archive_entries(w) =~= model.take(i as int + 1));
        }
        i += 1;
    }
    proof {
        assert(model.take(entries@.len() as int) =~= model);
    }
    match archive_finish(w) {
        Ok(bytes) => Ok(bytes),
        Err(()) => {
            proof {
                assert(false);
            }
            Err(crate::CoreError::CryptoEngine)
        },
    }
}

/// Sign a whole document: split it into lines and batch-sign them. A
/// document that is not UTF-8 text is rejected — with the encoding error,
/// and only then — before anything is signed; a UTF-8 document goes
/// through exactly when its batch does.
pub fn batch_sign_document(
    private_key: &crypto::PrivateKey,
    data: &Vec<u8>,
) -> (r: Result<Vec<u8>, crate::CoreError>)
    ensures
        r is Ok <==> valid_utf8(data@) && batch_ok(private_key@, text::lines_spec(data@)),
        (r matches Err(e) && e == crate::CoreError::Encoding) <==> !valid_utf8(data@),
        r matches Ok(b) ==> b@ == zip_bytes_of(
            batch_entries_model(private_key@, text::lines_spec(data@)),
        ),
        r matches Err(e) ==> (e == crate::CoreError::Encoding || e
            == crate::CoreError::CryptoEngine),
{
    if text::utf8_to_string(data).is_none() {
        return Err(crate::CoreError::Encoding);
    }
    let lines = text::split_lines(data);
    batch_sign_archive(private_key, &lines)
}

} // verus!
