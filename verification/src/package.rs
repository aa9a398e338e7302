//! The code package of the responder: a zip archive that holds the
//! executable and, beside it, the denylist file.

use crate::blocklist::{deny_list, spec_deny_list};
use std::io::{Cursor, Write};
use vstd::prelude::*;
use zip::result::ZipError;
use zip::write::FileOptions;
use zip::{ZipArchive, ZipWriter};

verus! {

/// The error of the archive library, `zip::result::ZipError`. Opaque here.
#[verifier::external_type_specification]
#[verifier::external_body]
pub struct ExZipError(zip::result::ZipError);

/// The options of the archive library for a new entry,
/// `zip::write::FileOptions`. Opaque here.
#[verifier::external_type_specification]
#[verifier::external_body]
pub struct ExFileOptions(zip::write::FileOptions);

/// Why a code package could not be made.
#[derive(Debug)]
pub struct PackageError {
    /// What the archive library reported.
    pub cause: ZipError,
}

/// The options under which a new entry is written: how it is compressed, and
/// the time that it is stamped with.
pub struct EntryOptions {
    /// The options as the archive library holds them.
    pub raw: FileOptions,
}

/// The archive that the archive library makes of two entries: the entry
/// named `kept` of the archive `package`, and a new entry named `added` that
/// holds `content` and is written under `options`. `None` where the library
/// makes none.
pub uninterp spec fn repacked(
    package: Seq<u8>,
    kept: Seq<char>,
    added: Seq<char>,
    content: Seq<char>,
    options: EntryOptions,
) -> Option<Seq<u8>>;

/// The archive library's default options for a new entry,
/// `zip::write::FileOptions::default`. Nothing is claimed of them: they hold
/// the time of the call.
#[verifier::external_body]
fn default_options() -> (options: EntryOptions) {
    EntryOptions { raw: FileOptions::default() }
}

/// Makes a zip archive of two entries: the entry named `kept` of the archive
/// `package`, copied as it is stored with `zip::ZipWriter::raw_copy_file`,
/// and a new entry named `added` that holds `content`, started with
/// `zip::ZipWriter::start_file` under `options`. The contract gives the
/// outcome its name, and claims nothing else of it.
#[verifier::external_body]
fn repack(package: Vec<u8>, kept: &str, added: &str, content: &str, options: &EntryOptions) -> (archive: Result<
    Vec<u8>,
    ZipError,
>)
    ensures
        archive matches Ok(bytes) ==> repacked(package@, kept@, added@, content@, *options) == Some(bytes@),
        archive is Err ==> repacked(package@, kept@, added@, content@, *options) is None,
{
    let mut reader = ZipArchive::new(Cursor::new(package))?;
    let mut writer = ZipWriter::new(Cursor::new(Vec::new()));
    writer.raw_copy_file(reader.by_name(kept)?)?;
    writer.start_file(added, options.raw)?;
    writer.write_all(content.as_bytes())?;
    Ok(writer.finish()?.into_inner())
}

/// The archive in the outcome of making a package, if one was made.
pub open spec fn archive_of(outcome: Result<Vec<u8>, PackageError>) -> Option<Seq<u8>> {
    match outcome {
        Ok(archive) => Some(archive@),
        Err(_) => None,
    }
}

/// What the archive library's outcome is to a caller of this library: the
/// archive as it is, or an error that holds what the library reported.
pub fn package_outcome(archive: Result<Vec<u8>, ZipError>) -> (outcome: Result<Vec<u8>, PackageError>)
    ensures
        archive matches Ok(bytes) ==> outcome == Ok::<Vec<u8>, PackageError>(bytes),
        archive matches Err(cause) ==> outcome == Err::<Vec<u8>, PackageError>(PackageError { cause }),
{
    match archive {
        Ok(bytes) => Ok(bytes),
        Err(cause) => Err(PackageError { cause }),
    }
}

/// Makes the new code package from the one in use: the executable, entry
/// `bootstrap`, as it is, and `deny_list` as the entry `hosts`, written under
/// the archive library's default options.
///
/// The result is what the archive library makes of exactly these: the
/// package in use, the two entry names, and the denylist as the content. It
/// fails where the library makes no archive, as it does of a package that is
/// no zip archive or holds no entry `bootstrap`.
pub fn update_code_package(package: Vec<u8>, deny_list: &str) -> (updated: Result<Vec<u8>, PackageError>)
    ensures
        exists|options: EntryOptions|
            archive_of(updated) == #[trigger] repacked(package@, "bootstrap"@, "hosts"@, deny_list@, options),
{
    let options = default_options();
    let ghost bytes = package@;
    let updated = package_outcome(repack(package, "bootstrap", "hosts", deny_list, &options));
    assert(archive_of(updated) == repacked(bytes, "bootstrap"@, "hosts"@, deny_list@, options));
    updated
}

/// Makes the new code package from the one in use, a blocklist in hosts
/// format and an allowlist of filter rules: the denylist file is made of the
/// two lists, and put beside the executable as [`update_code_package`] does.
pub fn rebuild_code_package(package: Vec<u8>, blocklist: &str, allowlist: &str) -> (updated: Result<
    Vec<u8>,
    PackageError,
>)
    ensures
        exists|options: EntryOptions|
            archive_of(updated) == #[trigger] repacked(
                package@,
                "bootstrap"@,
                "hosts"@,
                spec_deny_list(blocklist@, allowlist@),
                options,
            ),
{
    let hosts = deny_list(blocklist, allowlist);
    update_code_package(package, hosts.as_str())
}

} // verus!
