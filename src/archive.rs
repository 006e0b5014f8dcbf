//! Unpacking a runtime archive: which directories and files its entries make.
//! The host reads the archive's bytes and carries out the plan on disk.
use vstd::prelude::*;

verus! {

/// A name for what the zip crate reads of an archive: its number of
/// entries, or its error where the bytes are not a readable archive.
pub uninterp spec fn zip_entry_count_of(bytes: Seq<u8>) -> Result<nat, Seq<char>>;

/// Relies on `zip::ZipArchive::new` over the bytes and `ZipArchive::len`:
/// the number of entries in the central directory, which depends on the
/// bytes alone; the error is the zip crate's message.
#[verifier::external_body]
fn zip_entry_count(bytes: &[u8]) -> (r: Result<usize, String>)
    ensures
        match r {
            Ok(n) => zip_entry_count_of(bytes@) == Ok::<nat, Seq<char>>(n as nat),
            Err(e) => zip_entry_count_of(bytes@) == Err::<nat, Seq<char>>(e@),
        },
{
    zip::ZipArchive::new(std::io::Cursor::new(bytes)).map(|a| a.len()).map_err(|e| e.to_string())
}

/// One entry of an archive.
#[derive(Clone, Debug)]
pub struct ZipEntry {
    /// The name as stored; a directory's ends with `/`.
    pub name: String,
    /// The entry's path made safe: its plain components only.
    pub path: Vec<String>,
    pub contents: Vec<u8>,
}

/// A name for what the zip crate reads of entry `index` of an archive: its
/// stored name and its contents, or the zip crate's error where the archive,
/// the entry or its data cannot be read (a missing entry, an encrypted one,
/// an unsupported compression, a checksum mismatch).
pub uninterp spec fn zip_entry_of(bytes: Seq<u8>, index: int) -> Result<(Seq<char>, Seq<u8>), Seq<char>>;

/// Relies on `zip::ZipArchive::by_index_decrypt` with an empty password (an
/// unencrypted entry ignores it; where the crate reports a wrong password
/// that becomes an error, not a panic as in `by_index`), on `ZipFile::name`,
/// and on reading the entry to its end. The name and the contents depend on
/// the bytes alone; the path is `ZipFile::mangled_name`, whose components
/// follow the host's path rules, so nothing is stated of it.
#[verifier::external_body]
fn zip_entry(bytes: &[u8], index: usize) -> (r: Result<ZipEntry, String>)
    ensures
        match r {
            Ok(e) => zip_entry_of(bytes@, index as int) == Ok::<(Seq<char>, Seq<u8>), Seq<char>>((e.name@, e.contents@)),
            Err(m) => zip_entry_of(bytes@, index as int) == Err::<(Seq<char>, Seq<u8>), Seq<char>>(m@),
        },
{
    let mut a = zip::ZipArchive::new(std::io::Cursor::new(bytes)).map_err(|e| e.to_string())?;
    let mut f = match a.by_index_decrypt(index, b"") {
        Ok(Ok(f)) => f,
        Ok(Err(e)) => return Err(e.to_string()),
        Err(e) => return Err(e.to_string()),
    };
    let name = f.name().to_string();
    let path = f.mangled_name().iter().map(|c| c.to_string_lossy().to_string()).collect();
    let mut contents = Vec::new();
    std::io::Read::read_to_end(&mut f, &mut contents).map_err(|e| e.to_string())?;
    Ok(ZipEntry { name, path, contents })
}

/// What the host is to do for one entry; paths are relative to the target
/// directory, one component per element.
#[derive(Clone, Debug)]
pub enum ExtractOp {
    CreateDir { path: Vec<String> },
    /// Write the file, creating its parent directories where missing.
    WriteFile { path: Vec<String>, contents: Vec<u8> },
}

/// Whether an entry stands for a directory: its name ends with `/`.
pub open spec fn names_directory(name: Seq<char>) -> bool {
    name.len() > 0 && name.last() == '/'
}

/// The operation for an entry.
pub open spec fn op_for(e: ZipEntry) -> ExtractOp {
    if names_directory(e.name@) {
        ExtractOp::CreateDir { path: e.path }
    } else {
        ExtractOp::WriteFile { path: e.path, contents: e.contents }
    }
}

fn is_directory_name(name: &str) -> (r: bool)
    ensures
        r == names_directory(name@),
{
    let n = name.unicode_len();
    n > 0 && name.get_char(n - 1) == '/'
}

/// The operations that unpack the entries, one per entry, in order.
pub fn plan_extraction(entries: Vec<ZipEntry>) -> (r: Vec<ExtractOp>)
    ensures
        r@.len() == entries@.len(),
        forall|i: int| 0 <= i < entries@.len() ==> #[trigger] r@[i] == op_for(entries@[i]),
{
    let ghost all = entries@;
    let mut rest = entries;
    let mut ops: Vec<ExtractOp> = Vec::new();
    while rest.len() > 0
        invariant
            ops@.len() + rest@.len() == all.len(),
            rest@ == all.subrange(ops@.len() as int, all.len() as int),
            forall|i: int| 0 <= i < ops@.len() ==> #[trigger] ops@[i] == op_for(all[i]),
        decreases rest@.len(),
    {
        let e = rest.remove(0);
        assert(e == all[ops@.len() as int]);
        let op = if is_directory_name(e.name.as_str()) {
            ExtractOp::CreateDir { path: e.path }
        } else {
            ExtractOp::WriteFile { path: e.path, contents: e.contents }
        };
        ops.push(op);
        assert(rest@ =~= all.subrange(ops@.len() as int, all.len() as int));
    }
    ops
}

/// Whether every entry below `n` of the archive reads.
pub open spec fn entries_read(bytes: Seq<u8>, n: int) -> bool {
    forall|i: int| 0 <= i < n ==> #[trigger] zip_entry_of(bytes, i) is Ok
}

/// Operation `op` unpacks entry `i` of the archive: a directory for a name
/// that ends with `/`, else a file with the entry's contents.
pub open spec fn op_unpacks(bytes: Seq<u8>, i: int, op: ExtractOp) -> bool {
    let (name, contents) = zip_entry_of(bytes, i)->Ok_0;
    if names_directory(name) {
        op is CreateDir
    } else {
        op matches ExtractOp::WriteFile { contents: c, .. } && c@ == contents
    }
}

/// The plan that unpacks an archive: one operation per entry, in order. It
/// is had exactly when the archive and each of its entries read; otherwise
/// the result is the zip crate's error for the archive or for the first
/// entry that does not read.
pub fn extract_archive(bytes: &Vec<u8>) -> (r: Result<Vec<ExtractOp>, String>)
    ensures
        zip_entry_count_of(bytes@) matches Err(e) ==> (r matches Err(m) && m@ == e),
        (zip_entry_count_of(bytes@) matches Ok(n) && entries_read(bytes@, n as int)) <==> r is Ok,
        r matches Ok(ops) ==> {
            &&& zip_entry_count_of(bytes@) == Ok::<nat, Seq<char>>(ops@.len())
            &&& forall|i: int| 0 <= i < ops@.len() ==> op_unpacks(bytes@, i, #[trigger] ops@[i])
        },
        r matches Err(m) ==> (zip_entry_count_of(bytes@) == Err::<nat, Seq<char>>(m@) || exists|i: int|
            0 <= i && entries_read(bytes@, i) && zip_entry_of(bytes@, i) == Err::<
                (Seq<char>, Seq<u8>),
                Seq<char>,
            >(m@)),
{
    let data = bytes.as_slice();
    assert(data@ == bytes@);
    let n = match zip_entry_count(data) {
        Ok(n) => n,
        Err(e) => {
            return Err(e);
        },
    };
    let mut entries: Vec<ZipEntry> = Vec::new();
    let mut i: usize = 0;
    while i < n
        invariant
            i <= n,
            entries@.len() == i,
            data@ == bytes@,
            zip_entry_count_of(bytes@) == Ok::<nat, Seq<char>>(n as nat),
            entries_read(bytes@, i as int),
            forall|k: int| 0 <= k < i ==> zip_entry_of(bytes@, k) == Ok::<(Seq<char>, Seq<u8>), Seq<char>>(
                (#[trigger] entries@[k].name@, entries@[k].contents@),
            ),
        decreases n - i,
    {
        match zip_entry(data, i) {
            Ok(e) => entries.push(e),
            Err(e) => {
                assert(!entries_read(bytes@, n as int)) by {
                    assert(zip_entry_of(bytes@, i as int) is Err);
                }
                return Err(e);
            },
        }
        i = i + 1;
    }
    let ghost all = entries@;
    let ops = plan_extraction(entries);
    assert forall|k: int| 0 <= k < ops@.len() implies op_unpacks(bytes@, k, #[trigger] ops@[k]) by {
        assert(ops@[k] == op_for(all[k]));
        assert(zip_entry_of(bytes@, k) == Ok::<(Seq<char>, Seq<u8>), Seq<char>>((all[k].name@, all[k].contents@)));
    }
    Ok(ops)
}

} // verus!
