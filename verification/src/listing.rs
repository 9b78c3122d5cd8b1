//! Listing translation.
//!
//! The remote store's directory listing is a sequence of raw entries, each a
//! filename and a size. Every entry must decode under the identifier codec;
//! a single malformed entry aborts the whole listing, because a malformed
//! remote name means the naming invariant has been violated and a partial
//! view could silently hide or duplicate objects.

use vstd::prelude::*;

use crate::codec::{
    decoded_id, decoded_name, split_name, u128_to_decimal, valid_remote_name, decimal_of, HYPHEN,
};

verus! {

/// One raw directory entry of the remote store.
pub struct RemoteEntry {
    pub name: Vec<u8>,
    pub size: u64,
}

/// A stored object as clients see it: the decoded identifier digits, the
/// decoded display name, and the size the remote listing reported.
pub struct StoredObject {
    pub id: Vec<u8>,
    pub display_name: Vec<u8>,
    pub size: u64,
}

/// Failure of the listing translation: some remote entry violates the
/// naming invariant.
pub enum ListError {
    BadEntry,
}

/// `obj` is the translation of the remote entry `(name, size)`.
pub open spec fn is_translation(obj: StoredObject, name: Seq<u8>, size: nat) -> bool {
    &&& valid_remote_name(name)
    &&& obj.id@ == decoded_id(name)
    &&& obj.display_name@ == decoded_name(name)
    &&& obj.size as nat == size
}

/// The remote filename under which an object stands: its identifier digits,
/// a `-`, and its display name.
pub open spec fn remote_name_of(obj: StoredObject) -> Seq<u8> {
    obj.id@ + seq![HYPHEN] + obj.display_name@
}

/// The object's identifier digits are the canonical decimal form of
/// `requested`.
pub open spec fn id_matches(obj: StoredObject, requested: nat) -> bool {
    obj.id@ == decimal_of(requested)
}

/// An object translated out of a listing entry rebuilds, from its decoded
/// parts, exactly the remote filename the entry carried: what a download
/// selects out of the listing is retrieved under the name the object was
/// stored under.
pub proof fn lemma_selected_name_is_stored_name(obj: StoredObject, name: Seq<u8>, size: nat)
    requires
        is_translation(obj, name, size),
    ensures
        remote_name_of(obj) == name,
{
    crate::codec::lemma_split_join(name);
}

/// Translates raw entries into stored objects, all or nothing: the result
/// is `Ok` exactly when every entry's name is valid, and then carries the
/// decoded objects in listing order; one malformed entry fails the whole
/// translation.
pub fn translate_entries(entries: &Vec<RemoteEntry>) -> (r: Result<Vec<StoredObject>, ListError>)
    ensures
        r is Ok <==> (forall|i: int|
            0 <= i < entries@.len() ==> valid_remote_name(#[trigger] entries@[i].name@)),
        r matches Ok(objs) ==> objs@.len() == entries@.len() && (forall|i: int|
            0 <= i < entries@.len() ==> is_translation(
                #[trigger] objs@[i],
                entries@[i].name@,
                entries@[i].size as nat,
            )),
        r matches Err(e) ==> e == ListError::BadEntry,
{
    let mut objs: Vec<StoredObject> = Vec::new();
    let mut i: usize = 0;
    while i < entries.len()
        invariant
            i <= entries@.len(),
            objs@.len() == i,
            forall|j: int| 0 <= j < i ==> valid_remote_name(#[trigger] entries@[j].name@),
            forall|j: int|
                0 <= j < i ==> is_translation(
                    #[trigger] objs@[j],
                    entries@[j].name@,
                    entries@[j].size as nat,
                ),
        decreases entries@.len() - i,
    {
        let entry = &entries[i];
        match split_name(entry.name.as_slice()) {
            Some((id_part, name_part)) => {
                objs.push(
                    StoredObject { id: id_part, display_name: name_part, size: entry.size },
                );
            },
            None => {
                return Err(ListError::BadEntry);
            },
        }
        i += 1;
    }
    Ok(objs)
}

/// Name of the entry that a well-formed POSIX-format line of the remote
/// `LIST` output describes: the filename field of the line.
pub uninterp spec fn posix_entry_name(line: Seq<char>) -> Seq<u8>;

/// Size in bytes of the entry that a well-formed POSIX-format line of the
/// remote `LIST` output describes: the size field of the line.
pub uninterp spec fn posix_entry_size(line: Seq<char>) -> nat;

/// Name of the entry that a well-formed DOS-format line of the remote
/// `LIST` output describes: the filename field of the line.
pub uninterp spec fn dos_entry_name(line: Seq<char>) -> Seq<u8>;

/// Size in bytes of the entry that a well-formed DOS-format line of the
/// remote `LIST` output describes: the size field of the line, and zero
/// for a directory entry.
pub uninterp spec fn dos_entry_size(line: Seq<char>) -> nat;

/// Relies on suppaftp's POSIX `LIST` parser — `list::ListParser::parse_posix`,
/// `File::name` and `File::size` — to read one line of the remote directory
/// listing as the entry's filename and size. Whether a line is accepted can
/// depend on the clock: a date without a year is resolved against the
/// current one, so nothing is promised about which lines parse. The name
/// and the size of an accepted line come out of the line's own fields and
/// are functions of the line alone.
#[verifier::external_body]
fn parse_posix_line(line: &String) -> (r: Option<RemoteEntry>)
    ensures
        r matches Some(e) ==> e.name@ == posix_entry_name(line@) && e.size as nat
            == posix_entry_size(line@),
{
    match suppaftp::list::ListParser::parse_posix(line.as_str()) {
        Ok(f) => Some(RemoteEntry { name: f.name().as_bytes().to_vec(), size: f.size() as u64 }),
        Err(_) => None,
    }
}

/// Relies on suppaftp's DOS `LIST` parser — `list::ListParser::parse_dos`,
/// `File::name` and `File::size` — to read one line of the remote directory
/// listing as the entry's filename and size. Its date formats are fixed and
/// it never consults the clock, so both whether a line is accepted and the
/// name and size of an accepted line are functions of the line alone.
#[verifier::external_body]
fn parse_dos_line(line: &String) -> (r: Option<RemoteEntry>)
    ensures
        r matches Some(e) ==> e.name@ == dos_entry_name(line@) && e.size as nat
            == dos_entry_size(line@),
{
    match suppaftp::list::ListParser::parse_dos(line.as_str()) {
        Ok(f) => Some(RemoteEntry { name: f.name().as_bytes().to_vec(), size: f.size() as u64 }),
        Err(_) => None,
    }
}

/// Name of the entry that a machine-readable (MLSD/MLST-format) line of
/// the remote listing describes: the part after the final `;`, with
/// leading whitespace removed.
pub uninterp spec fn mlsx_entry_name(line: Seq<char>) -> Seq<u8>;

/// Size in bytes that a machine-readable (MLSD/MLST-format) line of the
/// remote listing declares in its size fact, and zero when it declares
/// none.
pub uninterp spec fn mlsx_entry_size(line: Seq<char>) -> nat;

/// Relies on suppaftp's machine-readable-listing parser —
/// `list::ListParser::parse_mlsd`, `File::name` and `File::size` — as the
/// last resort for a line in neither the POSIX nor the DOS format. The
/// parser is a function of the line alone (its date format is fixed and it
/// never consults the clock), but its handling of a `unix.mode` fact
/// indexes bytes and characters interchangeably and panics when that
/// fact's value holds a non-ASCII character; only all-ASCII lines are
/// admitted, where byte and character counts agree and the panic is
/// unreachable.
#[verifier::external_body]
fn parse_mlsx_line(line: &String) -> (r: Option<RemoteEntry>)
    requires
        vstd::utf8::is_ascii_chars(line@),
    ensures
        r matches Some(e) ==> e.name@ == mlsx_entry_name(line@) && e.size as nat
            == mlsx_entry_size(line@),
{
    match suppaftp::list::ListParser::parse_mlsd(line.as_str()) {
        Ok(f) => Some(RemoteEntry { name: f.name().as_bytes().to_vec(), size: f.size() as u64 }),
        Err(_) => None,
    }
}

/// Parses one line of the remote `LIST` output, trying the listing
/// formats in order: POSIX, DOS, then the machine-readable format for an
/// all-ASCII line. A non-ASCII line in neither of the first two formats is
/// rejected rather than handed to the machine-readable parser, whose
/// mode-fact handling can panic on such a line.
fn parse_line(line: &String) -> (r: Option<RemoteEntry>)
    ensures
        r matches Some(e) ==> (e.name@ == posix_entry_name(line@) && e.size as nat
            == posix_entry_size(line@)) || (e.name@ == dos_entry_name(line@) && e.size as nat
            == dos_entry_size(line@)) || (e.name@ == mlsx_entry_name(line@) && e.size as nat
            == mlsx_entry_size(line@)),
{
    match parse_posix_line(line) {
        Some(entry) => Some(entry),
        None => match parse_dos_line(line) {
            Some(entry) => Some(entry),
            None => {
                if line.as_str().is_ascii() {
                    parse_mlsx_line(line)
                } else {
                    None
                }
            },
        },
    }
}

/// Translates the raw lines of the remote `LIST` output, all or nothing:
/// on success every line parsed in one of the listing formats, every entry
/// name was valid, and the objects come back in listing order; a line no
/// parser accepts, or one whose entry name is malformed, fails the whole
/// listing. An empty listing always translates, to no objects.
pub fn translate_lines(lines: &Vec<String>) -> (r: Result<Vec<StoredObject>, ListError>)
    ensures
        lines@.len() == 0 ==> r is Ok,
        r matches Ok(objs) ==> objs@.len() == lines@.len() && (forall|i: int|
            0 <= i < lines@.len() ==> is_translation(
                #[trigger] objs@[i],
                posix_entry_name(lines@[i]@),
                posix_entry_size(lines@[i]@),
            ) || is_translation(
                objs@[i],
                dos_entry_name(lines@[i]@),
                dos_entry_size(lines@[i]@),
            ) || is_translation(
                objs@[i],
                mlsx_entry_name(lines@[i]@),
                mlsx_entry_size(lines@[i]@),
            )),
        (exists|i: int|
            0 <= i < lines@.len() && !valid_remote_name(#[trigger] posix_entry_name(lines@[i]@))
                && !valid_remote_name(dos_entry_name(lines@[i]@)) && !valid_remote_name(
                mlsx_entry_name(lines@[i]@),
            )) ==> r is Err,
        r matches Err(e) ==> e == ListError::BadEntry,
{
    let mut entries: Vec<RemoteEntry> = Vec::new();
    let mut i: usize = 0;
    while i < lines.len()
        invariant
            i <= lines@.len(),
            entries@.len() == i,
            forall|j: int|
                0 <= j < i ==> ((#[trigger] entries@[j]).name@ == posix_entry_name(lines@[j]@)
                    && entries@[j].size as nat == posix_entry_size(lines@[j]@)) || (
                entries@[j].name@ == dos_entry_name(lines@[j]@) && entries@[j].size as nat
                    == dos_entry_size(lines@[j]@)) || (entries@[j].name@ == mlsx_entry_name(
                    lines@[j]@,
                ) && entries@[j].size as nat == mlsx_entry_size(lines@[j]@)),
        decreases lines@.len() - i,
    {
        match parse_line(&lines[i]) {
            Some(entry) => {
                entries.push(entry);
            },
            None => {
                return Err(ListError::BadEntry);
            },
        }
        i += 1;
    }
    match translate_entries(&entries) {
        Ok(objs) => {
            proof {
                assert forall|k: int|
                    0 <= k < lines@.len() implies is_translation(
                    #[trigger] objs@[k],
                    posix_entry_name(lines@[k]@),
                    posix_entry_size(lines@[k]@),
                ) || is_translation(
                    objs@[k],
                    dos_entry_name(lines@[k]@),
                    dos_entry_size(lines@[k]@),
                ) || is_translation(
                    objs@[k],
                    mlsx_entry_name(lines@[k]@),
                    mlsx_entry_size(lines@[k]@),
                ) by {
                    assert(is_translation(objs@[k], entries@[k].name@, entries@[k].size as nat));
                }
                assert forall|k: int|
                    0 <= k < lines@.len() implies valid_remote_name(
                    #[trigger] posix_entry_name(lines@[k]@),
                ) || valid_remote_name(dos_entry_name(lines@[k]@)) || valid_remote_name(
                    mlsx_entry_name(lines@[k]@),
                ) by {
                    assert(is_translation(objs@[k], entries@[k].name@, entries@[k].size as nat));
                }
            }
            Ok(objs)
        },
        Err(e) => {
            proof {
                let bad = choose|k: int|
                    0 <= k < entries@.len() && !valid_remote_name(#[trigger] entries@[k].name@);
                assert(0 <= bad < lines@.len());
            }
            Err(e)
        },
    }
}

/// Looks the requested identifier up in a translated listing and, for the
/// first object that carries it, rebuilds the remote filename to retrieve:
/// `None` exactly when no object's identifier digits are the canonical
/// decimal form of `requested`.
pub fn select_for_download(objects: &Vec<StoredObject>, requested: u128) -> (r: Option<Vec<u8>>)
    ensures
        r is Some <==> (exists|i: int|
            0 <= i < objects@.len() && id_matches(#[trigger] objects@[i], requested as nat)),
        r matches Some(n) ==> (exists|i: int|
            {
                &&& 0 <= i < objects@.len()
                &&& id_matches(#[trigger] objects@[i], requested as nat)
                &&& forall|j: int| 0 <= j < i ==> !id_matches(#[trigger] objects@[j], requested as nat)
                &&& n@ == remote_name_of(objects@[i])
            }),
{
    let id_bytes = u128_to_decimal(requested);
    let mut i: usize = 0;
    while i < objects.len()
        invariant
            i <= objects@.len(),
            id_bytes@ == decimal_of(requested as nat),
            forall|j: int| 0 <= j < i ==> !id_matches(#[trigger] objects@[j], requested as nat),
        decreases objects@.len() - i,
    {
        if objects[i].id == id_bytes {
            proof {
                assert(objects@[i as int].id@ =~= id_bytes@);
            }
            let mut name = objects[i].id.clone();
            proof {
                assert(name@ =~= objects@[i as int].id@);
            }
            name.push(HYPHEN);
            let mut rest = vstd::slice::slice_to_vec(objects[i].display_name.as_slice());
            name.append(&mut rest);
            proof {
                assert(objects@[i as int].id@ =~= name@.subrange(
                    0,
                    objects@[i as int].id@.len() as int,
                ));
                assert(name@ =~= remote_name_of(objects@[i as int]));
            }
            return Some(name);
        }
        i += 1;
    }
    None
}

} // verus!
