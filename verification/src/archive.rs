//! Archive decode adapter: reads a zip container held in memory into its
//! ordered member entries.

use crate::error::DecodeFailure;
use crate::keys::destination_key;
use crate::keys::destination_key_of;
use crate::keys::extraction_path;
use crate::keys::extraction_path_of;
use crate::keys::is_under_root;
use crate::keys::stays_under_root;
use std::io::Cursor;
use std::io::Read;
use vstd::prelude::*;
use zip::result::ZipError;
use zip::ZipArchive;

verus! {

/// The reader type of `std::io`, carried as an opaque value.
#[verifier::external_type_specification]
#[verifier::external_body]
#[verifier::reject_recursive_types(T)]
pub struct ExCursor<T>(Cursor<T>);

/// The archive reader of the `zip` crate, carried as an opaque value.
#[verifier::external_type_specification]
#[verifier::external_body]
#[verifier::reject_recursive_types(R)]
pub struct ExZipArchive<R>(ZipArchive<R>);

/// The error type of the `zip` crate, carried as an opaque value.
#[verifier::external_type_specification]
#[verifier::external_body]
pub struct ExZipError(ZipError);

/// One member of an archive. An archive holds one member for each name in
/// its central directory, in the order in which the names first occur.
#[derive(Debug, PartialEq, Eq)]
pub struct ArchiveEntry {
    /// The member's name as stored, a path relative to the archive root.
    pub path: String,
    /// Whether the member is a directory.
    pub is_dir: bool,
    /// The member's decompressed content.
    pub content: Vec<u8>,
}

/// The mathematical model of an [`ArchiveEntry`].
pub struct ArchiveEntryView {
    pub path: Seq<char>,
    pub is_dir: bool,
    pub content: Seq<u8>,
}

impl DeepView for ArchiveEntry {
    type V = ArchiveEntryView;

    open spec fn deep_view(&self) -> ArchiveEntryView {
        ArchiveEntryView { path: self.path@, is_dir: self.is_dir, content: self.content@ }
    }
}

/// What `zip::ZipArchive::new` makes of `bytes`: the members of the archive
/// it reads from them, as [`archive_members`] gives them, or `None` where it
/// rejects the bytes as no readable archive.
pub uninterp spec fn zip_members(bytes: Seq<u8>) -> Option<Seq<Option<ArchiveEntryView>>>;

/// What an archive reader holds: for each member, in the order in which
/// `by_index` counts them, its name, directory flag and decompressed
/// content, or `None` for a member that cannot be read.
pub uninterp spec fn archive_members(archive: ZipArchive<Cursor<Vec<u8>>>) -> Seq<
    Option<ArchiveEntryView>,
>;

/// `zip::ZipArchive::new` on an in-memory reader: succeeds exactly where
/// [`zip_members`] is defined, and the reader then holds those members.
#[verifier::external_body]
fn open_archive(bytes: Vec<u8>) -> (opened: Result<ZipArchive<Cursor<Vec<u8>>>, ZipError>)
    ensures
        match opened {
            Ok(archive) => zip_members(bytes@) == Some(archive_members(archive)),
            Err(_) => zip_members(bytes@) is None,
        },
{
    ZipArchive::new(Cursor::new(bytes))
}

/// `zip::ZipArchive::len`: the number of members that the archive holds.
#[verifier::external_body]
fn archive_len(archive: &ZipArchive<Cursor<Vec<u8>>>) -> (count: usize)
    ensures
        count == archive_members(*archive).len(),
{
    archive.len()
}

/// `zip::ZipArchive::by_index`, then the member's name, directory flag and
/// content (`Read::read_to_end`): yields the member at `index` where it can
/// be read, fails where it cannot or where there is no such member, and
/// leaves the archive holding what it held.
#[verifier::external_body]
fn read_entry(archive: &mut ZipArchive<Cursor<Vec<u8>>>, index: usize) -> (entry: Result<
    ArchiveEntry,
    ZipError,
>)
    ensures
        archive_members(*final(archive)) == archive_members(*old(archive)),
        match entry {
            Ok(e) => index < archive_members(*old(archive)).len() && archive_members(
                *old(archive),
            )[index as int] == Some(e.deep_view()),
            Err(_) => index < archive_members(*old(archive)).len() ==> archive_members(
                *old(archive),
            )[index as int] is None,
        },
{
    let mut member = archive.by_index(index)?;
    let path = member.name()?.into_owned();
    let is_dir = member.is_dir();
    let mut content = Vec::new();
    member.read_to_end(&mut content)?;
    Ok(ArchiveEntry { path, is_dir, content })
}

/// The first member from `from` on that cannot be read.
pub open spec fn first_unreadable(members: Seq<Option<ArchiveEntryView>>, from: nat) -> Option<nat>
    decreases members.len() - from,
{
    if from >= members.len() {
        None
    } else if members[from as int] is None {
        Some(from)
    } else {
        first_unreadable(members, from + 1)
    }
}

/// What decoding `bytes` as an archive gives: every member in the order of
/// the archive, or the first failure met on the way.
pub open spec fn archive_decoding(bytes: Seq<u8>) -> Result<Seq<ArchiveEntryView>, DecodeFailure> {
    match zip_members(bytes) {
        None => Err(DecodeFailure::CorruptContainer),
        Some(members) => match first_unreadable(members, 0) {
            Some(index) => Err(DecodeFailure::CorruptEntry { index: index as usize }),
            None => Ok(Seq::new(members.len(), |i: int| members[i].unwrap())),
        },
    }
}

/// Decodes an archive held in memory into its members, directories included.
///
/// Fails on the first thing that cannot be read: the container itself, or
/// the member with the least index whose header or content is damaged.
pub fn decode_archive(bytes: Vec<u8>) -> (decoded: Result<Vec<ArchiveEntry>, DecodeFailure>)
    ensures
        match decoded {
            Ok(entries) => archive_decoding(bytes@) == Ok::<
                Seq<ArchiveEntryView>,
                DecodeFailure,
            >(entries.deep_view()),
            Err(failure) => archive_decoding(bytes@) == Err::<Seq<ArchiveEntryView>, DecodeFailure>(
                failure,
            ),
        },
{
    let mut archive = match open_archive(bytes) {
        Ok(archive) => archive,
        Err(_) => {
            return Err(DecodeFailure::CorruptContainer);
        },
    };
    let ghost members = archive_members(archive);
    let count = archive_len(&archive);
    let mut entries: Vec<ArchiveEntry> = Vec::new();
    let mut index: usize = 0;
    while index < count
        invariant
            index <= count == members.len(),
            zip_members(bytes@) == Some(members),
            archive_members(archive) == members,
            first_unreadable(members, 0) == first_unreadable(members, index as nat),
            entries.len() == index,
            forall|i: int|
                0 <= i < index ==> members[i] == Some(#[trigger] entries[i].deep_view()),
        decreases count - index,
    {
        match read_entry(&mut archive, index) {
            Ok(entry) => {
                entries.push(entry);
            },
            Err(_) => {
                return Err(DecodeFailure::CorruptEntry { index });
            },
        }
        index = index + 1;
    }
    proof {
        assert(entries.deep_view() =~= Seq::new(members.len(), |i: int| members[i].unwrap()));
    }
    Ok(entries)
}

/// One decoded unit of an archive run: a member that is no directory, with
/// the path it is materialized at and the key it is published under.
#[derive(Debug, PartialEq, Eq)]
pub struct WorkItem {
    /// The member's path relative to the archive root.
    pub relative_path: String,
    /// Where the member is materialized under the extraction root.
    pub local_path: String,
    /// The key under which the member is published.
    pub destination_key: String,
    /// The member's content.
    pub content: Vec<u8>,
}

/// The mathematical model of a [`WorkItem`].
pub struct WorkItemView {
    pub relative_path: Seq<char>,
    pub local_path: Seq<char>,
    pub destination_key: Seq<char>,
    pub content: Seq<u8>,
}

impl DeepView for WorkItem {
    type V = WorkItemView;

    open spec fn deep_view(&self) -> WorkItemView {
        WorkItemView {
            relative_path: self.relative_path@,
            local_path: self.local_path@,
            destination_key: self.destination_key@,
            content: self.content@,
        }
    }
}

/// The work item made of the member `entry` of the archive `archive_name`.
pub open spec fn work_item_of(entry: ArchiveEntryView, archive_name: Seq<char>) -> WorkItemView {
    WorkItemView {
        relative_path: entry.path,
        local_path: extraction_path_of(entry.path),
        destination_key: destination_key_of(archive_name, entry.path),
        content: entry.content,
    }
}

/// The members of an archive that are no directories, in their order, each
/// as [`work_item_of`] makes it.
pub open spec fn files_of(entries: Seq<ArchiveEntryView>, archive_name: Seq<char>) -> Seq<
    WorkItemView,
>
    decreases entries.len(),
{
    if entries.len() == 0 {
        Seq::empty()
    } else {
        let before = files_of(entries.drop_last(), archive_name);
        if entries.last().is_dir {
            before
        } else {
            before.push(work_item_of(entries.last(), archive_name))
        }
    }
}

/// Whether materializing `entry` would write outside the extraction root:
/// it is a file whose path does not stay under the root.
pub open spec fn escapes_root(entry: ArchiveEntryView) -> bool {
    !entry.is_dir && !stays_under_root(entry.path)
}

/// The first member from `from` on that escapes the extraction root.
pub open spec fn first_escaping(entries: Seq<ArchiveEntryView>, from: nat) -> Option<nat>
    decreases entries.len() - from,
{
    if from >= entries.len() {
        None
    } else if escapes_root(entries[from as int]) {
        Some(from)
    } else {
        first_escaping(entries, from + 1)
    }
}

/// The work items of an archive: its files, unless one of them escapes the
/// extraction root, which refuses the whole archive.
pub open spec fn work_items_of(entries: Seq<ArchiveEntryView>, archive_name: Seq<char>) -> Result<
    Seq<WorkItemView>,
    DecodeFailure,
> {
    match first_escaping(entries, 0) {
        Some(index) => Err(DecodeFailure::EscapingEntry { index: index as usize }),
        None => Ok(files_of(entries, archive_name)),
    }
}

/// Turns the members of the archive `archive_name` into work items, skipping
/// directories and keeping the order.
///
/// An archive is refused as a whole where the path of one of its files is
/// empty, begins with a slash, or holds a NUL or a step to the parent
/// directory: the failure names the first such member.
pub fn plan_extraction(entries: Vec<ArchiveEntry>, archive_name: &str) -> (plan: Result<
    Vec<WorkItem>,
    DecodeFailure,
>)
    ensures
        match plan {
            Ok(items) => work_items_of(entries.deep_view(), archive_name@) == Ok::<
                Seq<WorkItemView>,
                DecodeFailure,
            >(items.deep_view()),
            Err(failure) => work_items_of(entries.deep_view(), archive_name@) == Err::<
                Seq<WorkItemView>,
                DecodeFailure,
            >(failure),
        },
        plan matches Ok(items) ==> forall|j: int|
            0 <= j < items.len() ==> stays_under_root(#[trigger] items[j].relative_path@),
{
    let ghost members = entries@;
    let ghost all = entries.deep_view();
    let mut index: usize = 0;
    while index < entries.len()
        invariant
            index <= entries.len(),
            all == entries.deep_view(),
            first_escaping(all, 0) == first_escaping(all, index as nat),
        decreases entries.len() - index,
    {
        assert(all[index as int] == entries[index as int].deep_view());
        if !entries[index].is_dir && !is_under_root(entries[index].path.as_str()) {
            return Err(DecodeFailure::EscapingEntry { index });
        }
        index = index + 1;
    }
    let mut items: Vec<WorkItem> = Vec::new();
    for entry in it: entries
        invariant
            it.seq() == members,
            all.len() == members.len(),
            forall|i: int| 0 <= i < members.len() ==> all[i] == #[trigger] members[i].deep_view(),
            first_escaping(all, 0) is None,
            items.deep_view() == files_of(all.take(it.index() as int), archive_name@),
    {
        let ghost position = it.index();
        proof {
            assert(all.take(position + 1).drop_last() =~= all.take(position));
            assert(all.take(position + 1).last() == entry.deep_view());
        }
        if !entry.is_dir {
            let local_path = extraction_path(entry.path.as_str());
            let destination_key = destination_key(archive_name, entry.path.as_str());
            let item = WorkItem {
                relative_path: entry.path,
                local_path,
                destination_key,
                content: entry.content,
            };
            items.push(item);
        }
    }
    proof {
        assert(all.take(all.len() as int) =~= all);
        lemma_work_items_stay_under_root(all, archive_name@);
        assert forall|j: int| 0 <= j < items.len() implies stays_under_root(
            #[trigger] items[j].relative_path@,
        ) by {
            assert(items.deep_view()[j].relative_path == items[j].relative_path@);
        }
    }
    Ok(items)
}

/// Where no file of an archive escapes the extraction root, every work item
/// lies under it: its relative path is not empty, does not begin with a
/// slash, and holds neither a NUL nor a step to the parent directory.
pub proof fn lemma_work_items_stay_under_root(
    entries: Seq<ArchiveEntryView>,
    archive_name: Seq<char>,
)
    requires
        first_escaping(entries, 0) is None,
    ensures
        forall|j: int|
            0 <= j < files_of(entries, archive_name).len() ==> stays_under_root(
                (#[trigger] files_of(entries, archive_name)[j]).relative_path,
            ),
{
    lemma_extraction_round_trip(entries, archive_name);
    let items = files_of(entries, archive_name);
    let at = file_positions(entries);
    assert forall|j: int| 0 <= j < items.len() implies stays_under_root(
        (#[trigger] items[j]).relative_path,
    ) by {
        assert(0 <= at[j] < entries.len());
        lemma_none_escapes(entries, 0, at[j]);
    }
}

/// Where no member from `from` on escapes, the member at `at` does not.
proof fn lemma_none_escapes(entries: Seq<ArchiveEntryView>, from: nat, at: int)
    requires
        first_escaping(entries, from) is None,
        from <= at < entries.len(),
    ensures
        !escapes_root(entries[at]),
    decreases at - from,
{
    if from < at {
        lemma_none_escapes(entries, from + 1, at);
    }
}

/// The positions, in increasing order, of the members of `entries` that are
/// no directories.
pub open spec fn file_positions(entries: Seq<ArchiveEntryView>) -> Seq<int>
    decreases entries.len(),
{
    if entries.len() == 0 {
        Seq::empty()
    } else {
        let before = file_positions(entries.drop_last());
        if entries.last().is_dir {
            before
        } else {
            before.push(entries.len() - 1)
        }
    }
}

/// Extraction is a round trip: every member that is no directory becomes
/// exactly one work item, at its own relative path under the extraction
/// root and with its own content, and the items keep the members' order.
pub proof fn lemma_extraction_round_trip(entries: Seq<ArchiveEntryView>, archive_name: Seq<char>)
    ensures
        ({
            let items = files_of(entries, archive_name);
            let at = file_positions(entries);
            &&& items.len() == at.len()
            &&& forall|j: int|
                0 <= j < at.len() ==> {
                    &&& 0 <= #[trigger] at[j] < entries.len()
                    &&& !entries[at[j]].is_dir
                    &&& items[j] == work_item_of(entries[at[j]], archive_name)
                }
            &&& forall|j: int, k: int| 0 <= j < k < at.len() ==> #[trigger] at[j] < #[trigger] at[k]
            &&& forall|i: int|
                0 <= i < entries.len() && !(#[trigger] entries[i]).is_dir ==> exists|j: int|
                    0 <= j < at.len() && #[trigger] at[j] == i
        }),
    decreases entries.len(),
{
    if entries.len() > 0 {
        let shorter = entries.drop_last();
        lemma_extraction_round_trip(shorter, archive_name);
        let at = file_positions(entries);
        let before = file_positions(shorter);
        assert forall|i: int|
            0 <= i < entries.len() && !(#[trigger] entries[i]).is_dir implies exists|j: int|
            0 <= j < at.len() && #[trigger] at[j] == i by {
            if i < entries.len() - 1 {
                assert(!shorter[i].is_dir);
                let j = choose|j: int| 0 <= j < before.len() && #[trigger] before[j] == i;
                assert(at[j] == i);
            } else {
                assert(at[at.len() - 1] == i);
            }
        }
    }
}

/// An archive that holds directories only, or nothing at all, is accepted
/// and has no work items.
pub proof fn lemma_directories_yield_nothing(
    entries: Seq<ArchiveEntryView>,
    archive_name: Seq<char>,
)
    requires
        forall|i: int| 0 <= i < entries.len() ==> (#[trigger] entries[i]).is_dir,
    ensures
        work_items_of(entries, archive_name) == Ok::<Seq<WorkItemView>, DecodeFailure>(
            Seq::empty(),
        ),
{
    lemma_no_file_among_directories(entries, archive_name);
    lemma_no_directory_escapes(entries, 0);
    assert(files_of(entries, archive_name) =~= Seq::empty());
}

proof fn lemma_no_file_among_directories(entries: Seq<ArchiveEntryView>, archive_name: Seq<char>)
    requires
        forall|i: int| 0 <= i < entries.len() ==> (#[trigger] entries[i]).is_dir,
    ensures
        files_of(entries, archive_name).len() == 0,
    decreases entries.len(),
{
    if entries.len() > 0 {
        lemma_no_file_among_directories(entries.drop_last(), archive_name);
    }
}

proof fn lemma_no_directory_escapes(entries: Seq<ArchiveEntryView>, from: nat)
    requires
        forall|i: int| 0 <= i < entries.len() ==> (#[trigger] entries[i]).is_dir,
    ensures
        first_escaping(entries, from) is None,
    decreases entries.len() - from,
{
    if from < entries.len() {
        lemma_no_directory_escapes(entries, from + 1);
    }
}

} // verus!
