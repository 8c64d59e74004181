//! What holds of every archive and of every restore.

use vstd::prelude::*;
use vstd::utf8::{encode_utf8, encode_utf8_decode_utf8, encode_utf8_valid_utf8};
use crate::archive::{
    archive_plan, container_entries, directory_name, extraction_plan, metadata_entry,
    last_named, metadata_name, metadata_text, named_text, packed_entries, read_back,
    read_back_all, restore_plan, stored_view,
    unpack_decision, DecisionView, EntryView, ExtractionView, StoredEntry, WalkedView,
};
use crate::error::Fault;
use crate::paths::{
    credentials_marker, is_sensitive, secret_marker, single_segment_stays_inside,
    stays_inside, trailing_slash_not_sensitive, trailing_slash_stays_inside,
};
use crate::text::{ends_with, occurs_at};

verus! {

/// The write that restores an entry: the directory under its stored name,
/// or the file with its content.
pub open spec fn restored(e: EntryView) -> ExtractionView {
    if e.is_directory {
        ExtractionView::CreateDirectory { path: directory_name(e.name) }
    } else {
        ExtractionView::WriteFile { path: e.name, content: e.content }
    }
}

/// A relative path as a walk of a directory gives it for a file or a
/// directory that is packed: it stays inside, is not sensitive, is not
/// empty and does not end in a slash or a backslash.
pub open spec fn plain_path(path: Seq<char>) -> bool {
    &&& stays_inside(path)
    &&& !is_sensitive(path)
    &&& path.len() > 0
    &&& path.last() != '/'
    &&& path.last() != '\\'
}

/// No entry that is packed of a walk bears a sensitive name or the name of
/// the metadata entry, and each is packed of a thing of the walk under that
/// thing's path.
pub proof fn packed_entries_come_from_walk(walked: Seq<WalkedView>)
    requires
        packed_entries(walked) is Ok,
    ensures
        forall|j: int|
            0 <= j < packed_entries(walked)->Ok_0.len() ==> {
                let e = #[trigger] packed_entries(walked)->Ok_0[j];
                &&& !is_sensitive(e.name)
                &&& e.name != metadata_name()
                &&& e.is_directory ==> e.name.len() > 0
                &&& exists|i: int|
                    0 <= i < walked.len() && (#[trigger] walked[i]).path == Some(e.name)
                        && walked[i].is_file == !e.is_directory
            },
    decreases walked.len(),
{
    if walked.len() > 0 {
        let front = walked.drop_last();
        packed_entries_come_from_walk(front);
        let before = packed_entries(front)->Ok_0;
        let entries = packed_entries(walked)->Ok_0;
        assert forall|j: int| 0 <= j < entries.len() implies {
            let e = #[trigger] entries[j];
            &&& !is_sensitive(e.name)
            &&& e.name != metadata_name()
            &&& e.is_directory ==> e.name.len() > 0
            &&& exists|i: int|
                0 <= i < walked.len() && (#[trigger] walked[i]).path == Some(e.name)
                    && walked[i].is_file == !e.is_directory
        } by {
            let e = entries[j];
            if j < before.len() {
                assert(e == before[j]);
                let i = choose|i: int|
                    0 <= i < front.len() && (#[trigger] front[i]).path == Some(e.name)
                        && front[i].is_file == !e.is_directory;
                assert(walked[i] == front[i]);
            } else {
                assert(walked[walked.len() - 1].path == Some(e.name));
            }
        }
    }
}

/// The name of the metadata entry is not sensitive and stays inside.
pub proof fn metadata_name_is_plain()
    ensures
        !is_sensitive(metadata_name()),
        stays_inside(metadata_name()),
        metadata_name().len() > 0,
        metadata_name().last() == 'n',
{
    reveal_strlit("backup_meta.json");
    reveal_strlit(".webdav_secret");
    reveal_strlit(".credentials");
    let name = metadata_name();
    assert forall|i: int| !occurs_at(name, secret_marker(), i) by {
        if occurs_at(name, secret_marker(), i) {
            assert(name.subrange(i, i + 14)[0] == '.');
        }
    }
    assert forall|i: int| !occurs_at(name, credentials_marker(), i) by {
        if occurs_at(name, credentials_marker(), i) {
            assert(name.subrange(i, i + 12)[0] == '.');
        }
    }
    assert(name != seq!['.', '.']);
    single_segment_stays_inside(name);
}

/// The exclusion of sensitive files from archives: whatever the source
/// directory holds, no entry of its archive bears a name with one of the
/// two markers.
pub proof fn archive_holds_no_sensitive_entry(
    metadata_json: Option<Seq<char>>,
    walked: Seq<WalkedView>,
)
    requires
        archive_plan(metadata_json, walked) is Ok,
    ensures
        forall|j: int|
            0 <= j < archive_plan(metadata_json, walked)->Ok_0.len() ==> !is_sensitive(
                (#[trigger] archive_plan(metadata_json, walked)->Ok_0[j]).name,
            ),
{
    packed_entries_come_from_walk(walked);
    metadata_name_is_plain();
    let head = seq![metadata_entry(metadata_json->Some_0)];
    let tail = packed_entries(walked)->Ok_0;
    let plan = archive_plan(metadata_json, walked)->Ok_0;
    assert forall|j: int| 0 <= j < plan.len() implies !is_sensitive((#[trigger] plan[j]).name) by {
        if j < head.len() {
            assert(plan[j] == head[j]);
        } else {
            assert(plan[j] == tail[j - head.len()]);
        }
    }
}

/// The exclusion of sensitive files from restores, and the confinement of
/// a restore to its destination: whatever a container holds, every write
/// of its restore goes to a path that bears none of the two markers and
/// stays inside the destination.
pub proof fn restore_writes_are_confined(entries: Seq<StoredEntry>)
    requires
        extraction_plan(entries) is Ok,
    ensures
        forall|j: int|
            0 <= j < extraction_plan(entries)->Ok_0.len() ==> {
                let step = #[trigger] extraction_plan(entries)->Ok_0[j];
                !is_sensitive(step.target()) && stays_inside(step.target())
            },
    decreases entries.len(),
{
    if entries.len() > 0 {
        let front = entries.drop_last();
        restore_writes_are_confined(front);
        let before = extraction_plan(front)->Ok_0;
        let steps = extraction_plan(entries)->Ok_0;
        assert forall|j: int| 0 <= j < steps.len() implies {
            let step = #[trigger] steps[j];
            !is_sensitive(step.target()) && stays_inside(step.target())
        } by {
            if j < before.len() {
                assert(steps[j] == before[j]);
            }
        }
    }
}

/// An entry whose name leads out of the destination is never written,
/// whatever else the container holds: where the container library finds no
/// enclosed path for it, and where the path it finds does not stay inside.
pub proof fn escaping_entry_is_skipped(name: Seq<char>, enclosed: Option<Seq<char>>)
    requires
        match enclosed {
            None => true,
            Some(path) => !stays_inside(path),
        },
    ensures
        unpack_decision(name, enclosed) == DecisionView::Skip,
{
}

/// An entry of an archive whose stored name is plain enough to be read
/// back as what it was.
pub open spec fn restorable(e: EntryView) -> bool {
    &&& stays_inside(stored_view(e).name)
    &&& !is_sensitive(stored_view(e).name)
    &&& e.is_directory == ends_with(stored_view(e).name, seq!['/'])
}

/// Entries read back as they were written are restored one for one.
pub proof fn restorable_entries_are_restored(entries: Seq<EntryView>)
    requires
        forall|i: int| 0 <= i < entries.len() ==> restorable(#[trigger] entries[i]),
    ensures
        extraction_plan(read_back_all(entries)) == Ok::<
            Seq<ExtractionView>,
            Fault,
        >(entries.map_values(|e: EntryView| restored(e))),
    decreases entries.len(),
{
    let stored = read_back_all(entries);
    let expected = entries.map_values(|e: EntryView| restored(e));
    if entries.len() == 0 {
        assert(expected =~= Seq::<ExtractionView>::empty());
    } else {
        let front = entries.drop_last();
        assert forall|i: int| 0 <= i < front.len() implies restorable(#[trigger] front[i]) by {
            assert(front[i] == entries[i]);
        }
        restorable_entries_are_restored(front);
        assert(stored.drop_last() =~= read_back_all(front));
        assert(stored.last() == read_back(entries.last()));
        assert(restorable(entries[entries.len() - 1]));
        assert(front.map_values(|e: EntryView| restored(e)).push(restored(entries.last()))
            =~= expected);
    }
}

/// A plain path is stored as a name that can be read back.
pub proof fn plain_path_is_restorable(e: EntryView)
    requires
        plain_path(e.name),
    ensures
        restorable(e),
{
    let name = e.name;
    let last = name.subrange(name.len() - 1, name.len() as int);
    assert(last[0] == name.last());
    if e.is_directory {
        trailing_slash_stays_inside(name);
        trailing_slash_not_sensitive(name);
        let stored = name.push('/');
        assert(stored.subrange(stored.len() - 1, stored.len() as int) =~= seq!['/']);
    }
}

/// The round trip of a directory through its archive: where every path of
/// the walk is plain and every file could be read, the archive, read back
/// as it was written, is restored to one write for each of its entries:
/// the metadata, then each file with its content and each directory, in
/// the order of the walk.
pub proof fn packed_directory_is_restored(
    metadata_json: Option<Seq<char>>,
    walked: Seq<WalkedView>,
)
    requires
        archive_plan(metadata_json, walked) is Ok,
        forall|i: int|
            0 <= i < walked.len() ==> match (#[trigger] walked[i]).path {
                Some(path) => path.len() == 0 || plain_path(path),
                None => true,
            },
        forall|i: int|
            0 <= i < walked.len() ==> !((#[trigger] walked[i]).path == Some(Seq::<char>::empty())
                && walked[i].is_file),
    ensures
        extraction_plan(
            read_back_all(archive_plan(metadata_json, walked)->Ok_0),
        ) == Ok::<Seq<ExtractionView>, Fault>(
            archive_plan(metadata_json, walked)->Ok_0.map_values(|e: EntryView| restored(e)),
        ),
{
    packed_entries_come_from_walk(walked);
    metadata_name_is_plain();
    let head = seq![metadata_entry(metadata_json->Some_0)];
    let tail = packed_entries(walked)->Ok_0;
    let plan = archive_plan(metadata_json, walked)->Ok_0;
    assert forall|j: int| 0 <= j < plan.len() implies restorable(#[trigger] plan[j]) by {
        if j < head.len() {
            assert(plan[j] == head[j]);
            plain_path_is_restorable(plan[j]);
        } else {
            let e = tail[j - head.len()];
            assert(plan[j] == e);
            let i = choose|i: int|
                0 <= i < walked.len() && (#[trigger] walked[i]).path == Some(e.name)
                    && walked[i].is_file == !e.is_directory;
            if e.name.len() == 0 {
                assert(e.name =~= Seq::<char>::empty());
                assert(walked[i].is_file);
            }
            assert(plain_path(e.name));
            plain_path_is_restorable(e);
        }
    }
    restorable_entries_are_restored(plan);
}

/// The round trip of a directory through the bytes of its archive: where
/// every path of the walk is plain, the bytes that packing hands out are
/// unpacked to one write for each entry of the archive: the metadata, then
/// each file with its content and each directory, in the order of the
/// walk. That the bytes read back as they were written is what packing
/// ensures of them.
pub proof fn packed_bytes_are_restored(
    metadata_json: Option<Seq<char>>,
    walked: Seq<WalkedView>,
    bytes: Seq<u8>,
)
    requires
        archive_plan(metadata_json, walked) is Ok,
        container_entries(bytes) == Ok::<Seq<StoredEntry>, Seq<char>>(
            read_back_all(archive_plan(metadata_json, walked)->Ok_0),
        ),
        forall|i: int|
            0 <= i < walked.len() ==> match (#[trigger] walked[i]).path {
                Some(path) => path.len() == 0 || plain_path(path),
                None => true,
            },
        forall|i: int|
            0 <= i < walked.len() ==> !((#[trigger] walked[i]).path == Some(Seq::<char>::empty())
                && walked[i].is_file),
    ensures
        restore_plan(bytes) == Ok::<Seq<ExtractionView>, Fault>(
            archive_plan(metadata_json, walked)->Ok_0.map_values(|e: EntryView| restored(e)),
        ),
{
    packed_directory_is_restored(metadata_json, walked);
}

/// An archive holds exactly one metadata entry, and holds it first:
/// whatever the source directory holds, a stale metadata file among it, the
/// first entry of its archive is the metadata written afresh, and no other
/// entry bears that name, in the archive or as it is stored.
pub proof fn archive_has_one_metadata_entry(json: Seq<char>, walked: Seq<WalkedView>)
    requires
        archive_plan(Some(json), walked) is Ok,
    ensures
        ({
            let plan = archive_plan(Some(json), walked)->Ok_0;
            &&& plan.len() >= 1
            &&& plan[0] == metadata_entry(json)
            &&& stored_view(plan[0]).name == metadata_name()
            &&& forall|j: int|
                1 <= j < plan.len() ==> (#[trigger] plan[j]).name != metadata_name()
                    && stored_view(plan[j]).name != metadata_name()
        }),
{
    packed_entries_come_from_walk(walked);
    metadata_name_is_plain();
    let tail = packed_entries(walked)->Ok_0;
    let plan = archive_plan(Some(json), walked)->Ok_0;
    assert(plan[0] == metadata_entry(json));
    assert forall|j: int| 1 <= j < plan.len() implies (#[trigger] plan[j]).name != metadata_name()
        && stored_view(plan[j]).name != metadata_name() by {
        let e = tail[j - 1];
        assert(plan[j] == e);
        if e.is_directory {
            assert(directory_name(e.name).last() != 'n');
        }
    }
}

proof fn last_named_at(entries: Seq<StoredEntry>, name: Seq<char>, i: int)
    requires
        0 <= i < entries.len(),
        entries[i].name == name,
        forall|j: int| i < j < entries.len() ==> (#[trigger] entries[j]).name != name,
    ensures
        last_named(entries, name) == Some(i),
    decreases entries.len(),
{
    if i < entries.len() - 1 {
        assert(entries[entries.len() - 1].name != name);
        let front = entries.drop_last();
        assert(front[i] == entries[i]);
        assert forall|j: int| i < j < front.len() implies (#[trigger] front[j]).name != name by {
            assert(front[j] == entries[j]);
        }
        last_named_at(front, name, i);
    }
}

/// A packed archive previews the metadata it was packed with: where the
/// bytes read back as the archive of a source directory was written, the
/// text of their metadata entry is the text that was packed.
pub proof fn packed_archive_previews_its_metadata(
    json: Seq<char>,
    walked: Seq<WalkedView>,
    bytes: Seq<u8>,
)
    requires
        archive_plan(Some(json), walked) is Ok,
        container_entries(bytes) == Ok::<Seq<StoredEntry>, Seq<char>>(
            read_back_all(archive_plan(Some(json), walked)->Ok_0),
        ),
    ensures
        metadata_text(bytes) == Some(json),
{
    archive_has_one_metadata_entry(json, walked);
    let plan = archive_plan(Some(json), walked)->Ok_0;
    let stored = read_back_all(plan);
    assert(stored[0] == read_back(plan[0]));
    assert forall|j: int| 0 < j < stored.len() implies (#[trigger] stored[j]).name
        != metadata_name() by {
        assert(stored[j] == read_back(plan[j]));
    }
    last_named_at(stored, metadata_name(), 0);
    encode_utf8_valid_utf8(json);
    encode_utf8_decode_utf8(json);
    assert(stored[0].content == Ok::<Seq<u8>, Seq<char>>(encode_utf8(json)));
    assert(named_text(stored, metadata_name()) == Some(json));
}

} // verus!
