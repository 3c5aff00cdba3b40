//! What holds of every load: which documents fail, what an unknown key
//! changes, and what a loaded job is sure to satisfy.

use crate::document::Node;
use crate::loader::{
    clip_entry, clip_field, clip_fold, decoded_clip, job_clip, job_clips, job_entry, job_fold,
    read_clip, DraftView,
    job_key, key_of, law_failure_ends_load, loaded, ClipProgress, ConfigError, Field,
    JobProgress, WarningView,
};
use crate::model::{ClipView, JobView};
use crate::position::{position_of, LabelPosition};
use vstd::prelude::*;

verus! {

/// Whether some entry has the text `name` as its key.
pub open spec fn has_key(entries: Seq<(Node, Node)>, name: Seq<char>) -> bool {
    exists|i: int| 0 <= i < entries.len() && (#[trigger] entries[i]).0.text() == Some(name)
}

/// The items of a clip list leave the job's own fields as they are.
proof fn lemma_clips_keep_directory(before: JobProgress, items: Seq<Node>, count: int)
    ensures
        job_clips(before, items, count).output_directory == before.output_directory,
        job_clips(before, items, count).label_font_color == before.label_font_color,
    decreases count,
{
    if count > 0 {
        lemma_clips_keep_directory(before, items, count - 1);
    }
}

proof fn lemma_no_directory_without_key(entries: Seq<(Node, Node)>, count: int)
    requires
        count <= entries.len(),
        !has_key(entries, "output_directory"@),
    ensures
        job_fold(entries, count).output_directory is None,
    decreases count,
{
    if count > 0 {
        lemma_no_directory_without_key(entries, count - 1);
        let before = job_fold(entries, count - 1);
        let value = entries[count - 1].1;
        if value.items() is Some {
            lemma_clips_keep_directory(before, value.items()->0, value.items()->0.len() as int);
        }
    }
}

/// A document that does not name the output directory is no job: the load
/// fails, and where no entry failed it before, it fails for want of the
/// output directory.
pub proof fn law_output_directory_required(document: Node)
    requires
        document.entries() matches Some(entries) ==> !has_key(entries, "output_directory"@),
    ensures
        loaded(document).result is Err,
        document.entries() matches Some(entries) ==> (job_fold(
            entries,
            entries.len() as int,
        ).failure is None ==> loaded(document).result == Err::<JobView, ConfigError>(
            ConfigError::MissingOutputDirectory,
        )),
{
    if document.entries() is Some {
        let entries = document.entries()->0;
        lemma_no_directory_without_key(entries, entries.len() as int);
    }
}

/// Two jobs in progress are alike but for one warning: `longer` has what
/// `shorter` has, and the warning `extra` at place `at` besides.
pub open spec fn differ_by_warning(
    longer: JobProgress,
    shorter: JobProgress,
    at: int,
    extra: WarningView,
) -> bool {
    &&& 0 <= at <= shorter.warnings.len()
    &&& longer.warnings == shorter.warnings.insert(at, extra)
    &&& longer.output_directory == shorter.output_directory
    &&& longer.label_font_color == shorter.label_font_color
    &&& longer.clips == shorter.clips
    &&& longer.failure == shorter.failure
}

proof fn lemma_clip_keeps_difference(
    longer: JobProgress,
    shorter: JobProgress,
    at: int,
    extra: WarningView,
    item: Node,
)
    requires
        differ_by_warning(longer, shorter, at, extra),
    ensures
        differ_by_warning(job_clip(longer, item), job_clip(shorter, item), at, extra),
{
    if shorter.failure is None {
        let report = read_clip(item, shorter.clips.len() as usize);
        assert((shorter.warnings + report.warnings).insert(at, extra) =~= shorter.warnings.insert(
            at,
            extra,
        ) + report.warnings);
    }
}

proof fn lemma_clips_keep_difference(
    longer: JobProgress,
    shorter: JobProgress,
    at: int,
    extra: WarningView,
    items: Seq<Node>,
    count: int,
)
    requires
        differ_by_warning(longer, shorter, at, extra),
    ensures
        differ_by_warning(
            job_clips(longer, items, count),
            job_clips(shorter, items, count),
            at,
            extra,
        ),
    decreases count,
{
    if count > 0 {
        lemma_clips_keep_difference(longer, shorter, at, extra, items, count - 1);
        lemma_clip_keeps_difference(
            job_clips(longer, items, count - 1),
            job_clips(shorter, items, count - 1),
            at,
            extra,
            items[count - 1],
        );
    }
}

proof fn lemma_entry_keeps_difference(
    longer: JobProgress,
    shorter: JobProgress,
    at: int,
    extra: WarningView,
    key: Node,
    value: Node,
)
    requires
        differ_by_warning(longer, shorter, at, extra),
    ensures
        differ_by_warning(
            job_entry(longer, key, value),
            job_entry(shorter, key, value),
            at,
            extra,
        ),
{
    if shorter.failure is None {
        if value.items() is Some {
            let items = value.items()->0;
            lemma_clips_keep_difference(longer, shorter, at, extra, items, items.len() as int);
        }
        assert forall|warning: WarningView|
            shorter.warnings.push(warning).insert(at, extra) == #[trigger] shorter.warnings.insert(
                at,
                extra,
            ).push(warning) by {
            assert(shorter.warnings.push(warning).insert(at, extra) =~= shorter.warnings.insert(
                at,
                extra,
            ).push(warning));
        }
    }
}

/// Up to the place where an entry is put in, the load is what it was.
proof fn lemma_fold_before_insertion(
    entries: Seq<(Node, Node)>,
    at: int,
    entry: (Node, Node),
    count: int,
)
    requires
        0 <= at <= entries.len(),
        count <= at,
    ensures
        job_fold(entries.insert(at, entry), count) == job_fold(entries, count),
    decreases count,
{
    if count > 0 {
        lemma_fold_before_insertion(entries, at, entry, count - 1);
        assert(entries.insert(at, entry)[count - 1] == entries[count - 1]);
    }
}

/// From the place where an entry with an unknown key is put in, the load
/// is what it was but for that entry's warning, or just what it was where
/// the load had failed before that place.
proof fn lemma_fold_after_insertion(
    entries: Seq<(Node, Node)>,
    at: int,
    key: Node,
    value: Node,
    count: int,
)
    requires
        0 <= at <= count <= entries.len(),
        key.text() matches Some(name) ==> !job_key(name),
    ensures
        ({
            let longer = job_fold(entries.insert(at, (key, value)), count + 1);
            let shorter = job_fold(entries, count);
            let extra = WarningView::UnrecognizedKey { key: key.text() };
            if job_fold(entries, at).failure is Some {
                longer == shorter
            } else {
                differ_by_warning(
                    longer,
                    shorter,
                    job_fold(entries, at).warnings.len() as int,
                    extra,
                )
            }
        }),
    decreases count,
{
    let wider = entries.insert(at, (key, value));
    let extra = WarningView::UnrecognizedKey { key: key.text() };
    let place = job_fold(entries, at).warnings.len() as int;
    if count == at {
        lemma_fold_before_insertion(entries, at, (key, value), at);
        assert(wider[at] == (key, value));
        let before = job_fold(entries, at);
        if before.failure is None {
            assert(before.warnings.push(extra) =~= before.warnings.insert(place, extra));
        }
    } else {
        lemma_fold_after_insertion(entries, at, key, value, count - 1);
        assert(wider[count] == entries[count - 1]);
        if job_fold(entries, at).failure is None {
            lemma_entry_keeps_difference(
                job_fold(wider, count),
                job_fold(entries, count - 1),
                place,
                extra,
                entries[count - 1].0,
                entries[count - 1].1,
            );
        }
    }
}

/// An entry whose key the job does not know changes nothing but the
/// warnings: the document with the entry loads to what the document without
/// it loads to, the same job or the same failure. Where that is a job, the
/// warnings are those of the document without the entry and, at one place
/// among them, the warning of the unknown key.
pub proof fn law_unrecognized_key_ignored(
    without: Node,
    with: Node,
    at: int,
    key: Node,
    value: Node,
)
    requires
        without.entries() is Some,
        0 <= at <= without.entries()->0.len(),
        with.entries() == Some(without.entries()->0.insert(at, (key, value))),
        key.text() matches Some(name) ==> !job_key(name),
    ensures
        loaded(with).result == loaded(without).result,
        loaded(without).result is Ok ==> exists|place: int|
            0 <= place <= loaded(without).warnings.len() && loaded(with).warnings == loaded(
                without,
            ).warnings.insert(place, WarningView::UnrecognizedKey { key: key.text() }),
{
    let entries = without.entries()->0;
    let count = entries.len() as int;
    lemma_fold_after_insertion(entries, at, key, value, count);
    assert(entries.insert(at, (key, value)).len() == count + 1);
    if loaded(without).result is Ok {
        let place = job_fold(entries, at).warnings.len() as int;
        if job_fold(entries, at).failure is Some {
            law_failure_ends_load(entries, at, count);
        }
        assert(loaded(with).warnings == loaded(without).warnings.insert(
            place,
            WarningView::UnrecognizedKey { key: key.text() },
        ));
    }
}

/// Each field of a clip is read from its own key, so no two fields share
/// one.
pub proof fn law_field_keys(field: Field)
    ensures
        clip_field(key_of(field)) == Some(field),
{
    reveal_strlit("label");
    reveal_strlit("source");
    reveal_strlit("start");
    reveal_strlit("stop");
    reveal_strlit("remove_audio");
    reveal_strlit("label_position");
    reveal_strlit("label_display");
    reveal_strlit("label_font_color");
    assert("label"@.len() == 5 && "label"@[0] == 'l');
    assert("source"@.len() == 6);
    assert("start"@.len() == 5 && "start"@[0] == 's');
    assert("stop"@.len() == 4);
    assert("remove_audio"@.len() == 12);
    assert("label_position"@.len() == 14);
    assert("label_display"@.len() == 13);
    assert("label_font_color"@.len() == 16);
}

/// The key `label_position` names the label position and no other field.
proof fn lemma_position_key()
    ensures
        clip_field("label_position"@) == Some(Field::LabelPosition),
{
    law_field_keys(Field::LabelPosition);
}

/// The three keys of a job are three different texts.
pub proof fn law_job_keys()
    ensures
        "output_directory"@ != "label_font_color"@,
        "output_directory"@ != "clips"@,
        "label_font_color"@ != "clips"@,
        job_key("output_directory"@) && job_key("label_font_color"@) && job_key("clips"@),
{
    reveal_strlit("clips");
    reveal_strlit("output_directory");
    reveal_strlit("label_font_color");
    assert("clips"@.len() == 5);
    assert("output_directory"@[0] == 'o');
    assert("label_font_color"@[0] == 'l');
}

/// Whether every entry that gives a label position gives a text that is
/// none of the six symbols.
pub open spec fn positions_unrecognized(entries: Seq<(Node, Node)>) -> bool {
    forall|i: int|
        0 <= i < entries.len() && (#[trigger] entries[i]).0.text() == Some("label_position"@)
            ==> entries[i].1.text() is Some && position_of(entries[i].1.text()->0) is None
}

proof fn lemma_position_stays(entries: Seq<(Node, Node)>, count: int, clip: usize)
    requires
        count <= entries.len(),
        positions_unrecognized(entries),
    ensures
        clip_fold(entries, count, clip).draft.label_position == LabelPosition::initial(),
    decreases count,
{
    if count > 0 {
        lemma_position_stays(entries, count - 1, clip);
        let entry = entries[count - 1];
        if entry.0.text() is Some && clip_field(entry.0.text()->0) == Some(Field::LabelPosition) {
            assert(entry.0.text() == Some("label_position"@));
        }
    }
}

proof fn lemma_position_warning_stays(entries: Seq<(Node, Node)>, at: int, count: int, clip: usize)
    requires
        0 <= at < count <= entries.len(),
        entries[at].0.text() == Some("label_position"@),
        positions_unrecognized(entries),
        clip_fold(entries, count, clip).failure is None,
    ensures
        clip_fold(entries, count, clip).warnings.contains(
            WarningView::UnrecognizedPosition { clip, symbol: entries[at].1.text()->0 },
        ),
    decreases count,
{
    let warning = WarningView::UnrecognizedPosition { clip, symbol: entries[at].1.text()->0 };
    let before = clip_fold(entries, count - 1, clip);
    let after = clip_fold(entries, count, clip);
    if count - 1 == at {
        lemma_position_key();
        assert(after.warnings == before.warnings.push(warning));
        assert(after.warnings.last() == warning);
    } else {
        lemma_position_warning_stays(entries, at, count - 1, clip);
        lemma_clip_warnings_grow(before, clip, entries[count - 1].0, entries[count - 1].1);
        let place = choose|place: int|
            0 <= place < before.warnings.len() && before.warnings[place] == warning;
        assert(after.warnings[place] == warning);
    }
}

/// An entry takes no warning back: those given before it stay where they
/// are.
proof fn lemma_clip_warnings_grow(before: ClipProgress, clip: usize, key: Node, value: Node)
    ensures
        before.warnings.len() <= clip_entry(before, clip, key, value).warnings.len(),
        forall|place: int|
            0 <= place < before.warnings.len() ==> #[trigger] clip_entry(
                before,
                clip,
                key,
                value,
            ).warnings[place] == before.warnings[place],
{
}

/// A clip whose label position is given as a text that is none of the six
/// symbols keeps the position that a clip has by default, the bottom
/// middle, and the load warns of the text.
pub proof fn law_unrecognized_position_keeps_default(
    item: Node,
    clip: usize,
    color: Seq<char>,
    at: int,
)
    requires
        item.entries() is Some,
        0 <= at < item.entries()->0.len(),
        item.entries()->0[at].0.text() == Some("label_position"@),
        positions_unrecognized(item.entries()->0),
        decoded_clip(item, clip, color).result is Ok,
    ensures
        decoded_clip(item, clip, color).result->Ok_0.label_position == LabelPosition::BottomMiddle,
        decoded_clip(item, clip, color).warnings.contains(
            WarningView::UnrecognizedPosition { clip, symbol: item.entries()->0[at].1.text()->0 },
        ),
{
    let entries = item.entries()->0;
    lemma_position_stays(entries, entries.len() as int, clip);
    lemma_position_warning_stays(entries, at, entries.len() as int, clip);
}

/// What the texts of a clip in progress are sure of: a label, start or stop
/// that was given is not empty.
spec fn texts_given(progress: ClipProgress) -> bool {
    &&& progress.draft.label matches Some(text) ==> text.len() > 0
    &&& progress.draft.start matches Some(text) ==> text.len() > 0
    &&& progress.draft.stop matches Some(text) ==> text.len() > 0
}

proof fn lemma_texts_given(entries: Seq<(Node, Node)>, count: int, clip: usize)
    ensures
        texts_given(clip_fold(entries, count, clip)),
    decreases count,
{
    if count > 0 {
        lemma_texts_given(entries, count - 1, clip);
    }
}

/// A decoded clip is well formed: its label, start and stop are not empty.
pub proof fn law_decoded_clip_well_formed(item: Node, clip: usize, color: Seq<char>)
    ensures
        decoded_clip(item, clip, color).result matches Ok(made) ==> made.well_formed(),
{
    if item.entries() is Some {
        lemma_texts_given(item.entries()->0, item.entries()->0.len() as int, clip);
    }
}

/// Whether a draft is complete and gives a label, a start and a stop that
/// are not empty, so that its clip is well formed whatever its color.
spec fn draft_sound(draft: DraftView) -> bool {
    &&& draft.complete()
    &&& draft.label->0.len() > 0
    &&& draft.start->0.len() > 0
    &&& draft.stop->0.len() > 0
}

spec fn clips_well_formed(progress: JobProgress) -> bool {
    forall|i: int| 0 <= i < progress.clips.len() ==> draft_sound(#[trigger] progress.clips[i])
}

/// A clip that was read is complete, and its label, start and stop are not
/// empty.
proof fn lemma_read_clip_sound(item: Node, clip: usize)
    ensures
        read_clip(item, clip).result matches Ok(draft) ==> draft_sound(draft),
{
    if item.entries() is Some {
        lemma_texts_given(item.entries()->0, item.entries()->0.len() as int, clip);
    }
}

proof fn lemma_clips_well_formed(before: JobProgress, items: Seq<Node>, count: int)
    requires
        clips_well_formed(before),
    ensures
        clips_well_formed(job_clips(before, items, count)),
    decreases count,
{
    if count > 0 {
        lemma_clips_well_formed(before, items, count - 1);
        let so_far = job_clips(before, items, count - 1);
        lemma_read_clip_sound(items[count - 1], so_far.clips.len() as usize);
    }
}

proof fn lemma_fold_well_formed(entries: Seq<(Node, Node)>, count: int)
    ensures
        clips_well_formed(job_fold(entries, count)),
    decreases count,
{
    if count > 0 {
        lemma_fold_well_formed(entries, count - 1);
        let value = entries[count - 1].1;
        if value.items() is Some {
            lemma_clips_well_formed(
                job_fold(entries, count - 1),
                value.items()->0,
                value.items()->0.len() as int,
            );
        }
    }
}

/// A loaded job is well formed: each of its clips has a label, a start and
/// a stop that are not empty.
pub proof fn law_loaded_job_well_formed(document: Node)
    ensures
        loaded(document).result matches Ok(job) ==> job.well_formed(),
{
    if document.entries() is Some {
        lemma_fold_well_formed(document.entries()->0, document.entries()->0.len() as int);
    }
}

/// Whether no entry has a key that names `field`.
pub open spec fn field_absent(entries: Seq<(Node, Node)>, field: Field) -> bool {
    forall|i: int|
        0 <= i < entries.len() ==> !((#[trigger] entries[i]).0.text() matches Some(name)
            && clip_field(name) == Some(field))
}

proof fn lemma_absent_fields_default(entries: Seq<(Node, Node)>, count: int, clip: usize)
    requires
        count <= entries.len(),
    ensures
        ({
            let draft = clip_fold(entries, count, clip).draft;
            &&& field_absent(entries, Field::RemoveAudio) ==> !draft.remove_audio
            &&& field_absent(entries, Field::LabelDisplay) ==> draft.label_display
            &&& field_absent(entries, Field::LabelPosition) ==> draft.label_position
                == LabelPosition::BottomMiddle
            &&& field_absent(entries, Field::LabelFontColor) ==> draft.label_font_color is None
        }),
    decreases count,
{
    if count > 0 {
        lemma_absent_fields_default(entries, count - 1, clip);
    }
}

/// What a clip does not give, it has by default: the audio is kept, the
/// label is displayed, at the bottom middle, in the job's color.
pub proof fn law_absent_fields_default(item: Node, clip: usize, color: Seq<char>)
    requires
        item.entries() is Some,
        decoded_clip(item, clip, color).result is Ok,
    ensures
        ({
            let entries = item.entries()->0;
            let made = decoded_clip(item, clip, color).result->Ok_0;
            &&& field_absent(entries, Field::RemoveAudio) ==> !made.remove_audio
            &&& field_absent(entries, Field::LabelDisplay) ==> made.label_display
            &&& field_absent(entries, Field::LabelPosition) ==> made.label_position
                == LabelPosition::BottomMiddle
            &&& field_absent(entries, Field::LabelFontColor) ==> made.label_font_color == color
        }),
{
    lemma_absent_fields_default(item.entries()->0, item.entries()->0.len() as int, clip);
}

/// While a load has not failed, each item of a clip list has added one
/// clip.
proof fn lemma_clips_counted(before: JobProgress, items: Seq<Node>, count: int)
    requires
        0 <= count <= items.len(),
        job_clips(before, items, count).failure is None,
    ensures
        before.failure is None,
        job_clips(before, items, count).clips.len() == before.clips.len() + count,
    decreases count,
{
    if count > 0 {
        lemma_clips_counted(before, items, count - 1);
    }
}

/// The later items of a clip list take nothing back: what the earlier ones
/// gave stays where it is, and a load that has not failed had not failed
/// before.
proof fn lemma_clips_grow(before: JobProgress, items: Seq<Node>, from: int, to: int)
    requires
        0 <= from <= to,
    ensures
        job_clips(before, items, from).clips.is_prefix_of(job_clips(before, items, to).clips),
        job_clips(before, items, from).warnings.is_prefix_of(
            job_clips(before, items, to).warnings,
        ),
        job_clips(before, items, to).failure is None ==> job_clips(
            before,
            items,
            from,
        ).failure is None,
    decreases to - from,
{
    if from < to {
        lemma_clips_grow(before, items, from, to - 1);
    }
}

/// An entry of the document takes nothing back.
proof fn lemma_entry_grows(before: JobProgress, key: Node, value: Node)
    ensures
        before.clips.is_prefix_of(job_entry(before, key, value).clips),
        before.warnings.is_prefix_of(job_entry(before, key, value).warnings),
        job_entry(before, key, value).failure is None ==> before.failure is None,
{
    if value.items() is Some {
        let items = value.items()->0;
        lemma_clips_grow(before, items, 0, items.len() as int);
    }
}

/// A document is loaded in the order in which it is written: what its
/// first entries give, clips and warnings, comes first in what the whole
/// document gives, and a load that has not failed in the end had not failed
/// at any entry.
pub proof fn law_load_in_document_order(entries: Seq<(Node, Node)>, from: int, to: int)
    requires
        0 <= from <= to,
    ensures
        job_fold(entries, from).clips.is_prefix_of(job_fold(entries, to).clips),
        job_fold(entries, from).warnings.is_prefix_of(job_fold(entries, to).warnings),
        job_fold(entries, to).failure is None ==> job_fold(entries, from).failure is None,
    decreases to - from,
{
    if from < to {
        lemma_entry_grows(job_fold(entries, to - 1), entries[to - 1].0, entries[to - 1].1);
        law_load_in_document_order(entries, from, to - 1);
    }
}

/// Whether entry number `at` of a document gives a clip list, and item
/// number `number` of that list is there.
pub open spec fn lists_clip(document: Node, at: int, number: int) -> bool {
    &&& document.entries() is Some
    &&& 0 <= at < document.entries()->0.len()
    &&& document.entries()->0[at].0.text() == Some("clips"@)
    &&& document.entries()->0[at].1.items() is Some
    &&& 0 <= number < document.entries()->0[at].1.items()->0.len()
}

/// The item that `lists_clip` speaks of.
pub open spec fn listed_item(document: Node, at: int, number: int) -> Node {
    document.entries()->0[at].1.items()->0[number]
}

/// The number that the clip of that item has in the job: its number in its
/// list, counted on from the clips that the entries before the list gave.
pub open spec fn listed_number(document: Node, at: int, number: int) -> int {
    job_fold(document.entries()->0, at).clips.len() + number
}

/// In a load that has not failed, a listed item was read without failure,
/// its draft stands at its number among the drafts, and its warnings are
/// among the warnings.
proof fn lemma_listed_clip(document: Node, at: int, number: int)
    requires
        lists_clip(document, at, number),
        job_fold(document.entries()->0, document.entries()->0.len() as int).failure is None,
    ensures
        ({
            let entries = document.entries()->0;
            let all = job_fold(entries, entries.len() as int);
            let clip = listed_number(document, at, number);
            let read = read_clip(listed_item(document, at, number), clip as usize);
            &&& read.result is Ok
            &&& 0 <= clip < all.clips.len()
            &&& all.clips[clip] == read.result->Ok_0
            &&& forall|warning: WarningView|
                read.warnings.contains(warning) ==> all.warnings.contains(warning)
        }),
{
    let entries = document.entries()->0;
    let items = entries[at].1.items()->0;
    let item = items[number];
    let count = entries.len() as int;
    let all = job_fold(entries, count);
    let start = job_fold(entries, at);
    let listed = job_clips(start, items, items.len() as int);
    let upto = job_clips(start, items, number);
    let with = job_clips(start, items, number + 1);
    law_job_keys();
    law_load_in_document_order(entries, at + 1, count);
    law_load_in_document_order(entries, at, at + 1);
    assert(job_fold(entries, at + 1) == listed);
    lemma_clips_grow(start, items, number + 1, items.len() as int);
    lemma_clips_grow(start, items, number, number + 1);
    lemma_clips_counted(start, items, number + 1);
    lemma_clips_counted(start, items, number);
    let clip = start.clips.len() + number;
    let read = read_clip(item, clip as usize);
    assert(with.clips[clip] == read.result->Ok_0);
    assert(all.clips[clip] == with.clips[clip]);
    assert forall|warning: WarningView| read.warnings.contains(warning) implies all.warnings.contains(
        warning,
    ) by {
        let found = choose|found: int|
            0 <= found < read.warnings.len() && read.warnings[found] == warning;
        assert(with.warnings[upto.warnings.len() + found] == warning);
        assert(all.warnings[upto.warnings.len() + found] == warning);
    }
}

/// Each clip of a loaded job is its item of the clip list, decoded with the
/// job's label color: the color that the document gives the job, wherever
/// it gives it, before the clip list or after.
pub proof fn law_loaded_clip_is_decoded(document: Node, at: int, number: int)
    requires
        lists_clip(document, at, number),
        loaded(document).result is Ok,
    ensures
        ({
            let job = loaded(document).result->Ok_0;
            let clip = listed_number(document, at, number);
            let decoded = decoded_clip(
                listed_item(document, at, number),
                clip as usize,
                job.default_label_color,
            );
            &&& 0 <= clip < job.clips.len()
            &&& decoded.result == Ok::<ClipView, ConfigError>(job.clips[clip])
            &&& forall|warning: WarningView|
                decoded.warnings.contains(warning) ==> loaded(document).warnings.contains(warning)
        }),
{
    lemma_listed_clip(document, at, number);
}

/// In a loaded job, a clip whose mapping has no `label_font_color` entry
/// has the job's label color, and one whose mapping has such an entry has
/// a color of its own; neither depends on where in the document the job's
/// color stands.
pub proof fn law_clips_take_job_color(document: Node, at: int, number: int)
    requires
        lists_clip(document, at, number),
        loaded(document).result is Ok,
    ensures
        ({
            let job = loaded(document).result->Ok_0;
            let clip = listed_number(document, at, number);
            let item = listed_item(document, at, number);
            &&& item.entries() is Some
            &&& 0 <= clip < job.clips.len()
            &&& field_absent(item.entries()->0, Field::LabelFontColor)
                ==> job.clips[clip].label_font_color == job.default_label_color
            &&& has_key(item.entries()->0, "label_font_color"@) ==> exists|place: int|
                0 <= place < item.entries()->0.len() && #[trigger] item.entries()->0[place].1.text()
                    == Some(job.clips[clip].label_font_color)
        }),
{
    let job = loaded(document).result->Ok_0;
    let clip = listed_number(document, at, number);
    let item = listed_item(document, at, number);
    lemma_listed_clip(document, at, number);
    let entries = item.entries()->0;
    lemma_absent_fields_default(entries, entries.len() as int, clip as usize);
    if has_key(entries, "label_font_color"@) {
        lemma_own_color(entries, entries.len() as int, clip as usize);
    }
}

/// A clip in progress has no color until an entry names one, and then has
/// the text of such an entry.
proof fn lemma_own_color(entries: Seq<(Node, Node)>, count: int, clip: usize)
    requires
        0 <= count <= entries.len(),
        clip_fold(entries, count, clip).failure is None,
    ensures
        clip_fold(entries, count, clip).draft.label_font_color matches Some(color) ==> exists|
            place: int,
        |
            0 <= place < count && #[trigger] entries[place].1.text() == Some(color),
        (exists|place: int|
            0 <= place < count && (#[trigger] entries[place]).0.text() == Some(
                "label_font_color"@,
            )) ==> clip_fold(entries, count, clip).draft.label_font_color is Some,
    decreases count,
{
    if count > 0 {
        law_field_keys(Field::LabelFontColor);
        let before = clip_fold(entries, count - 1, clip);
        let after = clip_fold(entries, count, clip);
        lemma_own_color(entries, count - 1, clip);
        if after.draft.label_font_color is Some {
            let color = after.draft.label_font_color->0;
            if before.draft.label_font_color == Some(color) {
                let place = choose|place: int|
                    0 <= place < count - 1 && #[trigger] entries[place].1.text() == Some(color);
                assert(entries[place].1.text() == Some(color));
            } else {
                assert(entries[count - 1].1.text() == Some(color));
            }
        }
        if exists|place: int|
            0 <= place < count && (#[trigger] entries[place]).0.text() == Some(
                "label_font_color"@,
            ) {
            let place = choose|place: int|
                0 <= place < count && (#[trigger] entries[place]).0.text() == Some(
                    "label_font_color"@,
                );
            if place < count - 1 {
                assert(entries[place].0.text() == Some("label_font_color"@));
            }
        }
    }
}

/// Entries that give no clip list leave the clips of a load as they are.
proof fn lemma_clips_untouched(entries: Seq<(Node, Node)>, from: int, to: int)
    requires
        0 <= from <= to <= entries.len(),
        forall|i: int| from <= i < to ==> (#[trigger] entries[i]).0.text() != Some("clips"@),
    ensures
        job_fold(entries, to).clips == job_fold(entries, from).clips,
    decreases to - from,
{
    if from < to {
        lemma_clips_untouched(entries, from, to - 1);
        assert(entries[to - 1].0.text() != Some("clips"@));
    }
}

/// The clips of a loaded job are the items of the document's clip list, one
/// clip for each item and in the order of the list, each decoded with the
/// job's label color: nothing is dropped, doubled or moved. Entry number
/// `at` of the document is the only one that gives a clip list.
pub proof fn law_clips_as_listed(document: Node, at: int)
    requires
        document.entries() is Some,
        0 <= at < document.entries()->0.len(),
        document.entries()->0[at].0.text() == Some("clips"@),
        document.entries()->0[at].1.items() is Some,
        forall|i: int|
            0 <= i < document.entries()->0.len() && i != at ==> (
            #[trigger] document.entries()->0[i]).0.text() != Some("clips"@),
        loaded(document).result is Ok,
    ensures
        ({
            let job = loaded(document).result->Ok_0;
            let items = document.entries()->0[at].1.items()->0;
            &&& job.clips.len() == items.len()
            &&& forall|number: int|
                0 <= number < items.len() ==> decoded_clip(
                    #[trigger] items[number],
                    number as usize,
                    job.default_label_color,
                ).result == Ok::<ClipView, ConfigError>(job.clips[number])
        }),
{
    let entries = document.entries()->0;
    let items = entries[at].1.items()->0;
    let count = entries.len() as int;
    let job = loaded(document).result->Ok_0;
    law_job_keys();
    lemma_clips_untouched(entries, 0, at);
    lemma_clips_untouched(entries, at + 1, count);
    law_load_in_document_order(entries, at + 1, count);
    lemma_clips_counted(job_fold(entries, at), items, items.len() as int);
    assert(job_fold(entries, 0).clips.len() == 0);
    assert forall|number: int| 0 <= number < items.len() implies decoded_clip(
        #[trigger] items[number],
        number as usize,
        job.default_label_color,
    ).result == Ok::<ClipView, ConfigError>(job.clips[number]) by {
        law_loaded_clip_is_decoded(document, at, number);
    }
}

/// In a loaded job, a clip whose label position is given as a text that is
/// none of the six symbols has its label at the bottom middle, and the
/// load's warnings tell of the text.
pub proof fn law_unrecognized_position_in_job(document: Node, at: int, number: int, place: int)
    requires
        lists_clip(document, at, number),
        listed_item(document, at, number).entries() is Some,
        0 <= place < listed_item(document, at, number).entries()->0.len(),
        listed_item(document, at, number).entries()->0[place].0.text() == Some(
            "label_position"@,
        ),
        positions_unrecognized(listed_item(document, at, number).entries()->0),
        loaded(document).result is Ok,
    ensures
        ({
            let fields = listed_item(document, at, number).entries()->0;
            let clip = listed_number(document, at, number);
            let job = loaded(document).result->Ok_0;
            &&& 0 <= clip < job.clips.len()
            &&& job.clips[clip].label_position == LabelPosition::BottomMiddle
            &&& loaded(document).warnings.contains(
                WarningView::UnrecognizedPosition {
                    clip: clip as usize,
                    symbol: fields[place].1.text()->0,
                },
            )
        }),
{
    let job = loaded(document).result->Ok_0;
    let clip = listed_number(document, at, number);
    law_loaded_clip_is_decoded(document, at, number);
    law_unrecognized_position_keeps_default(
        listed_item(document, at, number),
        clip as usize,
        job.default_label_color,
        place,
    );
}

} // verus!
