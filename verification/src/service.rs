//! The service as a whole, on paper: the handlers driven against a metadata
//! index and a blob store that never fail and answer as they should. What is
//! proved here holds of every run of the handlers in such surroundings.

use vstd::prelude::*;
use crate::config::ConfigView;
use crate::error::AppErrorView;
use crate::handlers::files::{FileStateView, ListState, RECENT_LIMIT, attachment, list_step, recent_responses, blob_key_of, delete_step, download_step, get_file_step, thumbnail_image, thumbnail_key_of, thumbnail_step};
use crate::handlers::protocol::{ActionView, EventView};
use crate::handlers::upload::{CandidateView, UploadFormView, UploadStateView, blob_key, candidate_of, committed_response, record_of, thumbnail_key, upload_step, validation_error, wants_thumbnail};
use crate::models::{FileView, file_response, upload_response};
use crate::storage::{StorageBackendView, StorageErrorView, backend_of, lemma_locator_round_trip};
use crate::utils::{checksum_of, is_image_mime};

verus! {

/// The two stores: the rows of the metadata index, oldest first, and the
/// blobs by their keys.
pub struct Stores {
    pub rows: Seq<FileView>,
    pub blobs: Map<Seq<char>, Seq<u8>>,
}

/// What the surroundings of a request decide: the backend in use, the time
/// stamped on a record that is persisted, and what rendering a thumbnail of
/// given bytes yields.
pub struct Surroundings {
    pub backend: StorageBackendView,
    pub now: i64,
    pub render: spec_fn(Seq<u8>) -> Option<Seq<u8>>,
}

/// The oldest row with the checksum `sum`, if there is one.
pub open spec fn first_with_checksum(rows: Seq<FileView>, sum: Seq<char>) -> Option<FileView>
    decreases rows.len(),
{
    if rows.len() == 0 {
        None
    } else if rows.first().checksum == Some(sum) {
        Some(rows.first())
    } else {
        first_with_checksum(rows.drop_first(), sum)
    }
}

/// The oldest row with the identifier `id`, if there is one.
pub open spec fn first_with_id(rows: Seq<FileView>, id: u128) -> Option<FileView>
    decreases rows.len(),
{
    if rows.len() == 0 {
        None
    } else if rows.first().id == id {
        Some(rows.first())
    } else {
        first_with_id(rows.drop_first(), id)
    }
}

/// The rows without those that have the identifier `id`.
pub open spec fn without_id(rows: Seq<FileView>, id: u128) -> Seq<FileView> {
    rows.filter(|row: FileView| row.id != id)
}

/// The newest `limit` rows, newest first.
pub open spec fn most_recent(rows: Seq<FileView>, limit: nat) -> Seq<FileView> {
    if rows.len() <= limit {
        rows.reverse()
    } else {
        rows.reverse().take(limit as int)
    }
}

/// The record as the index persists it: with both timestamps set.
pub open spec fn stamped(file: FileView, now: i64) -> FileView {
    FileView { uploaded_at: Some(now), updated_at: Some(now), ..file }
}

/// How the surroundings perform an action on the stores, and what they
/// report. The index finds the oldest match; the blob store writes, reads
/// and removes by key and gives each blob the backend's locator. An action
/// that asks nothing of the stores leaves them alone.
pub open spec fn perform(env: Surroundings, stores: Stores, action: ActionView) -> (Stores, EventView) {
    match action {
        ActionView::FindByChecksum(sum) => (
            stores,
            EventView::Found(first_with_checksum(stores.rows, sum)),
        ),
        ActionView::FindById(id) => (stores, EventView::Found(first_with_id(stores.rows, id))),
        ActionView::ListRecent(limit) => (
            stores,
            EventView::Listed(most_recent(stores.rows, limit as nat)),
        ),
        ActionView::Insert(file) => (
            Stores { rows: stores.rows.push(stamped(file, env.now)), ..stores },
            EventView::Inserted(stamped(file, env.now)),
        ),
        ActionView::DeleteById(id) => (
            Stores { rows: without_id(stores.rows, id), ..stores },
            EventView::RowDeleted,
        ),
        ActionView::Upload { key, data } => (
            Stores { blobs: stores.blobs.insert(key, data), ..stores },
            EventView::Stored(Ok(env.backend.locator(key))),
        ),
        ActionView::Download { key } => (
            stores,
            EventView::Loaded(
                if stores.blobs.dom().contains(key) {
                    Ok(stores.blobs[key])
                } else {
                    Err(StorageErrorView::NotFound(key))
                },
            ),
        ),
        ActionView::Delete { key } => (
            Stores { blobs: stores.blobs.remove(key), ..stores },
            EventView::Deleted(Ok(())),
        ),
        ActionView::RenderThumbnail { data, base_name } => (
            stores,
            EventView::Rendered((env.render)(data)),
        ),
        _ => (stores, EventView::Begin),
    }
}

/// A handler: its step from a state on an event.
pub type Step<S> = spec_fn(S, EventView) -> (S, ActionView);

/// Drives the handler `step` from `state` on `event` until it answers the
/// client, for at most `fuel` further actions: the stores as the request
/// leaves them, and the answer (or the action at which the fuel ran out).
pub open spec fn serve<S>(
    step: Step<S>,
    env: Surroundings,
    stores: Stores,
    state: S,
    event: EventView,
    fuel: nat,
) -> (Stores, ActionView)
    decreases fuel,
{
    let (next, action) = step(state, event);
    if action.is_final() || fuel == 0 {
        (stores, action)
    } else {
        let (changed, answer) = perform(env, stores, action);
        serve(step, env, changed, next, answer, (fuel - 1) as nat)
    }
}

/// More actions than any request takes.
pub open spec fn enough() -> nat {
    8
}

/// An upload of the form `form`, given the identifier `id`, from the end of
/// the form to the answer.
pub open spec fn upload(config: ConfigView, env: Surroundings, stores: Stores, form: UploadFormView, id: u128) -> (
    Stores,
    ActionView,
) {
    serve(
        |state: UploadStateView, event: EventView| upload_step(config, state, event, id),
        env,
        stores,
        UploadStateView::AwaitField(form),
        EventView::EndOfFields,
        enough(),
    )
}

/// A download of the file `id`, from the request to the answer.
pub open spec fn download(env: Surroundings, stores: Stores, id: u128) -> (Stores, ActionView) {
    serve(
        |state: FileStateView, event: EventView| download_step(state, event),
        env,
        stores,
        FileStateView::Requested(id),
        EventView::Begin,
        enough(),
    )
}

/// A request for the thumbnail of the file `id`.
pub open spec fn thumbnail(env: Surroundings, stores: Stores, id: u128) -> (Stores, ActionView) {
    serve(
        |state: FileStateView, event: EventView| thumbnail_step(state, event),
        env,
        stores,
        FileStateView::Requested(id),
        EventView::Begin,
        enough(),
    )
}

/// A request for the metadata of the file `id`.
pub open spec fn metadata(env: Surroundings, stores: Stores, id: u128) -> (Stores, ActionView) {
    serve(
        |state: FileStateView, event: EventView| get_file_step(state, event),
        env,
        stores,
        FileStateView::Requested(id),
        EventView::Begin,
        enough(),
    )
}

/// A deletion of the file `id`.
pub open spec fn delete(env: Surroundings, stores: Stores, id: u128) -> (Stores, ActionView) {
    serve(
        |state: FileStateView, event: EventView| delete_step(state, event),
        env,
        stores,
        FileStateView::Requested(id),
        EventView::Begin,
        enough(),
    )
}

/// No row of `rows` has the identifier `id`.
pub open spec fn unknown(rows: Seq<FileView>, id: u128) -> bool {
    forall|i: int| 0 <= i < rows.len() ==> (#[trigger] rows[i]).id != id
}

/// A lookup by identifier finds a row with that identifier, and finds none
/// only where none has it.
pub proof fn lemma_first_with_id(rows: Seq<FileView>, id: u128)
    ensures
        match first_with_id(rows, id) {
            Some(row) => row.id == id && rows.contains(row),
            None => unknown(rows, id),
        },
    decreases rows.len(),
{
    if rows.len() > 0 {
        if rows.first().id == id {
            assert(rows[0] == rows.first());
        } else {
            let rest = rows.drop_first();
            lemma_first_with_id(rest, id);
            match first_with_id(rest, id) {
                Some(row) => {
                    let i: int = choose|i: int| 0 <= i < rest.len() && rest[i] == row;
                    assert(rows[i + 1] == row);
                },
                None => {
                    assert forall|i: int| 0 <= i < rows.len() implies (#[trigger] rows[i]).id
                        != id by {
                        if i > 0 {
                            assert(rest[i - 1] == rows[i]);
                        }
                    }
                },
            }
        }
    }
}

/// After the rows with an identifier are removed, none has it.
pub proof fn lemma_without_id(rows: Seq<FileView>, id: u128)
    ensures
        unknown(without_id(rows, id), id),
        first_with_id(without_id(rows, id), id).is_none(),
{
    let keep = |row: FileView| row.id != id;
    let left = rows.filter(keep);
    assert forall|i: int| 0 <= i < left.len() implies (#[trigger] left[i]).id != id by {
        rows.lemma_filter_pred(keep, i);
    }
    lemma_first_with_id(left, id);
}

/// A file that the index does not know is not found: every request about
/// it ends with status 404 and changes nothing.
pub proof fn lemma_unknown_file_is_not_found(env: Surroundings, stores: Stores, id: u128)
    requires
        unknown(stores.rows, id),
    ensures
        metadata(env, stores, id).0 == stores,
        metadata(env, stores, id).1.failure_status() == Some(404u16),
        download(env, stores, id).0 == stores,
        download(env, stores, id).1.failure_status() == Some(404u16),
        thumbnail(env, stores, id).0 == stores,
        thumbnail(env, stores, id).1.failure_status() == Some(404u16),
        delete(env, stores, id).0 == stores,
        delete(env, stores, id).1.failure_status() == Some(404u16),
{
    lemma_first_with_id(stores.rows, id);
    reveal_with_fuel(serve, 3);
}

/// The stores after the file of the row `row` is deleted: no row with its
/// identifier, and neither its blob nor its thumbnail.
pub open spec fn after_delete(stores: Stores, row: FileView) -> Stores {
    Stores {
        rows: without_id(stores.rows, row.id),
        blobs: match thumbnail_key_of(row) {
            Some(key) => stores.blobs.remove(blob_key_of(row)).remove(key),
            None => stores.blobs.remove(blob_key_of(row)),
        },
    }
}

/// The delete cascade: deleting a file that the index knows answers without
/// content and leaves neither the record nor its blob nor its thumbnail;
/// every later request about the file ends with status 404.
pub proof fn lemma_delete_cascade(env: Surroundings, later: Surroundings, stores: Stores, id: u128)
    requires
        first_with_id(stores.rows, id).is_some(),
    ensures
        ({
            let row = first_with_id(stores.rows, id).unwrap();
            let after = after_delete(stores, row);
            &&& delete(env, stores, id) == (after, ActionView::ReplyNoContent)
            &&& unknown(after.rows, id)
            &&& !after.blobs.dom().contains(blob_key_of(row))
            &&& thumbnail_key_of(row) matches Some(key) ==> !after.blobs.dom().contains(key)
            &&& metadata(later, after, id).1.failure_status() == Some(404u16)
            &&& download(later, after, id).1.failure_status() == Some(404u16)
            &&& thumbnail(later, after, id).1.failure_status() == Some(404u16)
            &&& delete(later, after, id).1.failure_status() == Some(404u16)
        }),
{
    let row = first_with_id(stores.rows, id).unwrap();
    lemma_first_with_id(stores.rows, id);
    lemma_without_id(stores.rows, id);
    lemma_unknown_file_is_not_found(later, after_delete(stores, row), id);
    reveal_with_fuel(serve, 6);
}

/// The thumbnail that an upload gets: what rendering its payload yields, if
/// it is an image and rendering succeeds.
pub open spec fn thumbnail_of(env: Surroundings, c: CandidateView) -> Option<Seq<u8>> {
    if wants_thumbnail(c.mime_type) {
        (env.render)(c.data)
    } else {
        None
    }
}

/// The record that the index holds for an upload once it is committed.
pub open spec fn stored_record(config: ConfigView, env: Surroundings, c: CandidateView) -> FileView {
    stamped(
        record_of(
            config,
            c,
            env.backend.locator(blob_key(c.filename)),
            match thumbnail_of(env, c) {
                Some(_) => Some(env.backend.locator(thumbnail_key(c.file_id))),
                None => None,
            },
        ),
        env.now,
    )
}

/// The stores after an upload is committed: one more row, the payload under
/// the blob key, and the thumbnail, if there is one, under the thumbnail key.
pub open spec fn after_upload(config: ConfigView, env: Surroundings, stores: Stores, c: CandidateView) -> Stores {
    Stores {
        rows: stores.rows.push(stored_record(config, env, c)),
        blobs: match thumbnail_of(env, c) {
            Some(jpeg) => stores.blobs.insert(blob_key(c.filename), c.data).insert(
                thumbnail_key(c.file_id),
                jpeg,
            ),
            None => stores.blobs.insert(blob_key(c.filename), c.data),
        },
    }
}

/// What an upload comes to. A form that validation refuses fails the request
/// and leaves the stores as they were. A payload whose checksum the index
/// knows is answered with the oldest record of that checksum, and the stores
/// stay as they were. Any other upload is committed and answered with its own
/// record.
pub proof fn lemma_upload_outcome(
    config: ConfigView,
    env: Surroundings,
    stores: Stores,
    form: UploadFormView,
    id: u128,
)
    ensures
        upload(config, env, stores, form, id) == match validation_error(config, form) {
            Some(e) => (stores, ActionView::Fail(e)),
            None => match first_with_checksum(stores.rows, candidate_of(form, id).checksum) {
                Some(existing) => (stores, ActionView::ReplyUpload(upload_response(existing))),
                None => (
                    after_upload(config, env, stores, candidate_of(form, id)),
                    ActionView::ReplyUpload(
                        committed_response(id, stored_record(config, env, candidate_of(form, id))),
                    ),
                ),
            },
        },
{
    reveal_with_fuel(serve, 8);
}

/// No row of `rows` has the checksum `sum`.
pub open spec fn unseen(rows: Seq<FileView>, sum: Seq<char>) -> bool {
    forall|i: int| 0 <= i < rows.len() ==> (#[trigger] rows[i]).checksum != Some(sum)
}

/// A lookup by checksum finds a row with that checksum, and finds none only
/// where none has it.
pub proof fn lemma_first_with_checksum(rows: Seq<FileView>, sum: Seq<char>)
    ensures
        match first_with_checksum(rows, sum) {
            Some(row) => row.checksum == Some(sum) && rows.contains(row),
            None => unseen(rows, sum),
        },
    decreases rows.len(),
{
    if rows.len() > 0 {
        if rows.first().checksum == Some(sum) {
            assert(rows[0] == rows.first());
        } else {
            let rest = rows.drop_first();
            lemma_first_with_checksum(rest, sum);
            match first_with_checksum(rest, sum) {
                Some(row) => {
                    let i: int = choose|i: int| 0 <= i < rest.len() && rest[i] == row;
                    assert(rows[i + 1] == row);
                },
                None => {
                    assert forall|i: int| 0 <= i < rows.len() implies (#[trigger] rows[i]).checksum
                        != Some(sum) by {
                        if i > 0 {
                            assert(rest[i - 1] == rows[i]);
                        }
                    }
                },
            }
        }
    }
}

/// A row added to rows that lack its checksum, or its identifier, is the one
/// that a lookup by that checksum, or identifier, finds.
pub proof fn lemma_lookup_finds_new_row(rows: Seq<FileView>, row: FileView)
    ensures
        row.checksum.is_some() && unseen(rows, row.checksum.unwrap()) ==> first_with_checksum(
            rows.push(row),
            row.checksum.unwrap(),
        ) == Some(row),
        unknown(rows, row.id) ==> first_with_id(rows.push(row), row.id) == Some(row),
    decreases rows.len(),
{
    let all = rows.push(row);
    if rows.len() > 0 {
        lemma_lookup_finds_new_row(rows.drop_first(), row);
        assert(all.drop_first() =~= rows.drop_first().push(row));
        assert(all.first() == rows[0]);
        assert forall|i: int| 0 <= i < rows.drop_first().len() implies (#[trigger] rows.drop_first()[i])
            == rows[i + 1] by {}
    } else {
        assert(all.drop_first() =~= Seq::<FileView>::empty());
    }
}

/// Deduplication: of two uploads of the same bytes, one after the other, the
/// second is answered with the record that answered the first, under the same
/// identifier, and writes nothing: no blob and no row.
pub proof fn lemma_same_bytes_same_record(
    config: ConfigView,
    env: Surroundings,
    later: Surroundings,
    stores: Stores,
    first: UploadFormView,
    second: UploadFormView,
    id: u128,
    other_id: u128,
)
    requires
        validation_error(config, first).is_none(),
        validation_error(config, second).is_none(),
        first.file_data == second.file_data,
    ensures
        ({
            let (between, answer) = upload(config, env, stores, first, id);
            let (after, again) = upload(config, later, between, second, other_id);
            &&& after == between
            &&& answer is ReplyUpload
            &&& again is ReplyUpload
            &&& again->ReplyUpload_0.id == answer->ReplyUpload_0.id
            &&& again->ReplyUpload_0.filename == answer->ReplyUpload_0.filename
        }),
{
    let c = candidate_of(first, id);
    let sum = c.checksum;
    assert(candidate_of(second, other_id).checksum == sum);
    lemma_upload_outcome(config, env, stores, first, id);
    let between = upload(config, env, stores, first, id).0;
    lemma_upload_outcome(config, later, between, second, other_id);
    if first_with_checksum(stores.rows, sum).is_none() {
        lemma_first_with_checksum(stores.rows, sum);
        lemma_lookup_finds_new_row(stores.rows, stored_record(config, env, c));
    }
}

/// The round trip: after an upload of new bytes under a fresh identifier, to
/// the backend that the configuration selects, the index holds a record with
/// the original name as it was given, the size and the checksum of the
/// payload, the backend's tag, and a thumbnail only if the media type names
/// an image. A download of the file answers with exactly the bytes that were
/// uploaded, packed for that record; its metadata describe that record; and
/// a request for its thumbnail answers with what rendering yielded, or with
/// 404 where the upload has no thumbnail.
pub proof fn lemma_round_trip(
    config: ConfigView,
    env: Surroundings,
    later: Surroundings,
    stores: Stores,
    form: UploadFormView,
    id: u128,
)
    requires
        config.valid(),
        validation_error(config, form).is_none(),
        unseen(stores.rows, candidate_of(form, id).checksum),
        unknown(stores.rows, id),
        env.backend == backend_of(config),
    ensures
        ({
            let c = candidate_of(form, id);
            let record = stored_record(config, env, c);
            let after = after_upload(config, env, stores, c);
            &&& upload(config, env, stores, form, id).0 == after
            &&& record.original_filename == form.original_filename.unwrap()
            &&& record.file_size == form.file_data.unwrap().len()
            &&& record.file_size <= config.max_file_size
            &&& record.checksum == Some(checksum_of(form.file_data.unwrap()))
            &&& record.storage_type == env.backend.storage_type()
            &&& record.thumbnail_path.is_some() ==> is_image_mime(record.mime_type)
            &&& download(later, after, id) == (
                after,
                ActionView::ReplyBlob(attachment(record, form.file_data.unwrap())),
            )
            &&& metadata(later, after, id) == (after, ActionView::ReplyFile(file_response(record)))
            &&& thumbnail(later, after, id) == (
                after,
                match thumbnail_of(env, c) {
                    Some(jpeg) => ActionView::ReplyBlob(thumbnail_image(jpeg)),
                    None => ActionView::Fail(AppErrorView::NotFound("Thumbnail not available"@)),
                },
            )
        }),
{
    let c = candidate_of(form, id);
    let record = stored_record(config, env, c);
    let after = after_upload(config, env, stores, c);
    lemma_upload_outcome(config, env, stores, form, id);
    lemma_first_with_checksum(stores.rows, c.checksum);
    assert(first_with_checksum(stores.rows, c.checksum).is_none()) by {
        if first_with_checksum(stores.rows, c.checksum).is_some() {
            let row = first_with_checksum(stores.rows, c.checksum).unwrap();
            let i: int = choose|i: int| 0 <= i < stores.rows.len() && stores.rows[i] == row;
            assert(stores.rows[i].checksum != Some(c.checksum));
        }
    }
    lemma_lookup_finds_new_row(stores.rows, record);
    lemma_locator_round_trip(config, blob_key(c.filename));
    lemma_locator_round_trip(config, thumbnail_key(c.file_id));
    assert(blob_key(c.filename) != thumbnail_key(c.file_id)) by {
        reveal_strlit("files/");
        reveal_strlit("thumbnails/");
        assert(blob_key(c.filename)[0] == 'f');
        assert(thumbnail_key(c.file_id)[0] == 't');
    }
    reveal_with_fuel(serve, 4);
}

/// A listing, from the request to the answer.
pub open spec fn listing(env: Surroundings, stores: Stores) -> (Stores, ActionView) {
    serve(
        |state: ListState, event: EventView| list_step(state, event),
        env,
        stores,
        ListState::Requested,
        EventView::Begin,
        enough(),
    )
}

/// A listing changes nothing and describes the newest rows, newest first and
/// at most [`RECENT_LIMIT`] of them; listing again gives the same.
pub proof fn lemma_listing(env: Surroundings, later: Surroundings, stores: Stores)
    ensures
        listing(env, stores) == (
            stores,
            ActionView::ReplyFiles(recent_responses(most_recent(stores.rows, RECENT_LIMIT as nat))),
        ),
        listing(later, listing(env, stores).0) == listing(env, stores),
        recent_responses(most_recent(stores.rows, RECENT_LIMIT as nat)).len() <= RECENT_LIMIT,
        forall|i: int|
            0 <= i < recent_responses(most_recent(stores.rows, RECENT_LIMIT as nat)).len()
                ==> #[trigger] recent_responses(most_recent(stores.rows, RECENT_LIMIT as nat))[i]
                == file_response(stores.rows[stores.rows.len() - 1 - i]),
{
    reveal_with_fuel(serve, 3);
}

/// The index holds at most one record for each checksum.
pub open spec fn one_record_per_checksum(rows: Seq<FileView>) -> bool {
    forall|i: int, j: int|
        #![trigger rows[i], rows[j]]
        0 <= i < j < rows.len() && rows[i].checksum.is_some() ==> rows[i].checksum
            != rows[j].checksum
}

/// Leaving rows out keeps the rest at one record for each checksum.
proof fn lemma_fewer_rows_stay_distinct(rows: Seq<FileView>, keep: spec_fn(FileView) -> bool)
    requires
        one_record_per_checksum(rows),
    ensures
        one_record_per_checksum(rows.filter(keep)),
    decreases rows.len(),
{
    reveal(Seq::filter);
    if rows.len() > 0 {
        let before = rows.drop_last();
        assert forall|i: int, j: int|
            #![trigger before[i], before[j]]
            0 <= i < j < before.len() && before[i].checksum.is_some() implies before[i].checksum
            != before[j].checksum by {
            assert(before[i] == rows[i] && before[j] == rows[j]);
        }
        lemma_fewer_rows_stay_distinct(before, keep);
        let kept = before.filter(keep);
        let all = rows.filter(keep);
        if keep(rows.last()) {
            assert(all == kept.push(rows.last()));
            assert forall|i: int, j: int|
                #![trigger all[i], all[j]]
                0 <= i < j < all.len() && all[i].checksum.is_some() implies all[i].checksum
                != all[j].checksum by {
                if j == kept.len() {
                    assert(kept.contains(kept[i]));
                    before.lemma_filter_contains_rev(keep, kept[i]);
                    let k: int = choose|k: int| 0 <= k < before.len() && before[k] == kept[i];
                    assert(rows[k] == kept[i]);
                    assert(rows[rows.len() - 1] == rows.last());
                } else {
                    assert(all[i] == kept[i] && all[j] == kept[j]);
                }
            }
        }
    }
}

/// One record for each checksum, and it stays so: neither an upload nor a
/// deletion gives a checksum a second record. With that, a lookup by
/// checksum has at most one row to find.
pub proof fn lemma_checksums_stay_distinct(
    config: ConfigView,
    env: Surroundings,
    stores: Stores,
    form: UploadFormView,
    id: u128,
)
    requires
        one_record_per_checksum(stores.rows),
    ensures
        one_record_per_checksum(upload(config, env, stores, form, id).0.rows),
        one_record_per_checksum(delete(env, stores, id).0.rows),
{
    lemma_upload_outcome(config, env, stores, form, id);
    let c = candidate_of(form, id);
    if validation_error(config, form).is_none() && first_with_checksum(stores.rows, c.checksum).is_none() {
        lemma_first_with_checksum(stores.rows, c.checksum);
        let rows = stores.rows.push(stored_record(config, env, c));
        assert forall|i: int, j: int|
            #![trigger rows[i], rows[j]]
            0 <= i < j < rows.len() && rows[i].checksum.is_some() implies rows[i].checksum
            != rows[j].checksum by {
            if j < stores.rows.len() {
                assert(rows[i] == stores.rows[i] && rows[j] == stores.rows[j]);
            } else {
                assert(rows[i] == stores.rows[i]);
            }
        }
    }
    if first_with_id(stores.rows, id).is_some() {
        lemma_first_with_id(stores.rows, id);
        lemma_delete_cascade(env, env, stores, id);
        lemma_fewer_rows_stay_distinct(stores.rows, |row: FileView| row.id != id);
    } else {
        lemma_first_with_id(stores.rows, id);
        lemma_unknown_file_is_not_found(env, stores, id);
    }
}

} // verus!
