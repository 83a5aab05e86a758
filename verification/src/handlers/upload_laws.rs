//! What holds of the ingest pipeline, step by step: the gates of validation,
//! deduplication, the shape of committed records, and when thumbnails come
//! to be.

use vstd::prelude::*;
use crate::config::ConfigView;
use crate::handlers::protocol::{ActionView, EventView};
use crate::handlers::upload::{CandidateView, UploadFormView, UploadStateView, blob_key, candidate_of, empty_form, record_of, thumbnail_key, upload_step, validation_error, wants_thumbnail};
use crate::models::{FileView, file_response, thumbnail_url, upload_response};
use crate::storage::backend_of;
use crate::utils::{checksum_of, extension_of, hyphenated, is_image_mime};

verus! {

/// A candidate as validation under `config` lets one pass: the payload fits
/// the limit, size and fingerprint are the payload's, the original name's
/// extension is allowed, and the stored name begins with the identifier.
pub open spec fn admitted(config: ConfigView, c: CandidateView) -> bool {
    &&& c.data.len() <= config.max_file_size
    &&& c.file_size == c.data.len()
    &&& c.checksum == checksum_of(c.data)
    &&& extension_of(c.original_filename) matches Some(ext) && config.allows(ext) && (c.filename
        == hyphenated(c.file_id) + "."@ + ext || exists|name: Seq<char>|
        c.filename == hyphenated(c.file_id) + "_"@ + name)
}

impl UploadStateView {
    /// The state is one that steps from [`UploadStateView::Start`] can lead
    /// to: a candidate in it was admitted, and one that waits for its
    /// thumbnail is an image.
    pub open spec fn wf(self, config: ConfigView) -> bool {
        match self {
            UploadStateView::AwaitProbe(c) => admitted(config, c),
            UploadStateView::AwaitBlob(c) => admitted(config, c),
            UploadStateView::AwaitRender(c, _) => admitted(config, c) && wants_thumbnail(
                c.mime_type,
            ),
            UploadStateView::AwaitThumbnail(c, _) => admitted(config, c) && wants_thumbnail(
                c.mime_type,
            ),
            _ => true,
        }
    }
}

/// What an upload does when the form `form` ends.
pub open spec fn at_end_of_form(config: ConfigView, form: UploadFormView, id: u128) -> ActionView {
    upload_step(config, UploadStateView::AwaitField(form), EventView::EndOfFields, id).1
}

/// The start is well formed, and every step keeps the state so.
pub proof fn lemma_upload_keeps_wf(config: ConfigView, state: UploadStateView, event: EventView, id: u128)
    requires
        config.valid(),
        state.wf(config),
    ensures
        UploadStateView::Start.wf(config),
        upload_step(config, state, event, id).0.wf(config),
{
    match state {
        UploadStateView::AwaitField(form) => {
            if event is EndOfFields && validation_error(config, form).is_none() {
                let c = candidate_of(form, id);
                match form.custom_filename {
                    Some(name) => {
                        assert(c.filename == hyphenated(c.file_id) + "_"@ + name);
                    },
                    None => {},
                }
            }
        },
        _ => {},
    }
}

/// The size gate: a payload above the limit is refused with status 413; one
/// of at most the limit, the limit itself included, is never refused with
/// that status, and is accepted where its extension is allowed.
pub proof fn lemma_size_gate(config: ConfigView, form: UploadFormView, id: u128)
    requires
        form.file_data.is_some(),
        form.original_filename.is_some(),
    ensures
        form.file_data.unwrap().len() > config.max_file_size ==> at_end_of_form(
            config,
            form,
            id,
        ).failure_status() == Some(413u16),
        form.file_data.unwrap().len() <= config.max_file_size ==> at_end_of_form(
            config,
            form,
            id,
        ).failure_status() != Some(413u16),
        form.file_data.unwrap().len() <= config.max_file_size && validation_error(config, form)
            .is_none() ==> at_end_of_form(config, form, id) is FindByChecksum,
{
}

/// The extension gate: of a form with a file that fits the limit, a name
/// without extension is refused with status 400, and an extension that is not
/// on the allowlist with status 415.
pub proof fn lemma_extension_gate(config: ConfigView, form: UploadFormView, id: u128)
    requires
        form.file_data.is_some(),
        form.original_filename.is_some(),
        form.file_data.unwrap().len() <= config.max_file_size,
    ensures
        match extension_of(form.original_filename.unwrap()) {
            None => at_end_of_form(config, form, id).failure_status() == Some(400u16),
            Some(ext) => if config.allows(ext) {
                at_end_of_form(config, form, id) is FindByChecksum
            } else {
                at_end_of_form(config, form, id).failure_status() == Some(415u16)
            },
        },
{
}

/// Nothing is written for a form that validation refuses: the step that ends
/// the form fails the request at once. And whenever a step from a well-formed
/// state writes a blob, it writes for an admitted candidate: its payload under
/// its blob key, or a rendered thumbnail under its thumbnail key.
pub proof fn lemma_writes_follow_validation(
    config: ConfigView,
    state: UploadStateView,
    event: EventView,
    id: u128,
)
    requires
        state.wf(config),
    ensures
        match state {
            UploadStateView::AwaitField(form) => event is EndOfFields && validation_error(
                config,
                form,
            ).is_some() ==> upload_step(config, state, event, id) == (
                UploadStateView::Done,
                ActionView::Fail(validation_error(config, form).unwrap()),
            ),
            _ => true,
        },
        match upload_step(config, state, event, id).1 {
            ActionView::Upload { key, data } => match state {
                UploadStateView::AwaitProbe(c) => admitted(config, c) && key == blob_key(
                    c.filename,
                ) && data == c.data,
                UploadStateView::AwaitRender(c, _) => admitted(config, c) && key == thumbnail_key(
                    c.file_id,
                ),
                _ => false,
            },
            _ => true,
        },
{
}

/// Deduplication: the lookup key of an upload is a function of its payload
/// alone, and a record found under it answers the request with that record's
/// identity, without a write and without a new record.
pub proof fn lemma_dedup(
    config: ConfigView,
    first: UploadFormView,
    second: UploadFormView,
    id1: u128,
    id2: u128,
    c: CandidateView,
    existing: FileView,
)
    requires
        validation_error(config, first).is_none(),
        validation_error(config, second).is_none(),
        first.file_data == second.file_data,
    ensures
        at_end_of_form(config, first, id1) == at_end_of_form(config, second, id2),
        upload_step(config, UploadStateView::AwaitProbe(c), EventView::Found(Some(existing)), id1) == (
            UploadStateView::Done,
            ActionView::ReplyUpload(upload_response(existing)),
        ),
        upload_response(existing).id == existing.id,
{
}

/// What a committed record says: whenever a step from a well-formed state
/// asks to persist a record, the record carries the tag of the configured
/// backend, a size that is within the limit, a checksum, and a thumbnail only
/// where its media type names an image; and the upload then waits for that
/// very record.
pub proof fn lemma_committed_record(config: ConfigView, state: UploadStateView, event: EventView, id: u128)
    requires
        config.valid(),
        state.wf(config),
    ensures
        match upload_step(config, state, event, id).1 {
            ActionView::Insert(record) => {
                &&& record.storage_type == backend_of(config).storage_type()
                &&& 0 <= record.file_size <= config.max_file_size
                &&& record.checksum.is_some()
                &&& record.thumbnail_path.is_some() ==> is_image_mime(record.mime_type)
                &&& upload_step(config, state, event, id).0 == UploadStateView::AwaitInsert(
                    record.id,
                )
            },
            _ => true,
        },
{
}

/// The state an upload is in after the events `events`, where `ids(k)` is the
/// identifier at hand for the `k`-th of them.
pub open spec fn upload_run(config: ConfigView, events: Seq<EventView>, ids: spec_fn(int) -> u128) -> UploadStateView
    decreases events.len(),
{
    if events.len() == 0 {
        UploadStateView::Start
    } else {
        upload_step(
            config,
            upload_run(config, events.drop_last(), ids),
            events.last(),
            ids(events.len() - 1),
        ).0
    }
}

/// Whatever happens, an upload stays well formed: every state that events
/// lead to from the start is.
pub proof fn lemma_reachable_states_are_wf(
    config: ConfigView,
    events: Seq<EventView>,
    ids: spec_fn(int) -> u128,
)
    requires
        config.valid(),
    ensures
        upload_run(config, events, ids).wf(config),
    decreases events.len(),
{
    if events.len() > 0 {
        lemma_reachable_states_are_wf(config, events.drop_last(), ids);
        lemma_upload_keeps_wf(
            config,
            upload_run(config, events.drop_last(), ids),
            events.last(),
            ids(events.len() - 1),
        );
    }
}

/// The stored name: without a custom name it is the identifier, a dot and the
/// lowercased extension of the original name; with the custom name `C` it is
/// the identifier, an underscore and `C`. The blob's key is `files/` and
/// that name.
pub proof fn lemma_stored_name(form: UploadFormView, id: u128)
    requires
        form.file_data.is_some(),
        form.original_filename.is_some(),
        extension_of(form.original_filename.unwrap()).is_some(),
    ensures
        candidate_of(form, id).filename == match form.custom_filename {
            Some(name) => hyphenated(id) + "_"@ + name,
            None => hyphenated(id) + "."@ + extension_of(form.original_filename.unwrap()).unwrap(),
        },
        candidate_of(form, id).original_filename == form.original_filename.unwrap(),
        hyphenated(id).len() == 36,
{
}

/// Thumbnails go with images, and with nothing else. Once the blob of a
/// candidate is written: an image has its thumbnail rendered, the rendered
/// thumbnail is written under the thumbnail key, and its locator enters the
/// record, so that the record's description offers a thumbnail; any other
/// upload is committed at once without one, and its description offers none.
pub proof fn lemma_thumbnail_presence(
    config: ConfigView,
    c: CandidateView,
    file_path: Seq<char>,
    jpeg: Seq<u8>,
    thumbnail_path: Seq<char>,
    id: u128,
)
    ensures
        wants_thumbnail(c.mime_type) ==> {
            &&& upload_step(config, UploadStateView::AwaitBlob(c), EventView::Stored(Ok(file_path)), id)
                == (
                UploadStateView::AwaitRender(c, file_path),
                ActionView::RenderThumbnail { data: c.data, base_name: hyphenated(c.file_id) },
            )
            &&& upload_step(
                config,
                UploadStateView::AwaitRender(c, file_path),
                EventView::Rendered(Some(jpeg)),
                id,
            ) == (
                UploadStateView::AwaitThumbnail(c, file_path),
                ActionView::Upload { key: thumbnail_key(c.file_id), data: jpeg },
            )
            &&& upload_step(
                config,
                UploadStateView::AwaitThumbnail(c, file_path),
                EventView::Stored(Ok(thumbnail_path)),
                id,
            ).1 == ActionView::Insert(record_of(config, c, file_path, Some(thumbnail_path)))
            &&& file_response(record_of(config, c, file_path, Some(thumbnail_path))).thumbnail_url
                == Some(thumbnail_url(c.file_id))
        },
        !wants_thumbnail(c.mime_type) ==> {
            &&& upload_step(config, UploadStateView::AwaitBlob(c), EventView::Stored(Ok(file_path)), id).1
                == ActionView::Insert(record_of(config, c, file_path, None))
            &&& file_response(record_of(config, c, file_path, None)).thumbnail_url.is_none()
        },
{
}

/// One field of a multipart form, as it is read: what its header says, its
/// bytes, and its bytes as text, or nothing where they are no text.
pub struct FieldView {
    pub name: Option<Seq<char>>,
    pub file_name: Option<Seq<char>>,
    pub content_type: Option<Seq<char>>,
    pub body: Seq<u8>,
    pub text: Option<Seq<char>>,
}

/// What a form comes to once its fields are read in order: the last field
/// named `file` gives the payload, the original name and the media type; the
/// last field named `filename` whose text is not empty gives the custom name;
/// every other field is passed over.
pub open spec fn read_form(fields: Seq<FieldView>) -> UploadFormView
    decreases fields.len(),
{
    if fields.len() == 0 {
        empty_form()
    } else {
        let form = read_form(fields.drop_last());
        let field = fields.last();
        if field.name == Some("file"@) {
            UploadFormView {
                file_data: Some(field.body),
                original_filename: field.file_name,
                mime_type: field.content_type,
                custom_filename: form.custom_filename,
            }
        } else if field.name == Some("filename"@) && field.text.is_some() && field.text.unwrap().len()
            > 0 {
            UploadFormView { custom_filename: field.text, ..form }
        } else {
            form
        }
    }
}

/// The state of an upload after it is shown `field` while it waits for a
/// field: it is shown the header, and then the bytes or the text if it asks
/// for them.
pub open spec fn after_field(config: ConfigView, form: UploadFormView, field: FieldView, id: u128) -> UploadStateView {
    let (state, action) = upload_step(
        config,
        UploadStateView::AwaitField(form),
        EventView::Field {
            name: field.name,
            file_name: field.file_name,
            content_type: field.content_type,
        },
        id,
    );
    match action {
        ActionView::ReadBody => upload_step(config, state, EventView::Body(field.body), id).0,
        ActionView::ReadText => upload_step(
            config,
            state,
            match field.text {
                Some(text) => EventView::Text(text),
                None => EventView::TextFailed,
            },
            id,
        ).0,
        _ => state,
    }
}

/// The state of an upload after the fields `fields` are read, from the start.
pub open spec fn after_fields(config: ConfigView, fields: Seq<FieldView>, id: u128) -> UploadStateView
    decreases fields.len(),
{
    if fields.len() == 0 {
        upload_step(config, UploadStateView::Start, EventView::Begin, id).0
    } else {
        match after_fields(config, fields.drop_last(), id) {
            UploadStateView::AwaitField(form) => after_field(config, form, fields.last(), id),
            other => other,
        }
    }
}

/// Reading a form field by field leaves the upload waiting for the next
/// field, with exactly what [`read_form`] says in hand.
pub proof fn lemma_reading_a_form(config: ConfigView, fields: Seq<FieldView>, id: u128)
    ensures
        after_fields(config, fields, id) == UploadStateView::AwaitField(read_form(fields)),
    decreases fields.len(),
{
    if fields.len() > 0 {
        lemma_reading_a_form(config, fields.drop_last(), id);
        reveal_strlit("file");
        reveal_strlit("filename");
        assert("file"@ != "filename"@) by {
            assert("file"@.len() == 4);
            assert("filename"@.len() == 8);
        }
    }
}

} // verus!
