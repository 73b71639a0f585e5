//! Ingestion of a multipart upload: of the parts of a request, taken in the
//! order of their arrival, the payload of the last part named `file` is
//! kept and every other payload is dropped.

use vstd::prelude::*;

verus! {

/// Largest request body that is accepted, in bytes: 512 MiB.
pub const MAX_BODY_BYTES: u64 = 512 * 1024 * 1024;

/// One part of a multipart request.
#[derive(Debug, Clone, PartialEq, Eq)]
pub struct UploadField {
    /// Name of the form field.
    pub name: String,
    /// The bytes of the part.
    pub payload: Vec<u8>,
}

/// Mathematical value of an [`UploadField`].
pub struct FieldView {
    pub name: Seq<char>,
    pub payload: Seq<u8>,
}

impl View for UploadField {
    type V = FieldView;

    open spec fn view(&self) -> FieldView {
        FieldView { name: self.name@, payload: self.payload@ }
    }
}

impl DeepView for UploadField {
    type V = FieldView;

    open spec fn deep_view(&self) -> FieldView {
        self@
    }
}

/// Whether a part with this name holds the uploaded file.
pub open spec fn is_file_field(name: Seq<char>) -> bool {
    name == "file"@
}

/// What is kept after one more part has been read: the payload of the
/// part, if it is named `file`, and what was kept before, if it is not.
pub open spec fn kept_after(kept: Option<Seq<u8>>, name: Seq<char>, payload: Seq<u8>) -> Option<
    Seq<u8>,
> {
    if is_file_field(name) {
        Some(payload)
    } else {
        kept
    }
}

/// What is kept of the parts `parts`, read in order.
pub open spec fn kept_of(parts: Seq<FieldView>) -> Option<Seq<u8>>
    decreases parts.len(),
{
    if parts.len() == 0 {
        None
    } else {
        kept_after(kept_of(parts.drop_last()), parts.last().name, parts.last().payload)
    }
}

/// The request was rejected before any of its parts was read.
#[derive(Debug, Clone, Copy, PartialEq, Eq, Structural)]
pub enum UploadError {
    /// The body of the request is larger than [`MAX_BODY_BYTES`].
    SizeExceeded,
}

/// What ingesting a request yields: a rejection where the body is too
/// large, whatever its parts are, and else what is kept of its parts.
pub open spec fn upload_of(body_len: u64, parts: Seq<FieldView>) -> Result<
    Option<Seq<u8>>,
    UploadError,
> {
    if body_len > MAX_BODY_BYTES {
        Err(UploadError::SizeExceeded)
    } else {
        Ok(kept_of(parts))
    }
}

/// What is kept is the payload of the last part named `file`; nothing is
/// kept where no part has that name.
pub proof fn lemma_kept_is_last_file(parts: Seq<FieldView>)
    ensures
        match kept_of(parts) {
            Some(payload) => exists|i: int|
                0 <= i < parts.len() && is_file_field(#[trigger] parts[i].name) && parts[i].payload
                    == payload && forall|j: int|
                    i < j < parts.len() ==> !is_file_field(#[trigger] parts[j].name),
            None => forall|j: int| 0 <= j < parts.len() ==> !is_file_field(#[trigger] parts[j].name),
        },
    decreases parts.len(),
{
    if parts.len() > 0 {
        let init = parts.drop_last();
        lemma_kept_is_last_file(init);
        assert forall|j: int| 0 <= j < init.len() implies init[j] == parts[j] by {}
        if is_file_field(parts.last().name) {
            let i = parts.len() - 1;
            assert(is_file_field(parts[i].name) && parts[i].payload == parts.last().payload);
        } else if kept_of(init) is Some {
            let payload = kept_of(init)->Some_0;
            let i = choose|i: int|
                0 <= i < init.len() && is_file_field(#[trigger] init[i].name) && init[i].payload
                    == payload && forall|j: int|
                    i < j < init.len() ==> !is_file_field(#[trigger] init[j].name);
            assert(is_file_field(parts[i].name) && parts[i].payload == payload);
            assert forall|j: int| i < j < parts.len() implies !is_file_field(
                #[trigger] parts[j].name,
            ) by {
                if j < init.len() {
                    assert(!is_file_field(init[j].name));
                }
            }
        }
    }
}

/// A later part named `file` replaces whatever was kept before it.
pub proof fn lemma_last_file_wins(parts: Seq<FieldView>, payload: Seq<u8>)
    ensures
        kept_of(parts.push(FieldView { name: "file"@, payload })) == Some(payload),
{
    let part = FieldView { name: "file"@, payload };
    assert(parts.push(part).last() == part);
}

/// A part that is not named `file` changes nothing of what is kept,
/// wherever among the parts it stands.
pub proof fn lemma_other_fields_are_dropped(
    before: Seq<FieldView>,
    part: FieldView,
    after: Seq<FieldView>,
)
    requires
        !is_file_field(part.name),
    ensures
        kept_of(before.push(part) + after) == kept_of(before + after),
    decreases after.len(),
{
    if after.len() == 0 {
        assert(before.push(part) + after =~= before.push(part));
        assert(before + after =~= before);
        assert(before.push(part).drop_last() =~= before);
    } else {
        let with = before.push(part) + after;
        let without = before + after;
        assert(with.drop_last() =~= before.push(part) + after.drop_last());
        assert(without.drop_last() =~= before + after.drop_last());
        assert(with.last() == after.last());
        assert(without.last() == after.last());
        lemma_other_fields_are_dropped(before, part, after.drop_last());
    }
}

/// A request with a body over the limit is rejected, whatever parts it
/// has: none of them is looked at.
pub proof fn lemma_oversized_is_rejected(body_len: u64, parts: Seq<FieldView>)
    requires
        body_len > MAX_BODY_BYTES,
    ensures
        upload_of(body_len, parts) == Err::<Option<Seq<u8>>, UploadError>(
            UploadError::SizeExceeded,
        ),
{
}

/// Whether a request with a body of `body_len` bytes is let through to the
/// ingestion of its parts.
pub fn admits(body_len: u64) -> (r: bool)
    ensures
        r == (body_len <= MAX_BODY_BYTES),
{
    body_len <= MAX_BODY_BYTES
}

/// Whether `name` is the name of the part that holds the uploaded file.
pub fn names_file(name: &str) -> (r: bool)
    ensures
        r == is_file_field(name@),
{
    let given = name.to_owned();
    let wanted = "file".to_owned();
    given == wanted
}

/// The state of an ingestion: what has been kept of the parts read so far.
pub struct Ingestor {
    kept: Option<Vec<u8>>,
}

impl View for Ingestor {
    type V = Option<Seq<u8>>;

    closed spec fn view(&self) -> Option<Seq<u8>> {
        match self.kept {
            Some(payload) => Some(payload@),
            None => None,
        }
    }
}

impl Ingestor {
    /// An ingestion that has read no part yet.
    pub fn new() -> (ingestor: Ingestor)
        ensures
            ingestor@ == kept_of(Seq::empty()),
    {
        Ingestor { kept: None }
    }

    /// Takes the next part, read to its end: its payload replaces what was
    /// kept if the part is named `file`, and is dropped if it is not.
    pub fn accept(&mut self, name: &str, payload: Vec<u8>)
        ensures
            final(self)@ == kept_after(old(self)@, name@, payload@),
    {
        if names_file(name) {
            self.kept = Some(payload);
        }
    }

    /// Ends the ingestion and hands out what was kept.
    pub fn finish(self) -> (kept: Option<Vec<u8>>)
        ensures
            match kept {
                Some(payload) => self@ == Some(payload@),
                None => self@ is None,
            },
    {
        self.kept
    }
}

/// Ingests a request with a body of `body_len` bytes and the parts `parts`,
/// in the order of their arrival.
///
/// A body over [`MAX_BODY_BYTES`] is rejected without regard to its parts.
/// Otherwise the payload of the last part named `file` is returned, or
/// nothing where no part has that name.
pub fn upload(body_len: u64, parts: &Vec<UploadField>) -> (r: Result<Option<Vec<u8>>, UploadError>)
    ensures
        match r {
            Ok(Some(payload)) => upload_of(body_len, parts.deep_view()) == Ok::<
                Option<Seq<u8>>,
                UploadError,
            >(Some(payload@)),
            Ok(None) => upload_of(body_len, parts.deep_view()) == Ok::<
                Option<Seq<u8>>,
                UploadError,
            >(None),
            Err(e) => upload_of(body_len, parts.deep_view()) == Err::<Option<Seq<u8>>, UploadError>(
                e,
            ),
        },
{
    if !admits(body_len) {
        return Err(UploadError::SizeExceeded);
    }
    let ghost all = parts.deep_view();
    let mut last: Option<usize> = None;
    let mut i: usize = 0;
    while i < parts.len()
        invariant
            i <= parts.len(),
            all == parts.deep_view(),
            match last {
                Some(k) => k < i && kept_of(all.take(i as int)) == Some(all[k as int].payload),
                None => kept_of(all.take(i as int)) is None,
            },
        decreases parts.len() - i,
    {
        proof {
            assert(all.take(i + 1).drop_last() =~= all.take(i as int));
            assert(all.take(i + 1).last() == parts[i as int]@);
        }
        if names_file(parts[i].name.as_str()) {
            last = Some(i);
        }
        i += 1;
    }
    assert(all.take(parts.len() as int) =~= all);
    match last {
        Some(k) => {
            let payload = parts[k].payload.clone();
            assert(payload@ =~= parts[k as int].payload@);
            Ok(Some(payload))
        },
        None => Ok(None),
    }
}

/// Body of the response that acknowledges an upload.
pub fn acknowledgement() -> (body: &'static str)
    ensures
        body@ == "nice"@,
{
    "nice"
}

} // verus!
