//! The two file requests of the front-end: reading a file with its content
//! type, and saving a buffer. The disk access itself is done by the caller,
//! which hands the outcome of each step to these functions.
use vstd::prelude::*;
use crate::mime::{
    has_ebook_marker, has_gif_signature, has_png_signature, mime_of, mime_or_default_spec,
    octet_stream, sniffed_mime, usize_holds_frame_lengths,
};

verus! {

/// The message for a read that failed with the given cause.
pub open spec fn read_failure_spec(cause: Seq<char>) -> Seq<char> {
    "Failed to read file: "@ + cause
}

/// The message for a file that could not be created.
pub open spec fn create_failure_spec(cause: Seq<char>) -> Seq<char> {
    "Failed to create file: "@ + cause
}

/// The message for a buffer that could not be written out.
pub open spec fn write_failure_spec(cause: Seq<char>) -> Seq<char> {
    "Failed to write data to file: "@ + cause
}

/// The answer to a read request, given what reading the file gave: the bytes,
/// or the description of the I/O error.
pub open spec fn read_response_spec(read: Result<Seq<u8>, Seq<char>>) -> Result<
    (Seq<u8>, Seq<char>),
    Seq<char>,
> {
    match read {
        Ok(bytes) => Ok((bytes, mime_or_default_spec(sniffed_mime(bytes)))),
        Err(cause) => Err(read_failure_spec(cause)),
    }
}

/// The view of a read response.
pub open spec fn read_response_view(r: Result<(Vec<u8>, String), String>) -> Result<
    (Seq<u8>, Seq<char>),
    Seq<char>,
> {
    match r {
        Ok((bytes, mime)) => Ok((bytes@, mime@)),
        Err(e) => Err(e@),
    }
}

/// The view of what reading a file gave.
pub open spec fn read_outcome_view(read: Result<Vec<u8>, String>) -> Result<Seq<u8>, Seq<char>> {
    match read {
        Ok(bytes) => Ok(bytes@),
        Err(e) => Err(e@),
    }
}

/// Answers a read request: the file's bytes, unchanged, with their content
/// type; or, when reading failed, an error that describes the failure. The
/// target's `usize` must be wide enough for content-type recognition.
pub fn read_response(read: Result<Vec<u8>, String>) -> (r: Result<(Vec<u8>, String), String>)
    requires
        usize_holds_frame_lengths(),
    ensures
        read_response_view(r) == read_response_spec(read_outcome_view(read)),
        (read matches Ok(bytes) && bytes@.len() == 0) ==> (r matches Ok((_, m)) && m@
            == octet_stream()),
        (read matches Ok(bytes) && has_gif_signature(bytes@) && !has_ebook_marker(bytes@))
            ==> (r matches Ok((_, m)) && m@ == "image/gif"@),
        (read matches Ok(bytes) && has_png_signature(bytes@) && !has_ebook_marker(bytes@))
            ==> (r matches Ok((_, m)) && m@ == "image/png"@),
{
    match read {
        Ok(content) => {
            let mime = mime_of(content.as_slice());
            Ok((content, mime))
        },
        Err(cause) => {
            let msg = "Failed to read file: ".to_owned().concat(cause.as_str());
            Err(msg)
        },
    }
}

/// Where a save stands: the file is to be created, the buffer is to be
/// written into the created file, or the save is over with its answer (the
/// path on success, else a description of the failure).
#[derive(PartialEq, Eq, Debug)]
pub enum SaveState {
    Creating,
    Writing,
    Done(Result<String, String>),
}

/// What the caller observed after performing the step that the state asked for.
#[derive(PartialEq, Eq, Debug)]
pub enum SaveEvent {
    Created,
    CreateFailed(String),
    Written,
    WriteFailed(String),
}

/// The mathematical form of a [`SaveState`].
pub enum SaveModel {
    Creating,
    Writing,
    Done(Result<Seq<char>, Seq<char>>),
}

/// The mathematical form of a [`SaveEvent`].
pub enum SaveEventModel {
    Created,
    CreateFailed(Seq<char>),
    Written,
    WriteFailed(Seq<char>),
}

impl View for SaveState {
    type V = SaveModel;

    open spec fn view(&self) -> SaveModel {
        match self {
            SaveState::Creating => SaveModel::Creating,
            SaveState::Writing => SaveModel::Writing,
            SaveState::Done(Ok(p)) => SaveModel::Done(Ok(p@)),
            SaveState::Done(Err(e)) => SaveModel::Done(Err(e@)),
        }
    }
}

impl View for SaveEvent {
    type V = SaveEventModel;

    open spec fn view(&self) -> SaveEventModel {
        match self {
            SaveEvent::Created => SaveEventModel::Created,
            SaveEvent::CreateFailed(c) => SaveEventModel::CreateFailed(c@),
            SaveEvent::Written => SaveEventModel::Written,
            SaveEvent::WriteFailed(c) => SaveEventModel::WriteFailed(c@),
        }
    }
}

/// One step of a save to `path`. An event that does not answer the step the
/// state asked for leaves the state as it is; a finished save stays finished.
pub open spec fn save_step_spec(path: Seq<char>, s: SaveModel, e: SaveEventModel) -> SaveModel {
    match (s, e) {
        (SaveModel::Creating, SaveEventModel::Created) => SaveModel::Writing,
        (SaveModel::Creating, SaveEventModel::CreateFailed(c)) => SaveModel::Done(
            Err(create_failure_spec(c)),
        ),
        (SaveModel::Writing, SaveEventModel::Written) => SaveModel::Done(Ok(path)),
        (SaveModel::Writing, SaveEventModel::WriteFailed(c)) => SaveModel::Done(
            Err(write_failure_spec(c)),
        ),
        (s, _) => s,
    }
}

/// The state that a save reaches from `s` through the events `evs`.
pub open spec fn save_run(path: Seq<char>, s: SaveModel, evs: Seq<SaveEventModel>) -> SaveModel
    decreases evs.len(),
{
    if evs.len() == 0 {
        s
    } else {
        save_run(path, save_step_spec(path, s, evs[0]), evs.drop_first())
    }
}

/// Advances a save to `path` by the event that the last step produced.
pub fn save_step(path: &str, state: SaveState, event: SaveEvent) -> (r: SaveState)
    ensures
        r@ == save_step_spec(path@, state@, event@),
{
    match (state, event) {
        (SaveState::Creating, SaveEvent::Created) => SaveState::Writing,
        (SaveState::Creating, SaveEvent::CreateFailed(cause)) => {
            SaveState::Done(Err("Failed to create file: ".to_owned().concat(cause.as_str())))
        },
        (SaveState::Writing, SaveEvent::Written) => SaveState::Done(Ok(path.to_owned())),
        (SaveState::Writing, SaveEvent::WriteFailed(cause)) => {
            SaveState::Done(
                Err("Failed to write data to file: ".to_owned().concat(cause.as_str())),
            )
        },
        (state, _) => state,
    }
}

/// A finished save keeps its answer whatever events follow.
pub proof fn lemma_save_done_is_final(
    path: Seq<char>,
    r: Result<Seq<char>, Seq<char>>,
    evs: Seq<SaveEventModel>,
)
    ensures
        save_run(path, SaveModel::Done(r), evs) == SaveModel::Done(r),
    decreases evs.len(),
{
    if evs.len() > 0 {
        lemma_save_done_is_final(path, r, evs.drop_first());
    }
}

/// A save whose file could not be created fails with the creation error and
/// never reaches the write step, whatever events follow.
pub proof fn lemma_save_create_failure(path: Seq<char>, cause: Seq<char>, rest: Seq<SaveEventModel>)
    ensures
        save_run(path, SaveModel::Creating, seq![SaveEventModel::CreateFailed(cause)] + rest)
            == SaveModel::Done(Err(create_failure_spec(cause))),
{
    let evs = seq![SaveEventModel::CreateFailed(cause)] + rest;
    assert(evs.drop_first() =~= rest);
    lemma_save_done_is_final(path, Err(create_failure_spec(cause)), rest);
}

/// A save succeeds only after the file was created and then written, and
/// its answer is the path it was given, unchanged.
pub proof fn lemma_save_success(path: Seq<char>, evs: Seq<SaveEventModel>, q: Seq<char>)
    requires
        save_run(path, SaveModel::Creating, evs) == SaveModel::Done(Ok(q)),
    ensures
        q == path,
        exists|i: int, j: int|
            0 <= i < j < evs.len() && evs[i] == SaveEventModel::Created && evs[j]
                == SaveEventModel::Written,
{
    lemma_save_success_from(path, SaveModel::Creating, evs, q);
}

proof fn lemma_save_success_from(
    path: Seq<char>,
    s: SaveModel,
    evs: Seq<SaveEventModel>,
    q: Seq<char>,
)
    requires
        s is Creating || s is Writing,
        save_run(path, s, evs) == SaveModel::Done(Ok(q)),
    ensures
        q == path,
        s is Creating ==> exists|i: int, j: int|
            0 <= i < j < evs.len() && evs[i] == SaveEventModel::Created && evs[j]
                == SaveEventModel::Written,
        s is Writing ==> exists|j: int| 0 <= j < evs.len() && evs[j] == SaveEventModel::Written,
    decreases evs.len(),
{
    let next = save_step_spec(path, s, evs[0]);
    let rest = evs.drop_first();
    match next {
        SaveModel::Done(r) => {
            lemma_save_done_is_final(path, r, rest);
            assert(s is Writing && evs[0] == SaveEventModel::Written);
        },
        _ => {
            lemma_save_success_from(path, next, rest, q);
            if s is Creating {
                if next is Writing {
                    let j = choose|j: int| 0 <= j < rest.len() && rest[j] == SaveEventModel::Written;
                    assert(evs[j + 1] == SaveEventModel::Written);
                } else {
                    let (i, j) = choose|i: int, j: int|
                        0 <= i < j < rest.len() && rest[i] == SaveEventModel::Created && rest[j]
                            == SaveEventModel::Written;
                    assert(evs[i + 1] == SaveEventModel::Created);
                    assert(evs[j + 1] == SaveEventModel::Written);
                }
            } else {
                let j = choose|j: int| 0 <= j < rest.len() && rest[j] == SaveEventModel::Written;
                assert(evs[j + 1] == SaveEventModel::Written);
            }
        },
    }
}

} // verus!
