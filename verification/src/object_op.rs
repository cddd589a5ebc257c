//! The object operation executor: one read or one write of one object, as a
//! state machine. The machine says which request goes to the storage service
//! next; its driver sends the request and hands back the reply.

use vstd::prelude::*;
use crate::args::Mode;
use crate::chunk::{lemma_parts_shape, needs_multipart, parts_of, split_parts, PartRange};
use crate::config::RunConfig;
use crate::failure::Failure;
use crate::key::{get_s3_path, s3_path};

verus! {

/// The content type under which every part goes up.
pub open spec fn content_type_text() -> Seq<char> {
    "application/octet-stream"@
}

/// The content type under which every part goes up.
pub fn content_type() -> (content_type: &'static str)
    ensures
        content_type@ == content_type_text(),
{
    "application/octet-stream"
}

/// What the storage service calls an uploaded part: its number and the tag
/// that the service gave it.
#[derive(Clone, Debug, PartialEq, Eq)]
pub struct PartId {
    pub part_number: u32,
    pub etag: String,
}

impl View for PartId {
    type V = (u32, Seq<char>);

    open spec fn view(&self) -> (u32, Seq<char>) {
        (self.part_number, self.etag@)
    }
}

/// The numbers and tags of a list of parts.
pub open spec fn part_ids(parts: Seq<PartId>) -> Seq<(u32, Seq<char>)> {
    parts.map_values(|part: PartId| part@)
}

/// Where an operation stands: the request whose reply it awaits, or how it
/// ended.
#[derive(Clone, Copy, Debug, PartialEq, Eq, Structural)]
pub enum OpPhase {
    /// The object's body was asked for.
    Getting,
    /// The whole payload was sent in one request.
    Putting,
    /// A multipart upload was asked for.
    Initiating,
    /// The next part was sent.
    Uploading,
    /// The list of parts was sent to close the upload.
    Completing,
    /// The operation has succeeded.
    Finished,
    /// The operation has failed.
    Aborted { failure: Failure },
}

/// The reply to a request: it was carried out, or it failed. `token` is the
/// upload id after the request for a multipart upload and the part's tag
/// after the upload of a part; after other requests it means nothing.
#[derive(Clone, Debug, PartialEq, Eq)]
pub enum Reply {
    Done { token: String },
    Failed,
}

/// A reply, with its token as text.
pub enum ReplyModel {
    Done { token: Seq<char> },
    Failed,
}

impl View for Reply {
    type V = ReplyModel;

    open spec fn view(&self) -> ReplyModel {
        match self {
            Reply::Done { token } => ReplyModel::Done { token: token@ },
            Reply::Failed => ReplyModel::Failed,
        }
    }
}

/// What the driver does next.
#[derive(Debug, PartialEq, Eq)]
pub enum OpAction {
    /// Fetch the body of the object at `path`.
    Get { path: String },
    /// Store the bytes of `range` of the payload at `path` in one request.
    Put { path: String, range: PartRange },
    /// Ask for a multipart upload to `path`.
    Initiate { path: String, content_type: &'static str },
    /// Send the bytes of `range` of the payload as part `part_number` of the
    /// upload.
    UploadPart { path: String, upload_id: String, part_number: u32, range: PartRange },
    /// Close the upload with the parts in the order given.
    Complete { path: String, upload_id: String, parts: Vec<PartId> },
    /// The operation is over. `Ok(true)` asks for one more on the shared
    /// counter of completed operations, `Ok(false)` for none.
    Finish { outcome: Result<bool, Failure> },
}

/// An action, with its strings as text.
pub enum OpActionModel {
    Get { path: Seq<char> },
    Put { path: Seq<char>, range: PartRange },
    Initiate { path: Seq<char>, content_type: Seq<char> },
    UploadPart { path: Seq<char>, upload_id: Seq<char>, part_number: u32, range: PartRange },
    Complete { path: Seq<char>, upload_id: Seq<char>, parts: Seq<(u32, Seq<char>)> },
    Finish { outcome: Result<bool, Failure> },
}

impl View for OpAction {
    type V = OpActionModel;

    open spec fn view(&self) -> OpActionModel {
        match self {
            OpAction::Get { path } => OpActionModel::Get { path: path@ },
            OpAction::Put { path, range } => OpActionModel::Put { path: path@, range: *range },
            OpAction::Initiate { path, content_type } => OpActionModel::Initiate {
                path: path@,
                content_type: content_type@,
            },
            OpAction::UploadPart { path, upload_id, part_number, range } => {
                OpActionModel::UploadPart {
                    path: path@,
                    upload_id: upload_id@,
                    part_number: *part_number,
                    range: *range,
                }
            },
            OpAction::Complete { path, upload_id, parts } => OpActionModel::Complete {
                path: path@,
                upload_id: upload_id@,
                parts: part_ids(parts@),
            },
            OpAction::Finish { outcome } => OpActionModel::Finish { outcome: *outcome },
        }
    }
}

/// What an operation is, as plain values.
pub struct OpModel {
    /// The path of the object.
    pub path: Seq<char>,
    /// Whether success counts on the shared counter.
    pub counted: bool,
    /// The parts of the payload, for a multipart upload; empty otherwise.
    pub parts: Seq<PartRange>,
    /// The id of the multipart upload, once the service has given it.
    pub upload_id: Seq<char>,
    /// The parts that have gone up, in upload order.
    pub uploaded: Seq<(u32, Seq<char>)>,
    /// Where the operation stands.
    pub phase: OpPhase,
}

impl OpModel {
    /// The operation ends in success.
    pub open spec fn finish(self) -> (OpModel, OpActionModel) {
        (
            OpModel { phase: OpPhase::Finished, ..self },
            OpActionModel::Finish { outcome: Ok(self.counted) },
        )
    }

    /// The operation ends in `failure`, and nothing more is sent.
    pub open spec fn abort(self, failure: Failure) -> (OpModel, OpActionModel) {
        (
            OpModel { phase: OpPhase::Aborted { failure }, ..self },
            OpActionModel::Finish { outcome: Err(failure) },
        )
    }

    /// The next part goes up, under the number that follows those of the
    /// parts before it; the first part has number 1. The operation fails
    /// where the numbers have run out.
    pub open spec fn upload(self) -> (OpModel, OpActionModel) {
        let k = self.uploaded.len();
        if k >= u32::MAX {
            self.abort(Failure::PartNumber)
        } else {
            (
                OpModel { phase: OpPhase::Uploading, ..self },
                OpActionModel::UploadPart {
                    path: self.path,
                    upload_id: self.upload_id,
                    part_number: (k + 1) as u32,
                    range: self.parts[k as int],
                },
            )
        }
    }

    /// The list of parts goes up, in upload order, to close the upload.
    pub open spec fn complete(self) -> (OpModel, OpActionModel) {
        (
            OpModel { phase: OpPhase::Completing, uploaded: Seq::empty(), ..self },
            OpActionModel::Complete {
                path: self.path,
                upload_id: self.upload_id,
                parts: self.uploaded,
            },
        )
    }

    /// How an operation on the object `index` begins: a read asks for the
    /// body; a write sends the payload in one request unless it is longer
    /// than the threshold, and asks for a multipart upload if it is.
    pub open spec fn begin(config: RunConfig, mode: Mode, index: usize, counted: bool) -> (
        OpModel,
        OpActionModel,
    ) {
        let op = OpModel {
            path: s3_path(index as nat),
            counted,
            parts: Seq::empty(),
            upload_id: Seq::empty(),
            uploaded: Seq::empty(),
            phase: OpPhase::Getting,
        };
        match mode {
            Mode::Read => (op, OpActionModel::Get { path: op.path }),
            Mode::Write => if needs_multipart(config.object_size, config.multipart_threshold) {
                (
                    OpModel {
                        parts: parts_of(
                            config.object_size,
                            config.multipart_threshold,
                            config.minimum_part_size,
                        ),
                        phase: OpPhase::Initiating,
                        ..op
                    },
                    OpActionModel::Initiate { path: op.path, content_type: content_type_text() },
                )
            } else {
                (
                    OpModel { phase: OpPhase::Putting, ..op },
                    OpActionModel::Put {
                        path: op.path,
                        range: PartRange { start: 0, end: config.object_size },
                    },
                )
            },
        }
    }

    /// How an operation goes on after a reply. A failed request ends the
    /// operation at once: nothing is sent again, and nothing is sent after
    /// it. In a multipart upload the parts follow one another in order, and
    /// the list that closes the upload names them in that order. An operation
    /// that is over stays as it is.
    pub open spec fn next(self, reply: ReplyModel) -> (OpModel, OpActionModel) {
        match self.phase {
            OpPhase::Finished => (self, OpActionModel::Finish { outcome: Ok(self.counted) }),
            OpPhase::Aborted { failure } => (self, OpActionModel::Finish { outcome: Err(failure) }),
            _ => match reply {
                ReplyModel::Failed => self.abort(Failure::Operation),
                ReplyModel::Done { token } => match self.phase {
                    OpPhase::Initiating => (OpModel { upload_id: token, ..self }).upload(),
                    OpPhase::Uploading => {
                        let number = (self.uploaded.len() + 1) as u32;
                        let op = OpModel { uploaded: self.uploaded.push((number, token)), ..self };
                        if op.uploaded.len() < op.parts.len() {
                            op.upload()
                        } else {
                            op.complete()
                        }
                    },
                    _ => self.finish(),
                },
            },
        }
    }

    /// Whether the operation is over.
    pub open spec fn is_over(self) -> bool {
        self.phase is Finished || self.phase is Aborted
    }
}

/// One read or one write of one object, under way.
pub struct ObjectOp {
    path: String,
    counted: bool,
    parts: Vec<PartRange>,
    upload_id: String,
    uploaded: Vec<PartId>,
    phase: OpPhase,
}

impl View for ObjectOp {
    type V = OpModel;

    closed spec fn view(&self) -> OpModel {
        OpModel {
            path: self.path@,
            counted: self.counted,
            parts: self.parts@,
            upload_id: self.upload_id@,
            uploaded: part_ids(self.uploaded@),
            phase: self.phase,
        }
    }
}

impl ObjectOp {
    #[verifier::type_invariant]
    spec fn parts_in_hand(&self) -> bool {
        &&& self.phase is Initiating ==> self.uploaded@.len() == 0 && self.parts@.len() > 0
        &&& self.phase is Uploading ==> self.uploaded@.len() < self.parts@.len()
            && self.uploaded@.len() < u32::MAX
    }

    /// Begins an operation on the object `index`: a read in read mode, a
    /// write of `object_size` bytes in write mode. `counted` says whether its
    /// success goes on the shared counter.
    pub fn begin(config: &RunConfig, mode: Mode, index: usize, counted: bool) -> (started: (
        ObjectOp,
        OpAction,
    ))
        requires
            mode == Mode::Write ==> config.chunkable(),
        ensures
            (started.0@, started.1@) == OpModel::begin(*config, mode, index, counted),
    {
        let path = get_s3_path(index);
        let target = path.clone();
        match mode {
            Mode::Read => {
                let op = ObjectOp {
                    path,
                    counted,
                    parts: Vec::new(),
                    upload_id: String::new(),
                    uploaded: Vec::new(),
                    phase: OpPhase::Getting,
                };
                assert(part_ids(op.uploaded@) =~= Seq::empty());
                (op, OpAction::Get { path: target })
            },
            Mode::Write => {
                if config.object_size > config.multipart_threshold {
                    let parts = split_parts(
                        config.object_size,
                        config.multipart_threshold,
                        config.minimum_part_size,
                    );
                    proof {
                        lemma_parts_shape(
                            config.object_size,
                            0,
                            config.multipart_threshold,
                            config.minimum_part_size,
                        );
                    }
                    let op = ObjectOp {
                        path,
                        counted,
                        parts,
                        upload_id: String::new(),
                        uploaded: Vec::new(),
                        phase: OpPhase::Initiating,
                    };
                    assert(part_ids(op.uploaded@) =~= Seq::empty());
                    (op, OpAction::Initiate { path: target, content_type: content_type() })
                } else {
                    let op = ObjectOp {
                        path,
                        counted,
                        parts: Vec::new(),
                        upload_id: String::new(),
                        uploaded: Vec::new(),
                        phase: OpPhase::Putting,
                    };
                    assert(part_ids(op.uploaded@) =~= Seq::empty());
                    (
                        op,
                        OpAction::Put {
                            path: target,
                            range: PartRange { start: 0, end: config.object_size },
                        },
                    )
                }
            },
        }
    }

    /// Takes the reply to the request that the operation awaits, and says
    /// what the driver does next.
    pub fn step(self, reply: Reply) -> (stepped: (ObjectOp, OpAction))
        ensures
            (stepped.0@, stepped.1@) == self@.next(reply@),
    {
        proof {
            use_type_invariant(&self);
        }
        match self.phase {
            OpPhase::Finished => {
                let outcome = Ok(self.counted);
                (self, OpAction::Finish { outcome })
            },
            OpPhase::Aborted { failure } => (self, OpAction::Finish { outcome: Err(failure) }),
            _ => match reply {
                Reply::Failed => self.abort(Failure::Operation),
                Reply::Done { token } => match self.phase {
                    OpPhase::Initiating => {
                        let op = ObjectOp {
                            path: self.path,
                            counted: self.counted,
                            parts: self.parts,
                            upload_id: token,
                            uploaded: self.uploaded,
                            phase: OpPhase::Initiating,
                        };
                        op.upload()
                    },
                    OpPhase::Uploading => {
                        let mut uploaded = self.uploaded;
                        let number = (uploaded.len() + 1) as u32;
                        uploaded.push(PartId { part_number: number, etag: token });
                        assert(part_ids(uploaded@) =~= part_ids(self.uploaded@).push(
                            (number, token@),
                        ));
                        if uploaded.len() < self.parts.len() {
                            let op = ObjectOp {
                                path: self.path,
                                counted: self.counted,
                                parts: self.parts,
                                upload_id: self.upload_id,
                                uploaded,
                                phase: OpPhase::Completing,
                            };
                            op.upload()
                        } else {
                            let op = ObjectOp {
                                path: self.path,
                                counted: self.counted,
                                parts: self.parts,
                                upload_id: self.upload_id,
                                uploaded,
                                phase: OpPhase::Completing,
                            };
                            op.complete()
                        }
                    },
                    _ => {
                        let outcome = Ok(self.counted);
                        let op = ObjectOp {
                            path: self.path,
                            counted: self.counted,
                            parts: self.parts,
                            upload_id: self.upload_id,
                            uploaded: self.uploaded,
                            phase: OpPhase::Finished,
                        };
                        (op, OpAction::Finish { outcome })
                    },
                },
            },
        }
    }

    /// Ends the operation in `failure`.
    fn abort(self, failure: Failure) -> (stepped: (ObjectOp, OpAction))
        ensures
            (stepped.0@, stepped.1@) == self@.abort(failure),
    {
        let op = ObjectOp {
            path: self.path,
            counted: self.counted,
            parts: self.parts,
            upload_id: self.upload_id,
            uploaded: self.uploaded,
            phase: OpPhase::Aborted { failure },
        };
        (op, OpAction::Finish { outcome: Err(failure) })
    }

    /// Sends the next part.
    fn upload(self) -> (stepped: (ObjectOp, OpAction))
        requires
            self@.uploaded.len() < self@.parts.len(),
        ensures
            (stepped.0@, stepped.1@) == self@.upload(),
    {
        let k = self.uploaded.len();
        if k >= u32::MAX as usize {
            self.abort(Failure::PartNumber)
        } else {
            let action = OpAction::UploadPart {
                path: self.path.clone(),
                upload_id: self.upload_id.clone(),
                part_number: (k + 1) as u32,
                range: self.parts[k],
            };
            let op = ObjectOp {
                path: self.path,
                counted: self.counted,
                parts: self.parts,
                upload_id: self.upload_id,
                uploaded: self.uploaded,
                phase: OpPhase::Uploading,
            };
            (op, action)
        }
    }

    /// Sends the list of parts.
    fn complete(self) -> (stepped: (ObjectOp, OpAction))
        ensures
            (stepped.0@, stepped.1@) == self@.complete(),
    {
        let action = OpAction::Complete {
            path: self.path.clone(),
            upload_id: self.upload_id.clone(),
            parts: self.uploaded,
        };
        let op = ObjectOp {
            path: self.path,
            counted: self.counted,
            parts: self.parts,
            upload_id: self.upload_id,
            uploaded: Vec::new(),
            phase: OpPhase::Completing,
        };
        assert(part_ids(op.uploaded@) =~= Seq::empty());
        (op, action)
    }

    /// Where the operation stands.
    pub fn phase(&self) -> (phase: OpPhase)
        ensures
            phase == self@.phase,
    {
        self.phase
    }

    /// Whether the operation is over.
    pub fn is_over(&self) -> (over: bool)
        ensures
            over == self@.is_over(),
    {
        match self.phase {
            OpPhase::Finished => true,
            OpPhase::Aborted { .. } => true,
            _ => false,
        }
    }
}

impl OpModel {
    /// Whether the uploaded parts carry the numbers 1, 2, 3 and so on, in
    /// upload order.
    pub open spec fn numbered(self) -> bool {
        forall|i: int| 0 <= i < self.uploaded.len() ==> (#[trigger] self.uploaded[i]).0 == i + 1
    }

    /// What holds of every operation that `begin` has made and `next` has
    /// taken on: the uploaded parts are numbered in order, and while parts
    /// are awaited there is one left to send and a number for it.
    pub open spec fn consistent(self) -> bool {
        &&& self.numbered()
        &&& self.uploaded.len() <= self.parts.len()
        &&& self.phase is Initiating ==> self.uploaded.len() == 0 && self.parts.len() > 0
        &&& self.phase is Uploading ==> self.uploaded.len() < self.parts.len()
            && self.uploaded.len() < u32::MAX
    }
}

/// A payload no longer than the threshold goes up in one request, never in
/// parts; one exactly as long as the threshold too.
pub proof fn lemma_simple_up_to_threshold(config: RunConfig, index: usize, counted: bool)
    requires
        config.object_size <= config.multipart_threshold,
    ensures
        OpModel::begin(config, Mode::Write, index, counted).1 == (OpActionModel::Put {
            path: s3_path(index as nat),
            range: PartRange { start: 0, end: config.object_size },
        }),
        OpModel::begin(config, Mode::Write, index, counted).0.phase == OpPhase::Putting,
{
}

/// A payload longer than the threshold goes up in parts: the operation
/// begins by asking for a multipart upload, and holds the chunker's parts.
pub proof fn lemma_multipart_above_threshold(config: RunConfig, index: usize, counted: bool)
    requires
        config.object_size > config.multipart_threshold,
    ensures
        OpModel::begin(config, Mode::Write, index, counted).1 is Initiate,
        OpModel::begin(config, Mode::Write, index, counted).0.parts == parts_of(
            config.object_size,
            config.multipart_threshold,
            config.minimum_part_size,
        ),
{
}

/// A read and a write of the same index address the same object.
pub proof fn lemma_read_addresses_what_write_stored(
    config: RunConfig,
    index: usize,
    counted: bool,
)
    ensures
        OpModel::begin(config, Mode::Read, index, counted).0.path == OpModel::begin(
            config,
            Mode::Write,
            index,
            counted,
        ).0.path,
        OpModel::begin(config, Mode::Read, index, counted).1 == (OpActionModel::Get {
            path: s3_path(index as nat),
        }),
{
}

/// An operation that has just begun is consistent.
pub proof fn lemma_begin_consistent(config: RunConfig, mode: Mode, index: usize, counted: bool)
    requires
        mode == Mode::Write ==> config.chunkable(),
    ensures
        OpModel::begin(config, mode, index, counted).0.consistent(),
{
    if mode == Mode::Write && needs_multipart(config.object_size, config.multipart_threshold) {
        lemma_parts_shape(
            config.object_size,
            0,
            config.multipart_threshold,
            config.minimum_part_size,
        );
    }
}

/// A consistent operation stays consistent, whatever the reply.
pub proof fn lemma_next_consistent(op: OpModel, reply: ReplyModel)
    requires
        op.consistent(),
    ensures
        op.next(reply).0.consistent(),
{
    let after = op.next(reply).0;
    if op.phase is Uploading && reply is Done {
        let number = (op.uploaded.len() + 1) as u32;
        let grown = op.uploaded.push((number, reply->token));
        assert forall|i: int| 0 <= i < grown.len() implies (#[trigger] grown[i]).0 == i + 1 by {
            if i < op.uploaded.len() {
                assert(grown[i] == op.uploaded[i]);
            }
        }
    }
}

/// The parts of a multipart upload go up in order, numbered from 1: after
/// the reply to part `k`, the machine sends part `k + 1` with the next range
/// of the chunker, or, after the last part, closes the upload with the full
/// list of parts, numbered in upload order, the newest tag last.
pub proof fn lemma_parts_go_up_in_order(op: OpModel, token: Seq<char>)
    requires
        op.consistent(),
        op.phase is Uploading,
    ensures
        ({
            let k = op.uploaded.len() as int;
            let (after, action) = op.next(ReplyModel::Done { token });
            &&& after.parts == op.parts
            &&& k + 1 < op.parts.len() && k + 1 < u32::MAX ==> action == (
            OpActionModel::UploadPart {
                path: op.path,
                upload_id: op.upload_id,
                part_number: (k + 2) as u32,
                range: op.parts[k + 1],
            })
            &&& k + 1 < op.parts.len() && k + 1 >= u32::MAX ==> action == (OpActionModel::Finish {
                outcome: Err(Failure::PartNumber),
            })
            &&& k + 1 == op.parts.len() ==> action == (OpActionModel::Complete {
                path: op.path,
                upload_id: op.upload_id,
                parts: op.uploaded.push(((k + 1) as u32, token)),
            })
        }),
{
}

/// The first part goes up as number 1, right after the service has given
/// the upload its id.
pub proof fn lemma_first_part_is_number_one(op: OpModel, token: Seq<char>)
    requires
        op.consistent(),
        op.phase is Initiating,
    ensures
        op.next(ReplyModel::Done { token }).1 == (OpActionModel::UploadPart {
            path: op.path,
            upload_id: token,
            part_number: 1,
            range: op.parts[0],
        }),
{
}

/// A failed request ends the operation at once, and an operation that is
/// over sends nothing more: every later reply is answered with the same end.
/// Success is counted once, and only where the operation was to be counted.
pub proof fn lemma_end_is_final(op: OpModel, reply: ReplyModel, later: ReplyModel)
    ensures
        !op.is_over() ==> op.next(ReplyModel::Failed).1 == (OpActionModel::Finish {
            outcome: Err(Failure::Operation),
        }),
        op.next(reply).1 is Finish ==> op.next(reply).0.is_over(),
        op.next(reply).0.is_over() ==> op.next(reply).0.next(later) == op.next(reply),
        op.next(reply).1 matches OpActionModel::Finish { outcome: Ok(count) } ==> count
            == op.counted,
{
}

} // verus!
