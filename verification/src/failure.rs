//! What can go wrong in a run, and how it is reported.

use vstd::prelude::*;
use vstd::string::StringExecFns;

verus! {

/// The step of a run that failed.
#[derive(Clone, Copy, Debug, PartialEq, Eq, Structural)]
pub enum Failure {
    /// The storage client could not be built.
    ClientInit,
    /// The request to create the bucket failed.
    BucketCreate,
    /// The storage service answered the request to create the bucket, and
    /// did not create it.
    BucketRefused,
    /// The bucket is missing and may not be created.
    BucketMissing,
    /// A read, a write or a step of a multipart upload failed.
    Operation,
    /// A multipart upload has more parts than part numbers.
    PartNumber,
    /// The objects under the sample prefix could not be listed.
    CleanupList,
    /// An object under the sample prefix could not be deleted.
    CleanupDelete,
    /// A driver handed in an event that answers no action of the machine.
    OutOfTurn,
}

impl Failure {
    /// What the report of the failure begins with.
    pub open spec fn context_text(self) -> Seq<char> {
        match self {
            Failure::ClientInit => "failed to initialize object storage bucket client: "@,
            Failure::BucketCreate => "failed to create object storage bucket: "@,
            Failure::BucketRefused => "failed to create bucket: "@,
            Failure::BucketMissing => "no such bucket: "@,
            Failure::Operation => ""@,
            Failure::PartNumber => "out of range integral type conversion attempted"@,
            Failure::CleanupList => "failed to validate bucket files: "@,
            Failure::CleanupDelete => "failed to cleanup bucket: "@,
            Failure::OutOfTurn => "event out of turn: "@,
        }
    }

    /// Whether the failure stops the run before any worker is spawned.
    pub open spec fn is_setup(self) -> bool {
        self == Failure::ClientInit || self == Failure::BucketCreate || self
            == Failure::BucketRefused || self == Failure::BucketMissing
    }

    /// Whether the report of the failure ends in the bucket's name, and not
    /// in the text of a cause: so it is for a bucket that is missing and for
    /// one that the service would not create.
    pub fn names_bucket(&self) -> (names: bool)
        ensures
            names == (*self == Failure::BucketMissing || *self == Failure::BucketRefused),
    {
        match self {
            Failure::BucketMissing => true,
            Failure::BucketRefused => true,
            _ => false,
        }
    }

    /// What the report of the failure begins with.
    pub fn context(&self) -> (context: &'static str)
        ensures
            context@ == self.context_text(),
    {
        match self {
            Failure::ClientInit => "failed to initialize object storage bucket client: ",
            Failure::BucketCreate => "failed to create object storage bucket: ",
            Failure::BucketRefused => "failed to create bucket: ",
            Failure::BucketMissing => "no such bucket: ",
            Failure::Operation => "",
            Failure::PartNumber => "out of range integral type conversion attempted",
            Failure::CleanupList => "failed to validate bucket files: ",
            Failure::CleanupDelete => "failed to cleanup bucket: ",
            Failure::OutOfTurn => "event out of turn: ",
        }
    }

    /// The report of the failure: its context, then the detail, which is the
    /// bucket's name where `names_bucket` holds and the cause's own text
    /// otherwise.
    pub fn message(&self, detail: &str) -> (message: String)
        ensures
            message@ == self.context_text() + detail@,
    {
        let mut message = String::from_str(self.context());
        message.append(detail);
        message
    }
}

} // verus!
