//! The bucket handle: a namespace, a sharing flag and the data root it lives under.
use vstd::prelude::*;
use vstd::string::StringExecFns;

use crate::location::{join_segment, location_of, replace_dots, resource_location_of};
use crate::platform::user_data_dir;

verus! {

/// Why an operation on a bucket failed.
#[derive(Debug, Clone)]
pub enum BucketError {
    /// The platform has no per-user data directory.
    NoDataRoot,
    /// Something other than a directory already occupies the bucket's location.
    LocationConflict,
    /// The operating system refused to create, open, read, write or list.
    Io(String),
    /// The bytes of a resource are not a JSON document of the requested shape.
    Decode(String),
    /// A value could not be written as JSON.
    Encode(String),
}

/// What became of the attempt to create a bucket's directory (with all its parents).
#[derive(Debug, Clone)]
pub enum DirCreation {
    /// The directory exists now: it was made, or it was already there.
    Created,
    /// Something already stood at the location; `is_dir` tells whether it is a directory.
    AlreadyExists { is_dir: bool },
    /// Creation failed for another reason, described by the message.
    Failed(String),
}

/// What `Bucket::settle_creation` answers for a creation outcome.
pub open spec fn creation_verdict(outcome: DirCreation) -> Result<(), BucketError> {
    match outcome {
        DirCreation::Created => Ok(()),
        DirCreation::AlreadyExists { is_dir } => if is_dir {
            Ok(())
        } else {
            Err(BucketError::LocationConflict)
        },
        DirCreation::Failed(msg) => Err(BucketError::Io(msg)),
    }
}

/// A handle on one namespace. It holds no open files and no cache; its
/// directory lives on after the handle is gone. The `shared` flag is carried
/// along and changes neither the location nor who may reach it.
pub struct Bucket {
    pub rdns: String,
    pub shared: bool,
    pub data_root: String,
}

impl Bucket {
    /// A handle on namespace `rdns` under an explicitly given data root.
    pub fn with_data_root(data_root: &str, rdns: &str, shared: bool) -> (b: Bucket)
        ensures
            b.data_root@ == data_root@,
            b.rdns@ == rdns@,
            b.shared == shared,
    {
        Bucket { rdns: String::from_str(rdns), shared, data_root: String::from_str(data_root) }
    }

    /// A handle on namespace `rdns` under the platform's per-user data
    /// directory, or `NoDataRoot` where the platform has none.
    pub fn new(rdns: &str, shared: bool) -> (r: Result<Bucket, BucketError>)
        ensures
            r matches Ok(b) ==> b.rdns@ == rdns@ && b.shared == shared,
            r matches Err(e) ==> e == BucketError::NoDataRoot,
    {
        match user_data_dir() {
            Some(root) => Ok(Bucket::with_data_root(root.as_str(), rdns, shared)),
            None => Err(BucketError::NoDataRoot),
        }
    }

    /// The directory of this bucket: the data root, then `bucket`, then the
    /// namespace with each `.` turned into a separator.
    pub fn path(&self) -> (r: String)
        ensures
            r@ == location_of(self.data_root@, self.rdns@),
    {
        let store = join_segment(self.data_root.as_str(), "bucket");
        proof {
            reveal_strlit("bucket");
        }
        let segments = replace_dots(self.rdns.as_str());
        join_segment(store.as_str(), segments.as_str())
    }

    /// The file of resource `resource`: the bucket's directory joined with
    /// the name, which is taken as it is.
    pub fn get_resource_path(&self, resource: String) -> (r: String)
        ensures
            r@ == resource_location_of(self.data_root@, self.rdns@, resource@),
    {
        let dir = self.path();
        join_segment(dir.as_str(), resource.as_str())
    }

    /// Whether a bucket may be used after the attempt to create its directory:
    /// a directory that is there now is fine, anything else at its place is a
    /// conflict, and any other failure is reported as it came.
    pub fn settle_creation(outcome: DirCreation) -> (r: Result<(), BucketError>)
        ensures
            r == creation_verdict(outcome),
    {
        match outcome {
            DirCreation::Created => Ok(()),
            DirCreation::AlreadyExists { is_dir } => {
                if is_dir {
                    Ok(())
                } else {
                    Err(BucketError::LocationConflict)
                }
            },
            DirCreation::Failed(msg) => Err(BucketError::Io(msg)),
        }
    }
}

} // verus!
