use vstd::prelude::*;
use vstd::string::StringExecFns;

use crate::git::GitOperation;
use crate::store::Storage;

verus! {

/// Errors of the standalone push variant, which reports on its own
/// instead of through the shared command verdict.
#[derive(Debug)]
pub enum Error {
    /// No remote is configured yet.
    NoRemoteRepository,
    /// The storage folder path could not be resolved.
    GetStorageFolderPath(String),
    /// Any other failure, with what was being attempted.
    Unknown(String, String),
}

impl Error {
    /// The message shown to the user.
    pub open spec fn spec_message(self) -> Seq<char> {
        match self {
            Error::NoRemoteRepository => "You do not have setted a remote repository yet"@,
            Error::GetStorageFolderPath(s) => s@,
            Error::Unknown(err, trying_to) => "Something wrong happened: "@ + err@
                + ", when trying to: "@ + trying_to@,
        }
    }

    pub fn message(&self) -> (r: String)
        ensures
            r@ == self.spec_message(),
    {
        match self {
            Error::NoRemoteRepository => "You do not have setted a remote repository yet".to_owned(),
            Error::GetStorageFolderPath(s) => s.clone(),
            Error::Unknown(err, trying_to) => {
                let mut m = "Something wrong happened: ".to_owned();
                m.append(err.as_str());
                m.append(", when trying to: ");
                m.append(trying_to.as_str());
                m
            },
        }
    }
}

/// Pushes the local repository to the remote, without pulling or
/// committing anything first.
#[derive(Debug)]
pub struct Push;

impl Push {
    /// Runs Push against the given state: checks that a remote is
    /// configured and returns the single push operation for the caller to
    /// launch, together with the success message.
    pub fn execute(self, storage: &Storage) -> (r: Result<(Vec<GitOperation>, String), Error>)
        ensures
            r is Ok <==> storage.remote is Some,
            r matches Ok((ops, message)) ==> {
                &&& ops@ == seq![GitOperation::Push]
                &&& message@ == "Successfully pushed your changes to the remote repository"@
            },
            r matches Err(e) ==> e is NoRemoteRepository,
    {
        if storage.remote.is_none() {
            return Err(Error::NoRemoteRepository);
        }
        let mut ops: Vec<GitOperation> = Vec::new();
        ops.push(GitOperation::Push);
        proof {
            assert(ops@ =~= seq![GitOperation::Push]);
        }
        Ok((ops, "Successfully pushed your changes to the remote repository".to_owned()))
    }
}

} // verus!
