use vstd::prelude::*;
use vstd::string::StringExecFns;

use crate::error::CommandError;
use crate::git::GitCommandExecuter;
use crate::git::GitCommandExecuterBuilder;
use crate::store::Folder;
use crate::store::Storage;
use crate::utils;

verus! {

/// Usage errors of List.
#[derive(Debug)]
pub enum Error {
    /// Not a single file is tracked.
    EmptyRepository,
    /// No remote is configured yet.
    SetRemoteRepository,
}

impl Error {
    /// The message shown to the user.
    pub open spec fn spec_message(self) -> Seq<char> {
        match self {
            Error::EmptyRepository => "Your remote repository is empty"@,
            Error::SetRemoteRepository => "You need to set a remote repository before use DFM"@,
        }
    }

    pub fn message(&self) -> (r: String)
        ensures
            r@ == self.spec_message(),
    {
        match self {
            Error::EmptyRepository => "Your remote repository is empty".to_owned(),
            Error::SetRemoteRepository => "You need to set a remote repository before use DFM".to_owned(),
        }
    }

    /// This usage error as a command verdict.
    pub fn to_command_error(&self) -> (r: CommandError)
        ensures
            r matches CommandError::Usage(m) && m@ == self.spec_message(),
    {
        CommandError::Usage(self.message())
    }
}

/// The character of one decimal digit.
pub open spec fn digit(d: nat) -> char {
    if d == 0 {
        '0'
    } else if d == 1 {
        '1'
    } else if d == 2 {
        '2'
    } else if d == 3 {
        '3'
    } else if d == 4 {
        '4'
    } else if d == 5 {
        '5'
    } else if d == 6 {
        '6'
    } else if d == 7 {
        '7'
    } else if d == 8 {
        '8'
    } else {
        '9'
    }
}

/// The decimal digits of `n`, most significant first.
pub open spec fn decimal(n: nat) -> Seq<char>
    decreases n,
{
    if n < 10 {
        seq![digit(n)]
    } else {
        decimal(n / 10).push(digit(n % 10))
    }
}

fn digit_label(d: usize) -> (r: &'static str)
    requires
        d < 10,
    ensures
        r@ == seq![digit(d as nat)],
{
    if d == 0 {
        proof {
            reveal_strlit("0");
            assert("0"@ =~= seq![digit(0nat)]);
        }
        "0"
    } else if d == 1 {
        proof {
            reveal_strlit("1");
            assert("1"@ =~= seq![digit(1nat)]);
        }
        "1"
    } else if d == 2 {
        proof {
            reveal_strlit("2");
            assert("2"@ =~= seq![digit(2nat)]);
        }
        "2"
    } else if d == 3 {
        proof {
            reveal_strlit("3");
            assert("3"@ =~= seq![digit(3nat)]);
        }
        "3"
    } else if d == 4 {
        proof {
            reveal_strlit("4");
            assert("4"@ =~= seq![digit(4nat)]);
        }
        "4"
    } else if d == 5 {
        proof {
            reveal_strlit("5");
            assert("5"@ =~= seq![digit(5nat)]);
        }
        "5"
    } else if d == 6 {
        proof {
            reveal_strlit("6");
            assert("6"@ =~= seq![digit(6nat)]);
        }
        "6"
    } else if d == 7 {
        proof {
            reveal_strlit("7");
            assert("7"@ =~= seq![digit(7nat)]);
        }
        "7"
    } else if d == 8 {
        proof {
            reveal_strlit("8");
            assert("8"@ =~= seq![digit(8nat)]);
        }
        "8"
    } else {
        proof {
            reveal_strlit("9");
            assert("9"@ =~= seq![digit(9nat)]);
        }
        "9"
    }
}

/// Appends the decimal digits of `n` to `out`.
fn push_decimal(n: usize, out: &mut String)
    ensures
        final(out)@ == old(out)@ + decimal(n as nat),
    decreases n,
{
    if n >= 10 {
        proof {
            assert(n / 10 < n) by (nonlinear_arith)
                requires
                    n >= 10,
            ;
        }
        push_decimal(n / 10, out);
    }
    out.append(digit_label(n % 10));
    proof {
        if n < 10 {
            assert(decimal(n as nat) =~= seq![digit(n as nat)]);
        } else {
            assert(old(out)@ + decimal((n / 10) as nat) + seq![digit((n % 10) as nat)] =~= old(
                out,
            )@ + decimal(n as nat));
        }
    }
}

/// Lists the tracked files.
#[derive(Debug)]
pub struct List;

impl List {
    /// The first half of List: checks that a remote is configured and
    /// returns the pull plan that refreshes the mirror; the caller runs
    /// it and then hands the refreshed snapshot to `report`.
    pub fn execute(self, storage: &Storage) -> (r: Result<GitCommandExecuter, CommandError>)
        ensures
            r is Ok <==> storage.remote is Some,
            r matches Ok(plan) ==> {
                &&& plan.run_pull
                &&& !plan.run_init
                &&& !plan.run_commit
                &&& !plan.run_remote_add
                &&& !plan.run_remote_remove
                &&& plan.git_storage_folder_path@ == storage.folder_path@ + "/dotfiles"@
            },
            r matches Err(e) ==> e matches CommandError::Usage(m) && m@
                == Error::SetRemoteRepository.spec_message(),
    {
        match utils::check_if_remote_link_is_added(storage) {
            Ok(()) => {},
            Err(_) => {
                return Err(Error::SetRemoteRepository.to_command_error());
            },
        }
        let git_storage_folder_path = utils::get_git_storage_folder_path(&storage.folder_path);
        Ok(GitCommandExecuterBuilder::new(git_storage_folder_path).run_pull().build())
    }

    /// The second half of List, on the refreshed snapshot: one numbered
    /// line per plain file, in folder order, counting from one;
    /// subdirectories are not listed and take no number. Fails when not a
    /// single file is there.
    pub fn report(folder: &Folder) -> (r: Result<(Vec<String>, String), CommandError>)
        ensures
            r is Ok <==> folder.files@.len() > 0,
            r matches Ok((lines, message)) ==> {
                &&& lines@.len() == folder.files@.len()
                &&& forall|i: int|
                    0 <= i < lines@.len() ==> lines@[i]@ == decimal((i + 1) as nat) + ". "@
                        + folder.files@[i].name@
                &&& message@ == "Finished listing your files"@
            },
            r matches Err(e) ==> e matches CommandError::Usage(m) && m@
                == Error::EmptyRepository.spec_message(),
    {
        let n = folder.files.len();
        if n == 0 {
            return Err(Error::EmptyRepository.to_command_error());
        }
        let mut lines: Vec<String> = Vec::new();
        let mut i: usize = 0;
        while i < n
            invariant
                n == folder.files@.len(),
                i <= n,
                lines@.len() == i,
                forall|j: int|
                    0 <= j < i ==> lines@[j]@ == decimal((j + 1) as nat) + ". "@
                        + folder.files@[j].name@,
            decreases n - i,
        {
            let mut line = String::new();
            push_decimal(i + 1, &mut line);
            line.append(". ");
            line.append(folder.files[i].name.as_str());
            proof {
                assert(line@ =~= decimal((i + 1) as nat) + ". "@ + folder.files@[i as int].name@);
            }
            lines.push(line);
            i += 1;
        }
        Ok((lines, "Finished listing your files".to_owned()))
    }
}

} // verus!
