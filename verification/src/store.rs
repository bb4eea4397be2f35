use vstd::prelude::*;

use crate::error::ExecutionError;

verus! {

/// One file of a directory snapshot: its name and its bytes.
#[derive(Debug)]
pub struct FileRecord {
    pub name: String,
    pub data: Vec<u8>,
}

/// A snapshot of one directory level: the plain files directly under it
/// and the names of its subdirectories. No recursion: the tool tracks
/// files by bare name, directly under the mirror root.
#[derive(Debug)]
pub struct Folder {
    pub files: Vec<FileRecord>,
    pub subdirs: Vec<String>,
}

/// The mathematical content of a `Folder`: which name holds which bytes,
/// and which names are subdirectories.
#[verifier::ext_equal]
pub struct FolderView {
    pub files: Map<Seq<char>, Seq<u8>>,
    pub dirs: Set<Seq<char>>,
}

impl FolderView {
    /// A plain file of this name is present.
    pub open spec fn has_file(self, name: Seq<char>) -> bool {
        self.files.contains_key(name)
    }

    /// Some entry of this name is present, be it a file or a subdirectory.
    pub open spec fn entry_exists(self, name: Seq<char>) -> bool {
        self.has_file(name) || self.dirs.contains(name)
    }

    /// The bytes of the file of this name.
    pub open spec fn data_of(self, name: Seq<char>) -> Seq<u8> {
        self.files[name]
    }

    /// The folder after writing `data` under `name`, replacing any file of
    /// that name.
    pub open spec fn put(self, name: Seq<char>, data: Seq<u8>) -> FolderView {
        FolderView { files: self.files.insert(name, data), dirs: self.dirs }
    }

    /// The folder after deleting the file of this name.
    pub open spec fn remove(self, name: Seq<char>) -> FolderView {
        FolderView { files: self.files.remove(name), dirs: self.dirs }
    }
}

impl Folder {
    /// File names are unique, and no name is both a file and a
    /// subdirectory — what a real directory guarantees.
    pub open spec fn wf(self) -> bool {
        &&& forall|i: int, j: int|
            0 <= i < j < self.files@.len() ==> self.files@[i].name@ != self.files@[j].name@
        &&& forall|i: int, j: int|
            0 <= i < self.files@.len() && 0 <= j < self.subdirs@.len()
                ==> self.files@[i].name@ != self.subdirs@[j]@
    }

    /// The index of the file named `name`, when one is present.
    pub open spec fn file_index_of(self, name: Seq<char>) -> int {
        choose|i: int| 0 <= i < self.files@.len() && self.files@[i].name@ == name
    }

    /// A folder with no entries at all.
    pub fn new_empty() -> (r: Folder)
        ensures
            r.wf(),
            r.files@.len() == 0,
            r.subdirs@.len() == 0,
            r@.files == Map::<Seq<char>, Seq<u8>>::empty(),
            r@.dirs == Set::<Seq<char>>::empty(),
    {
        let r = Folder { files: Vec::new(), subdirs: Vec::new() };
        proof {
            assert(r@.files =~= Map::<Seq<char>, Seq<u8>>::empty());
            assert(r@.dirs =~= Set::<Seq<char>>::empty());
        }
        r
    }
}

impl View for Folder {
    type V = FolderView;

    open spec fn view(&self) -> FolderView {
        FolderView {
            files: Map::new(
                |name: Seq<char>|
                    exists|i: int| 0 <= i < self.files@.len() && self.files@[i].name@ == name,
                |name: Seq<char>| self.files@[self.file_index_of(name)].data@,
            ),
            dirs: Set::new(
                |name: Seq<char>|
                    exists|i: int| 0 <= i < self.subdirs@.len() && self.subdirs@[i]@ == name,
            ),
        }
    }
}

/// Under uniqueness of names, an index whose record carries `name` is the
/// index the view reads through: the view's data for `name` is that
/// record's data.
proof fn lemma_unique_index(folder: Folder, name: Seq<char>, i: int)
    requires
        folder.wf(),
        0 <= i < folder.files@.len(),
        folder.files@[i].name@ == name,
    ensures
        folder@.has_file(name),
        folder.file_index_of(name) == i,
        folder@.data_of(name) == folder.files@[i].data@,
{
    assert(exists|k: int| 0 <= k < folder.files@.len() && folder.files@[k].name@ == name);
    let j = folder.file_index_of(name);
    assert(0 <= j < folder.files@.len() && folder.files@[j].name@ == name);
    if i != j {
        assert(folder.files@[i].name@ != folder.files@[j].name@);
    }
}

/// The resolved state of the tool's own folder: its path, the remote
/// marker if one is configured, and the mirror root with the tracked
/// files.
#[derive(Debug)]
pub struct Storage {
    pub folder_path: String,
    pub remote: Option<String>,
    pub dotfiles: Folder,
}

impl Storage {
    pub open spec fn wf(self) -> bool {
        self.dotfiles.wf()
    }
}

/// Whether the remote marker is present.
pub fn has_remote(storage: &Storage) -> (r: bool)
    ensures
        r == (storage.remote is Some),
{
    storage.remote.is_some()
}

fn find_file_index(folder: &Folder, name: &String) -> (r: Option<usize>)
    ensures
        match r {
            Some(i) => i < folder.files@.len() && folder.files@[i as int].name@ == name@,
            None => forall|i: int|
                0 <= i < folder.files@.len() ==> folder.files@[i].name@ != name@,
        },
{
    let n = folder.files.len();
    let mut i: usize = 0;
    while i < n
        invariant
            n == folder.files@.len(),
            i <= n,
            forall|j: int| 0 <= j < i ==> folder.files@[j].name@ != name@,
        decreases n - i,
    {
        if folder.files[i].name == *name {
            return Some(i);
        }
        i += 1;
    }
    None
}

fn find_subdir(folder: &Folder, name: &String) -> (r: bool)
    ensures
        r == folder@.dirs.contains(name@),
{
    let n = folder.subdirs.len();
    let mut i: usize = 0;
    while i < n
        invariant
            n == folder.subdirs@.len(),
            i <= n,
            forall|j: int| 0 <= j < i ==> folder.subdirs@[j]@ != name@,
        decreases n - i,
    {
        if folder.subdirs[i] == *name {
            return true;
        }
        i += 1;
    }
    false
}

/// Whether an entry named `file_name` — a file or a subdirectory — is
/// present directly under `folder`. No recursion, no pattern matching.
pub fn check_if_file_exists(folder: &Folder, file_name: &String) -> (r: bool)
    ensures
        r == folder@.entry_exists(file_name@),
{
    match find_file_index(folder, file_name) {
        Some(_) => true,
        None => find_subdir(folder, file_name),
    }
}

/// Whether `file_name` names a plain file under `folder`, as opposed to a
/// subdirectory of the same name or nothing at all.
pub fn is_regular_file(folder: &Folder, file_name: &String) -> (r: bool)
    ensures
        r == folder@.has_file(file_name@),
{
    find_file_index(folder, file_name).is_some()
}

/// The bytes of the file named `file_name`, when one is present.
pub fn read_file<'a>(folder: &'a Folder, file_name: &String) -> (r: Option<&'a Vec<u8>>)
    requires
        folder.wf(),
    ensures
        r is Some <==> folder@.has_file(file_name@),
        r matches Some(data) ==> data@ == folder@.data_of(file_name@),
{
    match find_file_index(folder, file_name) {
        Some(i) => {
            proof {
                lemma_unique_index(*folder, file_name@, i as int);
            }
            Some(&folder.files[i].data)
        },
        None => None,
    }
}

/// Byte-for-byte equality of two file contents: a length check first,
/// then a sequential comparison.
pub fn check_if_files_are_equal(first: &Vec<u8>, second: &Vec<u8>) -> (r: bool)
    ensures
        r == (first@ == second@),
{
    if first.len() != second.len() {
        return false;
    }
    let n = first.len();
    let mut i: usize = 0;
    while i < n
        invariant
            n == first@.len(),
            first@.len() == second@.len(),
            i <= n,
            forall|j: int| 0 <= j < i ==> first@[j] == second@[j],
        decreases n - i,
    {
        if first[i] != second[i] {
            return false;
        }
        i += 1;
    }
    proof {
        assert(first@ =~= second@);
    }
    true
}

fn clone_bytes(data: &Vec<u8>) -> (r: Vec<u8>)
    ensures
        r@ == data@,
{
    let n = data.len();
    let mut out: Vec<u8> = Vec::new();
    let mut i: usize = 0;
    while i < n
        invariant
            n == data@.len(),
            i <= n,
            out@ == data@.subrange(0, i as int),
        decreases n - i,
    {
        out.push(data[i]);
        proof {
            assert(out@ =~= data@.subrange(0, i + 1 as int));
        }
        i += 1;
    }
    proof {
        assert(out@ =~= data@);
    }
    out
}

/// Removing the record at index `k` removes exactly `name` from the view.
proof fn lemma_view_after_remove(pre: Folder, post: Folder, name: Seq<char>, k: int)
    requires
        pre.wf(),
        0 <= k < pre.files@.len(),
        pre.files@[k].name@ == name,
        post.files@ == pre.files@.remove(k),
        post.subdirs@ == pre.subdirs@,
    ensures
        post.wf(),
        post@ == pre@.remove(name),
{
    let prefiles = pre.files@;
    let postfiles = post.files@;
    assert forall|i: int, j: int| 0 <= i < j < postfiles.len() implies postfiles[i].name@
        != postfiles[j].name@ by {
        let pi = if i < k { i } else { i + 1 };
        let pj = if j < k { j } else { j + 1 };
        assert(postfiles[i] == prefiles[pi]);
        assert(postfiles[j] == prefiles[pj]);
    }
    assert forall|i: int, j: int|
        0 <= i < postfiles.len() && 0 <= j < post.subdirs@.len() implies postfiles[i].name@
        != post.subdirs@[j]@ by {
        let pi = if i < k { i } else { i + 1 };
        assert(postfiles[i] == prefiles[pi]);
    }
    assert(post.wf());
    assert forall|nm: Seq<char>| #[trigger] post@.files.contains_key(nm) implies pre@.remove(
        name,
    ).files.contains_key(nm) && post@.files[nm] == pre@.remove(name).files[nm] by {
        let i = choose|i: int| 0 <= i < postfiles.len() && postfiles[i].name@ == nm;
        let pi = if i < k { i } else { i + 1 };
        assert(postfiles[i] == prefiles[pi]);
        assert(pi != k);
        lemma_unique_index(pre, nm, pi);
        if nm == name {
            lemma_unique_index(pre, name, k);
            assert(false);
        }
        lemma_unique_index(post, nm, i);
    }
    assert forall|nm: Seq<char>| #[trigger] pre@.remove(name).files.contains_key(
        nm,
    ) implies post@.files.contains_key(nm) by {
        let pi = choose|i: int| 0 <= i < prefiles.len() && prefiles[i].name@ == nm;
        let i = if pi < k { pi } else { pi - 1 };
        if pi != k {
            assert(postfiles[i] == prefiles[pi]);
        } else {
            assert(nm == name);
        }
    }
    assert(post@.files =~= pre@.remove(name).files);
    assert(post@.dirs =~= pre@.remove(name).dirs);
    assert(post@ =~= pre@.remove(name));
}

/// Pushing a record with a fresh name adds exactly that name to the view.
proof fn lemma_view_after_push(pre: Folder, post: Folder, name: Seq<char>, data: Seq<u8>)
    requires
        pre.wf(),
        !pre@.has_file(name),
        !pre@.dirs.contains(name),
        post.files@.len() == pre.files@.len() + 1,
        post.files@ == pre.files@.push(post.files@.last()),
        post.files@.last().name@ == name,
        post.files@.last().data@ == data,
        post.subdirs@ == pre.subdirs@,
    ensures
        post.wf(),
        post@ == pre@.put(name, data),
{
    let prefiles = pre.files@;
    let postfiles = post.files@;
    let m = prefiles.len() as int;
    assert forall|i: int| 0 <= i < m implies postfiles[i] == prefiles[i] by {}
    assert forall|i: int| 0 <= i < m implies prefiles[i].name@ != name by {
        if prefiles[i].name@ == name {
            assert(pre@.files.contains_key(name));
        }
    }
    assert forall|i: int, j: int| 0 <= i < j < postfiles.len() implies postfiles[i].name@
        != postfiles[j].name@ by {
        if j < m {
            assert(postfiles[i] == prefiles[i]);
            assert(postfiles[j] == prefiles[j]);
        } else {
            assert(postfiles[i] == prefiles[i]);
            assert(postfiles[j].name@ == name);
        }
    }
    assert forall|i: int, j: int|
        0 <= i < postfiles.len() && 0 <= j < post.subdirs@.len() implies postfiles[i].name@
        != post.subdirs@[j]@ by {
        if i < m {
            assert(postfiles[i] == prefiles[i]);
        } else {
            if post.subdirs@[j]@ == name {
                assert(pre@.dirs.contains(name));
            }
        }
    }
    assert(post.wf());
    assert forall|nm: Seq<char>| #[trigger] post@.files.contains_key(nm) implies pre@.put(
        name,
        data,
    ).files.contains_key(nm) && post@.files[nm] == pre@.put(name, data).files[nm] by {
        let i = choose|i: int| 0 <= i < postfiles.len() && postfiles[i].name@ == nm;
        lemma_unique_index(post, nm, i);
        if i < m {
            assert(postfiles[i] == prefiles[i]);
            lemma_unique_index(pre, nm, i);
            assert(nm != name);
        } else {
            assert(nm == name);
            assert(post@.files[nm] == data);
        }
    }
    assert forall|nm: Seq<char>| #[trigger] pre@.put(name, data).files.contains_key(
        nm,
    ) implies post@.files.contains_key(nm) by {
        if nm == name {
            assert(postfiles[m].name@ == nm);
        } else {
            let pi = choose|i: int| 0 <= i < prefiles.len() && prefiles[i].name@ == nm;
            assert(postfiles[pi] == prefiles[pi]);
        }
    }
    assert(post@.files =~= pre@.put(name, data).files);
    assert(post@.dirs =~= pre@.put(name, data).dirs);
    assert(post@ =~= pre@.put(name, data));
}

/// Deletes the file named `file_name` from `folder`; fails without
/// touching the snapshot when no plain file of that name is there — in
/// particular when the name belongs to a subdirectory.
pub fn remove_file(folder: &mut Folder, file_name: &String) -> (r: Result<(), ExecutionError>)
    requires
        old(folder).wf(),
    ensures
        final(folder).wf(),
        r is Ok <==> old(folder)@.has_file(file_name@),
        r is Ok ==> final(folder)@ == old(folder)@.remove(file_name@),
        r is Err ==> *final(folder) == *old(folder) && r matches Err(
            ExecutionError::RemoveFile(_),
        ),
{
    match find_file_index(folder, file_name) {
        Some(k) => {
            let ghost pre = *folder;
            proof {
                lemma_unique_index(*folder, file_name@, k as int);
            }
            folder.files.remove(k);
            proof {
                lemma_view_after_remove(pre, *folder, file_name@, k as int);
            }
            Ok(())
        },
        None => {
            proof {
                assert(!folder@.files.contains_key(file_name@));
            }
            Err(ExecutionError::RemoveFile("no such file in the folder".to_owned()))
        },
    }
}

/// Copies the file `file_name` from `src` into `dst`, replacing the bytes
/// of any file of that name already there; fails without touching `dst`
/// when `src` has no plain file of that name, or when a subdirectory of
/// `dst` blocks the name.
pub fn copy(src: &Folder, dst: &mut Folder, file_name: &String) -> (r: Result<
    (),
    ExecutionError,
>)
    requires
        src.wf(),
        old(dst).wf(),
    ensures
        final(dst).wf(),
        r is Ok <==> src@.has_file(file_name@) && !old(dst)@.dirs.contains(file_name@),
        r is Ok ==> final(dst)@ == old(dst)@.put(file_name@, src@.data_of(file_name@)),
        r is Err ==> *final(dst) == *old(dst) && r matches Err(ExecutionError::CopyFile(_)),
{
    let data = match read_file(src, file_name) {
        Some(data) => clone_bytes(data),
        None => {
            return Err(ExecutionError::CopyFile("no such file in the source folder".to_owned()));
        },
    };
    if find_subdir(dst, file_name) {
        return Err(ExecutionError::CopyFile("a folder of that name is in the way".to_owned()));
    }
    let ghost pre = *dst;
    match find_file_index(dst, file_name) {
        Some(k) => {
            proof {
                lemma_unique_index(*dst, file_name@, k as int);
            }
            dst.files.remove(k);
            proof {
                lemma_view_after_remove(pre, *dst, file_name@, k as int);
            }
        },
        None => {
            proof {
                assert(!pre@.files.contains_key(file_name@));
            }
        },
    }
    let ghost mid = *dst;
    proof {
        assert(!mid@.files.contains_key(file_name@));
        assert(!mid@.dirs.contains(file_name@));
        assert(mid.wf());
    }
    let rec = FileRecord { name: file_name.clone(), data };
    dst.files.push(rec);
    proof {
        lemma_view_after_push(mid, *dst, file_name@, src@.data_of(file_name@));
        assert(mid@.put(file_name@, src@.data_of(file_name@)) =~= pre@.put(
            file_name@,
            src@.data_of(file_name@),
        ));
    }
    Ok(())
}

/// Removing a tracked name leaves it untracked, and adding it back — with
/// whatever contents — makes it tracked again.
pub proof fn lemma_remove_then_put_restores_tracking(
    v: FolderView,
    name: Seq<char>,
    data: Seq<u8>,
)
    ensures
        !v.remove(name).has_file(name),
        v.remove(name).put(name, data).has_file(name),
        v.remove(name).put(name, data).data_of(name) == data,
{
}

} // verus!
