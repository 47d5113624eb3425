//! Planning of a user-file backup: which profile folders are copied where,
//! what each walked entry becomes, and the name of the archive.
//!
//! A path is the sequence of segments that are pushed, in order, onto an empty
//! `PathBuf` (so `Path::new(a).join(b).join(c)` is `[a, b, c]`).
use vstd::prelude::*;
use crate::text::texts;

verus! {

/// The number of profile folders that a backup copies.
pub const FOLDER_COUNT: usize = 6;

/// The profile folders that a backup copies, in order.
pub open spec fn folder(n: int) -> Seq<char> {
    if n == 0 {
        "Desktop"@
    } else if n == 1 {
        "Documents"@
    } else if n == 2 {
        "Downloads"@
    } else if n == 3 {
        "Favorites"@
    } else if n == 4 {
        "Pictures"@
    } else {
        "Videos"@
    }
}

/// The name of the `n`-th profile folder that a backup copies.
pub fn folder_name(n: usize) -> (name: &'static str)
    requires
        n < FOLDER_COUNT,
    ensures
        name@ == folder(n as int),
{
    if n == 0 {
        "Desktop"
    } else if n == 1 {
        "Documents"
    } else if n == 2 {
        "Downloads"
    } else if n == 3 {
        "Favorites"
    } else if n == 4 {
        "Pictures"
    } else {
        "Videos"
    }
}

/// The segments of a path.
pub open spec fn segments(p: Seq<String>) -> Seq<Seq<char>> {
    texts(p)
}

/// Where the user's files are gathered before they are archived: `C:\tmp\<user>`.
pub open spec fn destination_of(user: Seq<char>) -> Seq<Seq<char>> {
    seq!["C:\\"@, "tmp"@, user]
}

/// The user's profile: `C:\Users\<user>`.
pub open spec fn profile_of(user: Seq<char>) -> Seq<Seq<char>> {
    seq!["C:\\"@, "Users"@, user]
}

/// The backup folder and the profile are named after the whole user name:
/// each is three segments, the drive root, `tmp` or `Users`, and the user
/// name unchanged; the archive of the backup folder is the user name
/// followed by `.zip`.
pub proof fn lemma_paths_named_after_user(user: Seq<char>)
    ensures
        destination_of(user).len() == 3,
        destination_of(user).last() == user,
        destination_of(user).drop_last() == seq!["C:\\"@, "tmp"@],
        profile_of(user).len() == 3,
        profile_of(user).last() == user,
        profile_of(user).drop_last() == seq!["C:\\"@, "Users"@],
        destination_of(user).drop_last().push(destination_of(user).last() + ".zip"@) == seq![
            "C:\\"@,
            "tmp"@,
            user + ".zip"@,
        ],
{
    assert(destination_of(user).drop_last() =~= seq!["C:\\"@, "tmp"@]);
    assert(profile_of(user).drop_last() =~= seq!["C:\\"@, "Users"@]);
    assert(destination_of(user).drop_last().push(destination_of(user).last() + ".zip"@) =~= seq![
        "C:\\"@,
        "tmp"@,
        user + ".zip"@,
    ]);
}

/// Why a profile path could not be used.
#[derive(Debug, Clone, Copy, PartialEq, Eq, Structural)]
pub enum PathError {
    /// "Source path does not exist."
    NotFound,
}

impl PathError {
    /// The error's message, as `io::Error` carried it.
    pub fn message(&self) -> (text: String)
        ensures
            *self == PathError::NotFound ==> text@ == "Source path does not exist."@,
    {
        match self {
            PathError::NotFound => String::from_str("Source path does not exist."),
        }
    }
}

/// A path, or why there is none.
pub open spec fn path_view(r: Result<Vec<String>, PathError>) -> Result<Seq<Seq<char>>, PathError> {
    match r {
        Ok(p) => Ok(segments(p@)),
        Err(e) => Err(e),
    }
}

fn copy_path(p: &Vec<String>) -> (res: Vec<String>)
    ensures
        segments(res@) == segments(p@),
{
    let mut res: Vec<String> = Vec::new();
    let n = p.len();
    let mut i: usize = 0;
    while i < n
        invariant
            n == p@.len(),
            i <= n,
            segments(res@) == segments(p@).take(i as int),
        decreases n - i,
    {
        let ghost before = res@;
        let item = p[i].clone();
        res.push(item);
        assert(item == p@[i as int]);
        assert(res@ == before.push(item));
        assert(segments(res@) =~= segments(before).push(item@));
        assert(segments(res@) =~= segments(p@).take(i + 1));
        i = i + 1;
    }
    assert(segments(p@).take(n as int) =~= segments(p@));
    res
}

fn three_segments(a: &str, b: &str, c: &str) -> (res: Vec<String>)
    ensures
        segments(res@) == seq![a@, b@, c@],
        res@.len() == 3,
        res@[0]@ == a@,
        res@[1]@ == b@,
        res@[2]@ == c@,
{
    let mut res: Vec<String> = Vec::new();
    res.push(String::from_str(a));
    res.push(String::from_str(b));
    res.push(String::from_str(c));
    assert(segments(res@) =~= seq![a@, b@, c@]);
    res
}

/// The folder that receives the backup: `C:\tmp\<user>`.
pub fn get_destination_path(user: &str) -> (p: Vec<String>)
    ensures
        segments(p@) == destination_of(user@),
        p@.len() == 3,
        p@[0]@ == "C:\\"@,
        p@[1]@ == "tmp"@,
        p@[2]@ == user@,
{
    three_segments("C:\\", "tmp", user)
}

/// The user's profile folder, `C:\Users\<user>`, whose existence decides `get_source_path`.
pub fn source_path(user: &str) -> (p: Vec<String>)
    ensures
        segments(p@) == profile_of(user@),
        p@.len() == 3,
        p@[0]@ == "C:\\"@,
        p@[1]@ == "Users"@,
        p@[2]@ == user@,
{
    three_segments("C:\\", "Users", user)
}

/// The profile folder `C:\Users\<user>` when it exists (`exists` tells
/// whether `source_path(user)` does), `NotFound` otherwise.
pub fn get_source_path(user: &str, exists: bool) -> (res: Result<Vec<String>, PathError>)
    ensures
        exists ==> path_view(res) == Ok::<Seq<Seq<char>>, PathError>(profile_of(user@)),
        !exists ==> res == Err::<Vec<String>, PathError>(PathError::NotFound),
{
    let p = source_path(user);
    if exists {
        Ok(p)
    } else {
        Err(PathError::NotFound)
    }
}

/// One profile path per folder to copy, appended to `source_paths`.
pub fn init_source_paths(
    source_paths: &mut Vec<Result<Vec<String>, PathError>>,
    user: &str,
    exists: bool,
)
    ensures
        final(source_paths)@.len() == old(source_paths)@.len() + FOLDER_COUNT,
        forall|i: int|
            0 <= i < old(source_paths)@.len() ==> #[trigger] final(source_paths)@[i]
                == old(source_paths)@[i],
        forall|i: int|
            old(source_paths)@.len() <= i < final(source_paths)@.len() ==> path_view(
                #[trigger] final(source_paths)@[i],
            ) == (if exists {
                Ok::<Seq<Seq<char>>, PathError>(profile_of(user@))
            } else {
                Err::<Seq<Seq<char>>, PathError>(PathError::NotFound)
            }),
{
    let ghost start = source_paths@.len();
    let mut k: usize = 0;
    while k < FOLDER_COUNT
        invariant
            k <= FOLDER_COUNT,
            source_paths@.len() == start + k,
            start == old(source_paths)@.len(),
            forall|i: int| 0 <= i < start ==> #[trigger] source_paths@[i] == old(source_paths)@[i],
            forall|i: int|
                start <= i < source_paths@.len() ==> path_view(#[trigger] source_paths@[i]) == (
                if exists {
                    Ok::<Seq<Seq<char>>, PathError>(profile_of(user@))
                } else {
                    Err::<Seq<Seq<char>>, PathError>(PathError::NotFound)
                }),
        decreases FOLDER_COUNT - k,
    {
        source_paths.push(get_source_path(user, exists));
        k = k + 1;
    }
}

/// One backup destination per folder to copy, appended to `destination_paths`.
pub fn init_destination_paths(destination_paths: &mut Vec<Vec<String>>, user: &str)
    ensures
        final(destination_paths)@.len() == old(destination_paths)@.len() + FOLDER_COUNT,
        forall|i: int|
            0 <= i < old(destination_paths)@.len() ==> #[trigger] final(destination_paths)@[i]
                == old(destination_paths)@[i],
        forall|i: int|
            old(destination_paths)@.len() <= i < final(destination_paths)@.len() ==> segments(
                #[trigger] final(destination_paths)@[i]@,
            ) == destination_of(user@),
{
    let ghost start = destination_paths@.len();
    let mut k: usize = 0;
    while k < FOLDER_COUNT
        invariant
            k <= FOLDER_COUNT,
            destination_paths@.len() == start + k,
            start == old(destination_paths)@.len(),
            forall|i: int|
                0 <= i < start ==> #[trigger] destination_paths@[i] == old(destination_paths)@[i],
            forall|i: int|
                start <= i < destination_paths@.len() ==> segments(
                    #[trigger] destination_paths@[i]@,
                ) == destination_of(user@),
        decreases FOLDER_COUNT - k,
    {
        destination_paths.push(get_destination_path(user));
        k = k + 1;
    }
}

/// The path with the name of the `n`-th profile folder pushed, for the first
/// `FOLDER_COUNT` positions; later positions are left as they are.
pub open spec fn with_folder(n: int, p: Seq<Seq<char>>) -> Seq<Seq<char>> {
    if n < FOLDER_COUNT {
        p.push(folder(n))
    } else {
        p
    }
}

/// Each successful source path has the name of the folder at its position
/// pushed (the first folder name on the first path, and so on); failed ones
/// stay as they are.
pub fn append_source_paths(src_paths_vec: &mut Vec<Result<Vec<String>, PathError>>)
    ensures
        final(src_paths_vec)@.len() == old(src_paths_vec)@.len(),
        forall|i: int|
            0 <= i < old(src_paths_vec)@.len() ==> path_view(#[trigger] final(src_paths_vec)@[i])
                == match path_view(old(src_paths_vec)@[i]) {
                Ok(p) => Ok::<Seq<Seq<char>>, PathError>(with_folder(i, p)),
                Err(e) => Err(e),
            },
{
    let n = src_paths_vec.len();
    let mut i: usize = 0;
    while i < n
        invariant
            n == src_paths_vec@.len(),
            n == old(src_paths_vec)@.len(),
            i <= n,
            forall|k: int| i <= k < n ==> #[trigger] src_paths_vec@[k] == old(src_paths_vec)@[k],
            forall|k: int|
                0 <= k < i ==> path_view(#[trigger] src_paths_vec@[k]) == match path_view(
                    old(src_paths_vec)@[k],
                ) {
                    Ok(p) => Ok::<Seq<Seq<char>>, PathError>(with_folder(k, p)),
                    Err(e) => Err(e),
                },
        decreases n - i,
    {
        let updated = match &src_paths_vec[i] {
            Ok(path) => {
                let mut modified_path = copy_path(path);
                if i < FOLDER_COUNT {
                    let ghost before = modified_path@;
                    let name = String::from_str(folder_name(i));
                    modified_path.push(name);
                    assert(segments(modified_path@) =~= segments(before).push(folder(i as int)));
                }
                Ok(modified_path)
            },
            Err(err) => Err(*err),
        };
        src_paths_vec.set(i, updated);
        i = i + 1;
    }
}

/// Each destination path has the name of the folder at its position pushed.
pub fn append_destination_paths(dst_paths_vec: &mut Vec<Vec<String>>)
    ensures
        final(dst_paths_vec)@.len() == old(dst_paths_vec)@.len(),
        forall|i: int|
            0 <= i < old(dst_paths_vec)@.len() ==> segments(#[trigger] final(dst_paths_vec)@[i]@)
                == with_folder(i, segments(old(dst_paths_vec)@[i]@)),
{
    let n = dst_paths_vec.len();
    let mut i: usize = 0;
    while i < n
        invariant
            n == dst_paths_vec@.len(),
            n == old(dst_paths_vec)@.len(),
            i <= n,
            forall|k: int| i <= k < n ==> #[trigger] dst_paths_vec@[k] == old(dst_paths_vec)@[k],
            forall|k: int|
                0 <= k < i ==> segments(#[trigger] dst_paths_vec@[k]@) == with_folder(
                    k,
                    segments(old(dst_paths_vec)@[k]@),
                ),
        decreases n - i,
    {
        let mut modified_path = copy_path(&dst_paths_vec[i]);
        if i < FOLDER_COUNT {
            let ghost before = modified_path@;
            let name = String::from_str(folder_name(i));
            modified_path.push(name);
            assert(segments(modified_path@) =~= segments(before).push(folder(i as int)));
        }
        dst_paths_vec.set(i, modified_path);
        i = i + 1;
    }
}

/// After `init_source_paths` and `init_destination_paths` on empty vectors,
/// then `append_source_paths` and `append_destination_paths`, the `n`-th
/// source is `C:\Users\<user>\<folder n>` (when the profile exists) and the
/// `n`-th destination is `C:\tmp\<user>\<folder n>`: each profile folder is
/// copied into the folder of the same name in the backup.
pub proof fn lemma_backup_folder_pairs(
    user: Seq<char>,
    exists: bool,
    initial_sources: Seq<Result<Vec<String>, PathError>>,
    sources: Seq<Result<Vec<String>, PathError>>,
    initial_destinations: Seq<Vec<String>>,
    destinations: Seq<Vec<String>>,
    n: int,
)
    requires
        initial_sources.len() == FOLDER_COUNT,
        forall|i: int|
            0 <= i < initial_sources.len() ==> path_view(#[trigger] initial_sources[i]) == (if exists {
                Ok::<Seq<Seq<char>>, PathError>(profile_of(user))
            } else {
                Err::<Seq<Seq<char>>, PathError>(PathError::NotFound)
            }),
        sources.len() == initial_sources.len(),
        forall|i: int|
            0 <= i < initial_sources.len() ==> path_view(#[trigger] sources[i]) == match path_view(
                initial_sources[i],
            ) {
                Ok(p) => Ok::<Seq<Seq<char>>, PathError>(with_folder(i, p)),
                Err(e) => Err(e),
            },
        initial_destinations.len() == FOLDER_COUNT,
        forall|i: int|
            0 <= i < initial_destinations.len() ==> segments(#[trigger] initial_destinations[i]@)
                == destination_of(user),
        destinations.len() == initial_destinations.len(),
        forall|i: int|
            0 <= i < initial_destinations.len() ==> segments(#[trigger] destinations[i]@)
                == with_folder(i, segments(initial_destinations[i]@)),
        0 <= n < FOLDER_COUNT,
    ensures
        exists ==> path_view(sources[n]) == Ok::<Seq<Seq<char>>, PathError>(
            profile_of(user).push(folder(n)),
        ),
        !exists ==> path_view(sources[n]) == Err::<Seq<Seq<char>>, PathError>(PathError::NotFound),
        segments(destinations[n]@) == destination_of(user).push(folder(n)),
{
    assert(path_view(sources[n]) == match path_view(initial_sources[n]) {
        Ok(p) => Ok::<Seq<Seq<char>>, PathError>(with_folder(n, p)),
        Err(e) => Err(e),
    });
    assert(segments(destinations[n]@) == with_folder(n, segments(initial_destinations[n]@)));
}

/// What kind of entry a walk of the profile yields.
#[derive(Debug, Clone, Copy, PartialEq, Eq, Structural)]
pub enum EntryKind {
    File,
    Directory,
    Other,
}

/// What to do with one entry met while copying a profile folder.
pub enum CopyStep {
    /// The entry is a `desktop.ini` file, which is not copied.
    Skip,
    /// Copy the file to this path, creating its parent folders.
    CopyFile(Vec<String>),
    /// Create this folder and its parents.
    MakeDirectory(Vec<String>),
    /// Neither a file nor a folder: nothing to do.
    Nothing,
}

/// The step that copies an entry whose path, relative to the folder being
/// copied, has segments `relative`, into the destination folder `dst`.
/// `file_name` is the entry's file name, if it has one.
pub fn copy_step(dst: &Vec<String>, relative: &Vec<String>, file_name: &Option<String>, kind: EntryKind) -> (step: CopyStep)
    ensures
        (file_name matches Some(f) && f@ == "desktop.ini"@) ==> step is Skip,
        !(file_name matches Some(f) && f@ == "desktop.ini"@) ==> match kind {
            EntryKind::File => step matches CopyStep::CopyFile(to) && segments(to@) == segments(dst@) + segments(relative@),
            EntryKind::Directory => step matches CopyStep::MakeDirectory(to) && segments(to@) == segments(dst@)
                + segments(relative@),
            EntryKind::Other => step is Nothing,
        },
{
    let skip = match file_name {
        Some(f) => *f == String::from_str("desktop.ini"),
        None => false,
    };
    if skip {
        return CopyStep::Skip;
    }
    let mut to = copy_path(dst);
    let n = relative.len();
    let mut i: usize = 0;
    while i < n
        invariant
            n == relative@.len(),
            i <= n,
            segments(to@) == segments(dst@) + segments(relative@).take(i as int),
        decreases n - i,
    {
        let ghost before = to@;
        let item = relative[i].clone();
        to.push(item);
        assert(segments(to@) =~= segments(before).push(item@));
        assert(segments(relative@).take(i + 1) =~= segments(relative@).take(i as int).push(item@));
        i = i + 1;
    }
    assert(segments(relative@).take(n as int) =~= segments(relative@));
    match kind {
        EntryKind::File => CopyStep::CopyFile(to),
        EntryKind::Directory => CopyStep::MakeDirectory(to),
        EntryKind::Other => CopyStep::Nothing,
    }
}

/// The archive path for the backup folder: the folder's own name followed by
/// `.zip`, beside the folder (`C:\tmp\<user>` gives `C:\tmp\<user>.zip`).
pub fn zip_path(destination: &Vec<String>) -> (res: Vec<String>)
    requires
        destination@.len() > 0,
    ensures
        segments(res@) == segments(destination@).drop_last().push(
            destination@.last()@ + ".zip"@,
        ),
{
    let n = destination.len();
    let mut new_name = destination[n - 1].clone();
    new_name.append(".zip");
    let mut res: Vec<String> = Vec::new();
    let mut i: usize = 0;
    while i + 1 < n
        invariant
            n == destination@.len(),
            n > 0,
            i < n,
            segments(res@) == segments(destination@).take(i as int),
        decreases n - i,
    {
        let ghost before = res@;
        let item = destination[i].clone();
        res.push(item);
        assert(segments(res@) =~= segments(before).push(item@));
        assert(segments(destination@).take(i + 1) =~= segments(destination@).take(i as int).push(
            item@,
        ));
        i = i + 1;
    }
    let ghost before = res@;
    res.push(new_name);
    assert(segments(res@) =~= segments(before).push(new_name@));
    assert(segments(destination@).drop_last() =~= segments(destination@).take(i as int));
    res
}

/// What to do with one entry met while archiving the backup folder.
#[derive(Debug, Clone, Copy, PartialEq, Eq, Structural)]
pub enum ZipStep {
    /// Add the file's contents under its relative name.
    AddFile,
    /// Add a directory entry under its relative name.
    AddDirectory,
    /// The backup folder itself: nothing to add.
    Skip,
}

/// The step for an entry whose path relative to the backup folder has
/// segments `name`: files are added, other entries become directories,
/// except the backup folder itself (no segments).
pub fn zip_step(is_file: bool, name: &Vec<String>) -> (step: ZipStep)
    ensures
        is_file ==> step == ZipStep::AddFile,
        !is_file && name@.len() > 0 ==> step == ZipStep::AddDirectory,
        !is_file && name@.len() == 0 ==> step == ZipStep::Skip,
{
    if is_file {
        ZipStep::AddFile
    } else if name.len() > 0 {
        ZipStep::AddDirectory
    } else {
        ZipStep::Skip
    }
}

} // verus!
