//! The macOS binary search: candidate directories and first match.
//!
//! On macOS, binaries installed by package managers often sit outside the
//! search path a GUI process inherits.  The search therefore collects, in a
//! fixed order and without duplicates: the inherited search path, the
//! directories named in `/etc/paths` and the files of `/etc/paths.d`, a
//! fixed list of well-known install prefixes, per-user binary directories
//! under the home directory, and the pipx binary directory.  The caller
//! reads those files and probes the filesystem; the ordering, splitting,
//! deduplication and first-match selection are pure functions here.
//! Directories are compared textually when deduplicating.

use vstd::prelude::*;

use crate::platform::{join_path, spec_join_path, Platform};
use crate::text::{chars_string, spec_split_char, spec_trim, split_char, str_chars, trim};

verus! {

/// What the caller read from the environment for one search.
pub struct SearchEnv {
    /// The inherited executable search path, colon-separated.
    pub path_var: Option<String>,
    /// The contents of `/etc/paths`, when readable.
    pub etc_paths: Option<String>,
    /// The contents of each readable file under `/etc/paths.d`, in
    /// directory order.
    pub paths_d: Vec<String>,
    /// The user's home directory.
    pub home_dir: Option<String>,
    /// The pipx binary directory, when the environment names one.
    pub pipx_bin_dir: Option<String>,
}

/// The mathematical content of a [`SearchEnv`].
pub ghost struct SearchEnvView {
    pub path_var: Option<Seq<char>>,
    pub etc_paths: Option<Seq<char>>,
    pub paths_d: Seq<Seq<char>>,
    pub home_dir: Option<Seq<char>>,
    pub pipx_bin_dir: Option<Seq<char>>,
}

impl View for SearchEnv {
    type V = SearchEnvView;

    open spec fn view(&self) -> SearchEnvView {
        SearchEnvView {
            path_var: self.path_var.deep_view(),
            etc_paths: self.etc_paths.deep_view(),
            paths_d: self.paths_d.deep_view(),
            home_dir: self.home_dir.deep_view(),
            pipx_bin_dir: self.pipx_bin_dir.deep_view(),
        }
    }
}

/// `acc` extended by `d`, unless `d` is already present: insertion order
/// is kept and the first occurrence wins.
pub open spec fn spec_push_unique(acc: Seq<Seq<char>>, d: Seq<char>) -> Seq<Seq<char>> {
    if acc.contains(d) {
        acc
    } else {
        acc.push(d)
    }
}

/// `acc` extended by every item of `items` in order, without duplicates.
pub open spec fn spec_add_all(acc: Seq<Seq<char>>, items: Seq<Seq<char>>) -> Seq<Seq<char>>
    decreases items.len(),
{
    if items.len() == 0 {
        acc
    } else {
        spec_add_all(spec_push_unique(acc, items[0]), items.subrange(1, items.len() as int))
    }
}

/// `acc` extended by the trimmed, non-blank members of `pieces`, in order,
/// without duplicates.
pub open spec fn spec_add_lines(acc: Seq<Seq<char>>, pieces: Seq<Seq<char>>) -> Seq<Seq<char>>
    decreases pieces.len(),
{
    if pieces.len() == 0 {
        acc
    } else {
        let t = spec_trim(pieces[0]);
        let next = if t.len() > 0 {
            spec_push_unique(acc, t)
        } else {
            acc
        };
        spec_add_lines(next, pieces.subrange(1, pieces.len() as int))
    }
}

/// `acc` extended by the directories named in one search-path config
/// file: its lines, trimmed, blank ones skipped.
pub open spec fn spec_add_config(acc: Seq<Seq<char>>, content: Seq<char>) -> Seq<Seq<char>> {
    spec_add_lines(acc, spec_split_char(content, '\n'))
}

/// `acc` extended by the directories of every config file in `files`.
pub open spec fn spec_add_config_files(acc: Seq<Seq<char>>, files: Seq<Seq<char>>) -> Seq<
    Seq<char>,
>
    decreases files.len(),
{
    if files.len() == 0 {
        acc
    } else {
        spec_add_config_files(
            spec_add_config(acc, files[0]),
            files.subrange(1, files.len() as int),
        )
    }
}

/// The fixed list of well-known macOS install directories, in search
/// order.
pub open spec fn spec_fixed_dirs() -> Seq<Seq<char>> {
    seq![
        "/opt/homebrew/bin"@,
        "/opt/homebrew/sbin"@,
        "/opt/homebrew/opt/ffmpeg/bin"@,
        "/opt/homebrew/opt/yt-dlp/bin"@,
        "/opt/local/bin"@,
        "/opt/local/sbin"@,
        "/usr/local/bin"@,
        "/usr/local/sbin"@,
        "/usr/local/opt/ffmpeg/bin"@,
        "/usr/local/opt/yt-dlp/bin"@,
        "/usr/bin"@,
        "/bin"@,
        "/usr/sbin"@,
        "/sbin"@,
    ]
}

/// The per-user binary directories under a home directory, in search
/// order: `bin`, `.local/bin`, the Python user-install locations, and the
/// user Homebrew location.
pub open spec fn spec_home_dirs(home: Seq<char>) -> Seq<Seq<char>> {
    seq![
        spec_join_path(home, "bin"@, Platform::MacOs),
        spec_join_path(home, ".local/bin"@, Platform::MacOs),
        spec_join_path(home, "Library/Python/3.7/bin"@, Platform::MacOs),
        spec_join_path(home, "Library/Python/3.8/bin"@, Platform::MacOs),
        spec_join_path(home, "Library/Python/3.9/bin"@, Platform::MacOs),
        spec_join_path(home, "Library/Python/3.10/bin"@, Platform::MacOs),
        spec_join_path(home, "Library/Python/3.11/bin"@, Platform::MacOs),
        spec_join_path(home, "Library/Python/3.12/bin"@, Platform::MacOs),
        spec_join_path(home, "Library/Application Support/Homebrew/bin"@, Platform::MacOs),
    ]
}

/// Every directory the search considers, in order, deduplicated: the
/// inherited search path, `/etc/paths`, the `/etc/paths.d` files, the
/// fixed install prefixes, the per-user directories, and the pipx
/// directory.
pub open spec fn spec_candidate_dirs(env: SearchEnvView) -> Seq<Seq<char>> {
    let a1 = match env.path_var {
        Some(s) => spec_add_all(Seq::empty(), spec_split_char(s, ':')),
        None => Seq::empty(),
    };
    let a2 = match env.etc_paths {
        Some(c) => spec_add_config(a1, c),
        None => a1,
    };
    let a3 = spec_add_config_files(a2, env.paths_d);
    let a4 = spec_add_all(a3, spec_fixed_dirs());
    let a5 = match env.home_dir {
        Some(h) => spec_add_all(a4, spec_home_dirs(h)),
        None => a4,
    };
    match env.pipx_bin_dir {
        Some(px) => spec_push_unique(a5, px),
        None => a5,
    }
}

/// The candidate executable paths: every directory joined with every
/// searched name, directories outermost.
pub open spec fn spec_files_for_dirs(
    acc: Seq<Seq<char>>,
    dirs: Seq<Seq<char>>,
    names: Seq<Seq<char>>,
) -> Seq<Seq<char>>
    decreases dirs.len(),
{
    if dirs.len() == 0 {
        acc
    } else {
        spec_files_for_dirs(
            acc + spec_join_names(dirs[0], names),
            dirs.subrange(1, dirs.len() as int),
            names,
        )
    }
}

/// One directory joined with each searched name, in order.
pub open spec fn spec_join_names(dir: Seq<char>, names: Seq<Seq<char>>) -> Seq<Seq<char>>
    decreases names.len(),
{
    if names.len() == 0 {
        Seq::empty()
    } else {
        seq![spec_join_path(dir, names[0], Platform::MacOs)] + spec_join_names(
            dir,
            names.subrange(1, names.len() as int),
        )
    }
}

/// The candidate executable paths of one search.
pub open spec fn spec_candidate_files(env: SearchEnvView, names: Seq<Seq<char>>) -> Seq<
    Seq<char>,
> {
    spec_files_for_dirs(Seq::empty(), spec_candidate_dirs(env), names)
}

/// The index of the first `true` in `exists`, if any.
pub open spec fn spec_first_true(exists: Seq<bool>) -> Option<int>
    decreases exists.len(),
{
    if exists.len() == 0 {
        None
    } else if exists[0] {
        Some(0)
    } else {
        match spec_first_true(exists.subrange(1, exists.len() as int)) {
            Some(i) => Some(i + 1),
            None => None,
        }
    }
}

/// Appends `d` to `dirs` unless an equal directory is already present.
fn push_unique(dirs: &mut Vec<String>, d: String)
    ensures
        final(dirs).deep_view() == spec_push_unique(old(dirs).deep_view(), d@),
{
    let mut i: usize = 0;
    while i < dirs.len()
        invariant
            i <= dirs@.len(),
            forall|k: int| 0 <= k < i ==> dirs@[k]@ != d@,
            dirs@ == old(dirs)@,
        decreases dirs@.len() - i,
    {
        if dirs[i].eq(&d) {
            proof {
                assert(dirs.deep_view()[i as int] == d@);
                assert(dirs.deep_view().contains(d@));
            }
            return ;
        }
        i = i + 1;
    }
    proof {
        assert(forall|k: int|
            0 <= k < dirs.deep_view().len() ==> dirs.deep_view()[k] != d@);
        assert(!dirs.deep_view().contains(d@));
    }
    let ghost dv0 = dirs.deep_view();
    dirs.push(d);
    proof {
        assert(dirs.deep_view() =~= dv0.push(dirs@.last()@));
    }
}

/// Appends every item of `items`, in order, skipping duplicates.
fn add_all_unique(dirs: &mut Vec<String>, items: &Vec<String>)
    ensures
        final(dirs).deep_view() == spec_add_all(old(dirs).deep_view(), items.deep_view()),
{
    let ghost target = spec_add_all(old(dirs).deep_view(), items.deep_view());
    let mut i: usize = 0;
    proof {
        assert(items.deep_view().subrange(0, items.deep_view().len() as int)
            =~= items.deep_view());
    }
    while i < items.len()
        invariant
            i <= items@.len(),
            target == spec_add_all(
                dirs.deep_view(),
                items.deep_view().subrange(i as int, items.deep_view().len() as int),
            ),
        decreases items@.len() - i,
    {
        let ghost rest = items.deep_view().subrange(i as int, items.deep_view().len() as int);
        push_unique(dirs, items[i].clone());
        proof {
            assert(rest.subrange(1, rest.len() as int) =~= items.deep_view().subrange(
                i + 1,
                items.deep_view().len() as int,
            ));
        }
        i = i + 1;
    }
    proof {
        assert(items.deep_view().subrange(
            items.deep_view().len() as int,
            items.deep_view().len() as int,
        ) =~= Seq::<Seq<char>>::empty());
    }
}

/// Adds the directories named in one config file: its lines, trimmed,
/// blank ones skipped, without duplicates.
fn add_config_lines(dirs: &mut Vec<String>, content: &String)
    ensures
        final(dirs).deep_view() == spec_add_config(old(dirs).deep_view(), content@),
{
    let chars = str_chars(content.as_str());
    let pieces = split_char(&chars, '\n');
    let ghost piece_seq = spec_split_char(content@, '\n');
    let ghost target = spec_add_lines(old(dirs).deep_view(), piece_seq);
    let mut i: usize = 0;
    proof {
        assert(piece_seq.subrange(0, piece_seq.len() as int) =~= piece_seq);
    }
    while i < pieces.len()
        invariant
            i <= pieces@.len(),
            pieces@.len() == piece_seq.len(),
            forall|k: int| 0 <= k < pieces@.len() ==> pieces@[k]@ == piece_seq[k],
            target == spec_add_lines(
                dirs.deep_view(),
                piece_seq.subrange(i as int, piece_seq.len() as int),
            ),
        decreases pieces@.len() - i,
    {
        let ghost rest = piece_seq.subrange(i as int, piece_seq.len() as int);
        let t = trim(&pieces[i]);
        if t.len() > 0 {
            push_unique(dirs, chars_string(&t));
        }
        proof {
            assert(rest[0] == piece_seq[i as int]);
            assert(rest.subrange(1, rest.len() as int) =~= piece_seq.subrange(
                i + 1,
                piece_seq.len() as int,
            ));
        }
        i = i + 1;
    }
    proof {
        assert(piece_seq.subrange(piece_seq.len() as int, piece_seq.len() as int)
            =~= Seq::<Seq<char>>::empty());
    }
}

/// Collects every directory the search considers, in order, without
/// duplicates.
pub fn candidate_directories(env: &SearchEnv) -> (r: Vec<String>)
    ensures
        r.deep_view() == spec_candidate_dirs(env@),
{
    let mut dirs: Vec<String> = Vec::new();
    proof {
        assert(dirs.deep_view() =~= Seq::<Seq<char>>::empty());
    }
    match &env.path_var {
        Some(s) => {
            let chars = str_chars(s.as_str());
            let pieces = split_char(&chars, ':');
            let mut items: Vec<String> = Vec::new();
            let mut i: usize = 0;
            while i < pieces.len()
                invariant
                    i <= pieces@.len(),
                    pieces@.len() == spec_split_char(s@, ':').len(),
                    forall|k: int|
                        0 <= k < pieces@.len() ==> pieces@[k]@ == spec_split_char(s@, ':')[k],
                    items.deep_view() =~= spec_split_char(s@, ':').subrange(0, i as int),
                decreases pieces@.len() - i,
            {
                let ghost dv0 = items.deep_view();
                items.push(chars_string(&pieces[i]));
                proof {
                    assert(items.deep_view() =~= dv0.push(items@.last()@));
                    assert(items.deep_view() =~= spec_split_char(s@, ':').subrange(0, i + 1));
                }
                i = i + 1;
            }
            proof {
                assert(items.deep_view() =~= spec_split_char(s@, ':'));
            }
            add_all_unique(&mut dirs, &items);
        },
        None => {},
    }
    match &env.etc_paths {
        Some(c) => {
            add_config_lines(&mut dirs, c);
        },
        None => {},
    }
    let ghost after_etc = dirs.deep_view();
    let mut i: usize = 0;
    proof {
        assert(env@.paths_d.subrange(0, env@.paths_d.len() as int) =~= env@.paths_d);
    }
    while i < env.paths_d.len()
        invariant
            i <= env.paths_d@.len(),
            env@.paths_d.len() == env.paths_d@.len(),
            forall|k: int| 0 <= k < env.paths_d@.len() ==> env@.paths_d[k] == env.paths_d@[k]@,
            spec_add_config_files(after_etc, env@.paths_d) == spec_add_config_files(
                dirs.deep_view(),
                env@.paths_d.subrange(i as int, env@.paths_d.len() as int),
            ),
        decreases env.paths_d@.len() - i,
    {
        let ghost rest = env@.paths_d.subrange(i as int, env@.paths_d.len() as int);
        add_config_lines(&mut dirs, &env.paths_d[i]);
        proof {
            assert(rest.subrange(1, rest.len() as int) =~= env@.paths_d.subrange(
                i + 1,
                env@.paths_d.len() as int,
            ));
        }
        i = i + 1;
    }
    proof {
        assert(env@.paths_d.subrange(env@.paths_d.len() as int, env@.paths_d.len() as int)
            =~= Seq::<Seq<char>>::empty());
    }
    let mut fixed: Vec<String> = Vec::new();
    fixed.push(String::from_str("/opt/homebrew/bin"));
    fixed.push(String::from_str("/opt/homebrew/sbin"));
    fixed.push(String::from_str("/opt/homebrew/opt/ffmpeg/bin"));
    fixed.push(String::from_str("/opt/homebrew/opt/yt-dlp/bin"));
    fixed.push(String::from_str("/opt/local/bin"));
    fixed.push(String::from_str("/opt/local/sbin"));
    fixed.push(String::from_str("/usr/local/bin"));
    fixed.push(String::from_str("/usr/local/sbin"));
    fixed.push(String::from_str("/usr/local/opt/ffmpeg/bin"));
    fixed.push(String::from_str("/usr/local/opt/yt-dlp/bin"));
    fixed.push(String::from_str("/usr/bin"));
    fixed.push(String::from_str("/bin"));
    fixed.push(String::from_str("/usr/sbin"));
    fixed.push(String::from_str("/sbin"));
    proof {
        assert(fixed.deep_view() =~= spec_fixed_dirs());
    }
    add_all_unique(&mut dirs, &fixed);
    match &env.home_dir {
        Some(h) => {
            let mut home_dirs: Vec<String> = Vec::new();
            home_dirs.push(join_path(h, "bin", Platform::MacOs));
            home_dirs.push(join_path(h, ".local/bin", Platform::MacOs));
            home_dirs.push(join_path(h, "Library/Python/3.7/bin", Platform::MacOs));
            home_dirs.push(join_path(h, "Library/Python/3.8/bin", Platform::MacOs));
            home_dirs.push(join_path(h, "Library/Python/3.9/bin", Platform::MacOs));
            home_dirs.push(join_path(h, "Library/Python/3.10/bin", Platform::MacOs));
            home_dirs.push(join_path(h, "Library/Python/3.11/bin", Platform::MacOs));
            home_dirs.push(join_path(h, "Library/Python/3.12/bin", Platform::MacOs));
            home_dirs.push(
                join_path(h, "Library/Application Support/Homebrew/bin", Platform::MacOs),
            );
            proof {
                assert(home_dirs.deep_view() =~= spec_home_dirs(h@));
            }
            add_all_unique(&mut dirs, &home_dirs);
        },
        None => {},
    }
    match &env.pipx_bin_dir {
        Some(px) => {
            push_unique(&mut dirs, px.clone());
        },
        None => {},
    }
    dirs
}

/// Builds the full ordered list of candidate executable paths for the
/// searched names.
pub fn candidate_files(env: &SearchEnv, names: &Vec<String>) -> (r: Vec<String>)
    ensures
        r.deep_view() == spec_candidate_files(env@, names.deep_view()),
{
    let dirs = candidate_directories(env);
    let mut files: Vec<String> = Vec::new();
    proof {
        assert(files.deep_view() =~= Seq::<Seq<char>>::empty());
        assert(dirs.deep_view().subrange(0, dirs.deep_view().len() as int)
            =~= dirs.deep_view());
    }
    let mut i: usize = 0;
    while i < dirs.len()
        invariant
            i <= dirs@.len(),
            dirs@.len() == dirs.deep_view().len(),
            spec_candidate_files(env@, names.deep_view()) == spec_files_for_dirs(
                files.deep_view(),
                dirs.deep_view().subrange(i as int, dirs.deep_view().len() as int),
                names.deep_view(),
            ),
        decreases dirs@.len() - i,
    {
        let ghost rest = dirs.deep_view().subrange(i as int, dirs.deep_view().len() as int);
        let ghost before = files.deep_view();
        let dir = &dirs[i];
        let mut j: usize = 0;
        while j < names.len()
            invariant
                j <= names@.len(),
                0 <= i < dirs@.len(),
                dir == dirs@[i as int],
                files.deep_view() =~= before + spec_join_names(
                    dirs.deep_view()[i as int],
                    names.deep_view().subrange(0, j as int),
                ),
            decreases names@.len() - j,
        {
            let ghost dv0 = files.deep_view();
            files.push(join_path(dir, names[j].as_str(), Platform::MacOs));
            proof {
                assert(files.deep_view() =~= dv0.push(files@.last()@));
                lemma_join_names_snoc(
                    dirs.deep_view()[i as int],
                    names.deep_view(),
                    j as int,
                );
            }
            j = j + 1;
        }
        proof {
            assert(names.deep_view().subrange(0, names.deep_view().len() as int)
                =~= names.deep_view());
            assert(rest.subrange(1, rest.len() as int) =~= dirs.deep_view().subrange(
                i + 1,
                dirs.deep_view().len() as int,
            ));
            assert(rest[0] == dirs.deep_view()[i as int]);
        }
        i = i + 1;
    }
    proof {
        assert(dirs.deep_view().subrange(
            dirs.deep_view().len() as int,
            dirs.deep_view().len() as int,
        ) =~= Seq::<Seq<char>>::empty());
    }
    files
}

proof fn lemma_join_names_snoc(dir: Seq<char>, names: Seq<Seq<char>>, j: int)
    requires
        0 <= j < names.len(),
    ensures
        spec_join_names(dir, names.subrange(0, j + 1)) == spec_join_names(
            dir,
            names.subrange(0, j),
        ).push(spec_join_path(dir, names[j], Platform::MacOs)),
    decreases j,
{
    let p1 = names.subrange(0, j + 1);
    let p0 = names.subrange(0, j);
    if j == 0 {
        assert(p0 =~= Seq::<Seq<char>>::empty());
        assert(p1 =~= seq![names[0]]);
        assert(p1.subrange(1, 1) =~= Seq::<Seq<char>>::empty());
        assert(spec_join_names(dir, p1) =~= spec_join_names(dir, p0).push(
            spec_join_path(dir, names[0], Platform::MacOs),
        ));
    } else {
        lemma_join_names_snoc(dir, names.subrange(1, names.len() as int), j - 1);
        assert(names.subrange(1, names.len() as int).subrange(0, j) =~= p1.subrange(
            1,
            j + 1,
        ));
        assert(names.subrange(1, names.len() as int).subrange(0, j - 1) =~= p0.subrange(1, j));
        assert(names.subrange(1, names.len() as int)[j - 1] == names[j]);
        assert(spec_join_names(dir, p1) == seq![
            spec_join_path(dir, p1[0], Platform::MacOs),
        ] + spec_join_names(dir, p1.subrange(1, j + 1)));
        assert(spec_join_names(dir, p0) == seq![
            spec_join_path(dir, p0[0], Platform::MacOs),
        ] + spec_join_names(dir, p0.subrange(1, j)));
        assert(seq![spec_join_path(dir, p1[0], Platform::MacOs)] + spec_join_names(
            dir,
            p0.subrange(1, j),
        ).push(spec_join_path(dir, names[j], Platform::MacOs)) =~= (seq![
            spec_join_path(dir, p0[0], Platform::MacOs),
        ] + spec_join_names(dir, p0.subrange(1, j))).push(
            spec_join_path(dir, names[j], Platform::MacOs),
        ));
    }
}

/// Picks the first candidate whose probe found a regular file.
pub fn first_existing(files: &Vec<String>, file_exists: &Vec<bool>) -> (r: Option<String>)
    requires
        files@.len() == file_exists@.len(),
    ensures
        match r {
            Some(p) => spec_first_true(file_exists@) is Some && {
                let i = spec_first_true(file_exists@)->0;
                0 <= i < files@.len() && p@ == files.deep_view()[i]
            },
            None => spec_first_true(file_exists@) is None,
        },
{
    let mut i: usize = 0;
    proof {
        assert(file_exists@.subrange(0, file_exists@.len() as int) =~= file_exists@);
    }
    while i < files.len()
        invariant
            i <= files@.len(),
            files@.len() == file_exists@.len(),
            spec_first_true(file_exists@) == match spec_first_true(
                file_exists@.subrange(i as int, file_exists@.len() as int),
            ) {
                Some(k) => Some(k + i),
                None => None::<int>,
            },
        decreases files@.len() - i,
    {
        let ghost rest = file_exists@.subrange(i as int, file_exists@.len() as int);
        if file_exists[i] {
            proof {
                assert(rest[0]);
                assert(spec_first_true(file_exists@) == Some(i as int));
                assert(files.deep_view()[i as int] == files@[i as int]@);
            }
            return Some(files[i].clone());
        }
        proof {
            assert(!rest[0]);
            assert(rest.subrange(1, rest.len() as int) =~= file_exists@.subrange(
                i + 1,
                file_exists@.len() as int,
            ));
        }
        i = i + 1;
    }
    proof {
        assert(file_exists@.subrange(file_exists@.len() as int, file_exists@.len() as int)
            =~= Seq::<bool>::empty());
    }
    None
}

/// Locates a binary on macOS: given the caller's probe results for every
/// candidate path of [`candidate_files`], in that order, returns the first
/// candidate that exists.
pub fn locate_macos_binary(
    env: &SearchEnv,
    names: &Vec<String>,
    file_exists: &Vec<bool>,
) -> (r: Option<String>)
    requires
        file_exists@.len() == spec_candidate_files(env@, names.deep_view()).len(),
    ensures
        match r {
            Some(p) => spec_first_true(file_exists@) is Some && {
                let i = spec_first_true(file_exists@)->0;
                0 <= i < file_exists@.len() && p@ == spec_candidate_files(
                    env@,
                    names.deep_view(),
                )[i]
            },
            None => spec_first_true(file_exists@) is None,
        },
{
    let files = candidate_files(env, names);
    proof {
        assert(files@.len() == files.deep_view().len());
    }
    first_existing(&files, file_exists)
}

} // verus!
