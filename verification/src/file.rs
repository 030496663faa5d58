//! The decisions of secure file access: which symlinks may be followed
//! and which files are refused for their hard links. The file system is
//! asked by the caller; these functions rule on its answers.
use vstd::prelude::*;
use crate::error::{Error, Result};
use crate::text::{concat3, decimal_text, decimal_text_of, split_fields, split_on, str_eq, string_views};

verus! {

/// The parts of a path that name something: its `/`-separated fields,
/// without the empty ones and `.`, as `Path::components` yields the normal
/// components of a Unix path.
pub open spec fn named_parts(fields: Seq<Seq<char>>) -> Seq<Seq<char>>
    decreases fields.len(),
{
    if fields.len() == 0 {
        Seq::empty()
    } else {
        let rest = named_parts(fields.drop_last());
        if fields.last().len() == 0 || fields.last() == "."@ {
            rest
        } else {
            rest.push(fields.last())
        }
    }
}

/// Whether the absolute Unix path `path` lies under the directory whose
/// parts are `base`, comparing whole components as `Path::starts_with`
/// does: `/tmp/x` lies under `/tmp`, `/tmpx` does not.
pub open spec fn path_under(path: Seq<char>, base: Seq<Seq<char>>) -> bool {
    let parts = named_parts(split_fields(path, '/'));
    &&& path.len() > 0
    &&& path[0] == '/'
    &&& base.len() <= parts.len()
    &&& parts.take(base.len() as int) == base
}

/// The parts of `/tmp`.
pub open spec fn tmp_parts() -> Seq<Seq<char>> {
    seq!["tmp"@]
}

/// The parts of `/var/app/data`.
pub open spec fn app_data_parts() -> Seq<Seq<char>> {
    seq!["var"@, "app"@, "data"@]
}

/// The named parts of a path.
fn path_parts(path: &str) -> (r: Vec<String>)
    ensures
        string_views(r@) == named_parts(split_fields(path@, '/')),
{
    let fields = split_on(path, '/');
    let ghost fs = string_views(fields@);
    let mut parts: Vec<String> = Vec::new();
    let mut i: usize = 0;
    assert(fs.take(0) =~= Seq::<Seq<char>>::empty());
    while i < fields.len()
        invariant
            fs == string_views(fields@),
            fs == split_fields(path@, '/'),
            i <= fields@.len(),
            string_views(parts@) == named_parts(fs.take(i as int)),
        decreases fields@.len() - i,
    {
        let f = &fields[i];
        assert(fs.take(i + 1).drop_last() =~= fs.take(i as int));
        assert(fs.take(i + 1).last() == f@);
        if !(f.as_str().is_empty() || str_eq(f.as_str(), ".")) {
            parts.push(f.clone());
            assert(string_views(parts@) =~= named_parts(fs.take(i as int)).push(f@));
        }
        i += 1;
    }
    assert(fs.take(fields@.len() as int) =~= fs);
    parts
}

/// Whether the parts start with the given names.
fn parts_start_with(parts: &Vec<String>, base: &[&str]) -> (r: bool)
    ensures
        r == (base@.len() <= parts@.len() && string_views(parts@).take(base@.len() as int)
            == base@.map_values(|b: &str| b@)),
{
    if base.len() > parts.len() {
        return false;
    }
    let ghost want = base@.map_values(|b: &str| b@);
    let mut i: usize = 0;
    while i < base.len()
        invariant
            base@.len() <= parts@.len(),
            want == base@.map_values(|b: &str| b@),
            i <= base@.len(),
            forall|j: int| 0 <= j < i ==> parts@[j]@ == want[j],
        decreases base@.len() - i,
    {
        if !str_eq(parts[i].as_str(), base[i]) {
            assert(string_views(parts@).take(base@.len() as int)[i as int] != want[i as int]);
            return false;
        }
        i += 1;
    }
    assert(string_views(parts@).take(base@.len() as int) =~= want);
    true
}

/// Whether a symlink target lies in an allowed location: given the target's
/// canonical path, or `None` where it could not be made canonical, the
/// target is allowed under `/tmp` and `/var/app/data` only.
pub fn is_safe_symlink_target(canonical: Option<&str>) -> (r: bool)
    ensures
        r == (canonical matches Some(c) && (path_under(c@, tmp_parts()) || path_under(
            c@,
            app_data_parts(),
        ))),
{
    proof {
        reveal_strlit("tmp");
        reveal_strlit("var");
        reveal_strlit("app");
        reveal_strlit("data");
    }
    match canonical {
        None => false,
        Some(c) => {
            if c.is_empty() || !crate::text::starts_with(c, "/") {
                proof {
                    reveal_strlit("/");
                    if c@.len() > 0 && c@[0] == '/' {
                        assert(c@.take(1) =~= "/"@);
                        assert(crate::text::has_prefix(c@, "/"@));
                    }
                }
                return false;
            }
            proof {
                reveal_strlit("/");
                assert(c@.take(1)[0] == c@[0]);
            }
            let parts = path_parts(c);
            let tmp = ["tmp"];
            let app_data = ["var", "app", "data"];
            assert(tmp@.map_values(|b: &str| b@) =~= tmp_parts());
            assert(app_data@.map_values(|b: &str| b@) =~= app_data_parts());
            parts_start_with(&parts, &tmp) || parts_start_with(&parts, &app_data)
        },
    }
}

/// The message for a symlink where none is allowed.
pub open spec fn symlink_refused_message(path: Seq<char>) -> Seq<char> {
    "Path "@ + path + " is a symlink, which is not allowed"@
}

/// The message for a symlink whose target lies outside the allowed
/// locations.
pub open spec fn target_refused_message(target: Seq<char>) -> Seq<char> {
    "Symlink target "@ + target + " is not in an allowed location"@
}

/// The message for a file with more than one hard link.
pub open spec fn hard_links_message(path: Seq<char>, links: nat) -> Seq<char> {
    "Path "@ + path + " has multiple hard links ("@ + decimal_text_of(links)
        + "), which may be a security risk"@
}

/// Rules on a path found to be a symlink: refused unless symlinks are
/// allowed. `path` is the path as it is displayed.
pub fn check_symlink_allowed(path: &str, allow_symlinks: bool) -> (r: Result<()>)
    ensures
        allow_symlinks ==> r is Ok,
        !allow_symlinks ==> (r matches Err(Error::Validation(m)) && m@ == symlink_refused_message(
            path@,
        )),
{
    if !allow_symlinks {
        return Err(
            Error::Validation(concat3("Path ", path, " is a symlink, which is not allowed")),
        );
    }
    Ok(())
}

/// Rules on the target a symlink points to: refused unless it lies in an
/// allowed location (see `is_safe_symlink_target`). `target` is the target
/// as it is displayed, `canonical` its canonical path if it has one.
pub fn check_symlink_target(target: &str, canonical: Option<&str>) -> (r: Result<()>)
    ensures
        r is Ok <==> (canonical matches Some(c) && (path_under(c@, tmp_parts()) || path_under(
            c@,
            app_data_parts(),
        ))),
        r is Err ==> (r matches Err(Error::Validation(m)) && m@ == target_refused_message(
            target@,
        )),
{
    if !is_safe_symlink_target(canonical) {
        return Err(
            Error::Validation(
                concat3("Symlink target ", target, " is not in an allowed location"),
            ),
        );
    }
    Ok(())
}

/// Rules on a regular file's hard link count: more than one link is
/// refused, as another name could change the file behind the caller's back.
pub fn check_hard_links(path: &str, links: u64) -> (r: Result<()>)
    ensures
        links <= 1 ==> r is Ok,
        links > 1 ==> (r matches Err(Error::Validation(m)) && m@ == hard_links_message(
            path@,
            links as nat,
        )),
{
    if links > 1 {
        let mut m = concat3("Path ", path, " has multiple hard links (");
        let n = decimal_text(links);
        m.append(n.as_str());
        m.append("), which may be a security risk");
        return Err(Error::Validation(m));
    }
    Ok(())
}

/// Whether a symlink target with the given canonical path, if any, lies in
/// an allowed location.
pub open spec fn canonical_allowed(canonical: Option<String>) -> bool {
    canonical matches Some(c) && (path_under(c@, tmp_parts()) || path_under(c@, app_data_parts()))
}

/// What the file system has answered about a path, in the order
/// `next_path_step` asks.
pub enum PathAnswer {
    /// Nothing has been asked yet.
    Nothing,
    /// Whether the path exists (following symlinks, so a symlink to nothing
    /// does not), and whether it is a symlink itself.
    Status { exists: bool, symlink: bool },
    /// The target of the symlink, as it is displayed, and its canonical
    /// path, where it has one in UTF-8.
    LinkTarget { shown: String, canonical: Option<String> },
    /// The number of hard links of the file, where the system counts them.
    LinkCount(Option<u64>),
}

/// What to do next when checking a path.
pub enum PathStep {
    /// Ask whether the path exists and whether it is a symlink.
    AskStatus,
    /// Read the symlink's target and make it canonical.
    ReadLink,
    /// Count the file's hard links.
    CountLinks,
    /// The path is safe: use it as given.
    UsePath,
    /// The symlink is safe: use its target.
    UseTarget,
    /// The path is refused.
    Refuse(Error),
}

/// The next step of checking that a path is safe to use, given the file
/// system's last answer: first its status; a symlink is refused unless
/// symlinks are allowed, whether or not its target exists; otherwise a path
/// that does not exist is used as given, the target of an existing symlink
/// is read and used if it lies in an allowed location, and any other file
/// is used unless it has several hard links. `path` is the
/// path as it is displayed.
pub fn next_path_step(path: &str, allow_symlinks: bool, answer: &PathAnswer) -> (r: PathStep)
    ensures
        *answer is Nothing ==> r is AskStatus,
        *answer matches PathAnswer::Status { exists, symlink } ==> {
            &&& symlink && !allow_symlinks ==> (r matches PathStep::Refuse(
                Error::Validation(m),
            ) && m@ == symlink_refused_message(path@))
            &&& !exists && !(symlink && !allow_symlinks) ==> r is UsePath
            &&& exists && !symlink ==> r is CountLinks
            &&& exists && symlink && allow_symlinks ==> r is ReadLink
        },
        *answer matches PathAnswer::LinkTarget { shown, canonical } ==> {
            &&& canonical_allowed(canonical) ==> r is UseTarget
            &&& !canonical_allowed(canonical) ==> (r matches PathStep::Refuse(
                Error::Validation(m),
            ) && m@ == target_refused_message(shown@))
        },
        *answer matches PathAnswer::LinkCount(links) ==> {
            &&& links is None ==> r is UsePath
            &&& links matches Some(n) ==> (n <= 1 ==> r is UsePath) && (n > 1 ==> (
            r matches PathStep::Refuse(Error::Validation(m)) && m@ == hard_links_message(
                path@,
                n as nat,
            )))
        },
{
    match answer {
        PathAnswer::Nothing => PathStep::AskStatus,
        PathAnswer::Status { exists, symlink } => {
            if *symlink {
                if let Err(e) = check_symlink_allowed(path, allow_symlinks) {
                    return PathStep::Refuse(e);
                }
            }
            if !*exists {
                PathStep::UsePath
            } else if !*symlink {
                PathStep::CountLinks
            } else {
                PathStep::ReadLink
            }
        },
        PathAnswer::LinkTarget { shown, canonical } => {
            let c: Option<&str> = match canonical {
                Some(t) => Some(t.as_str()),
                None => None,
            };
            match check_symlink_target(shown.as_str(), c) {
                Ok(()) => PathStep::UseTarget,
                Err(e) => PathStep::Refuse(e),
            }
        },
        PathAnswer::LinkCount(links) => match links {
            None => PathStep::UsePath,
            Some(n) => match check_hard_links(path, *n) {
                Ok(()) => PathStep::UsePath,
                Err(e) => PathStep::Refuse(e),
            },
        },
    }
}

} // verus!
