//! Building a Docker image from a git repository: where the repository is
//! cloned, how git is called, where the sources go in the archive that is
//! sent to Docker, and how the steps can fail.

use vstd::prelude::*;

verus! {

/// Why an image could not be built.
#[derive(Debug, Clone, Copy, PartialEq, Eq)]
pub enum ImageError {
    /// git could not be waited for.
    CloneFailed,
    /// git exited with a failure.
    CloneUnsuccessful,
    /// Docker answered with no image.
    NoImageInfo,
}

impl ImageError {
    /// The text of the error.
    pub fn message(&self) -> (s: &'static str)
        ensures
            s@ == match *self {
                ImageError::CloneFailed => "Cloning git repo to a temporary directory failed."@,
                ImageError::CloneUnsuccessful => "Git command was not successful."@,
                ImageError::NoImageInfo => "Image was None?"@,
            },
    {
        match self {
            ImageError::CloneFailed => "Cloning git repo to a temporary directory failed.",
            ImageError::CloneUnsuccessful => "Git command was not successful.",
            ImageError::NoImageInfo => "Image was None?",
        }
    }
}

/// The steps of building image `name:tag` from a git repository.
#[derive(Debug, Clone, PartialEq, Eq)]
pub struct ImageBuildPlan {
    /// Where the repository is cloned.
    pub clone_dir: String,
    /// The arguments of `git`.
    pub git_args: Vec<String>,
    /// Where the sources are put in the archive.
    pub archive_path: String,
    /// The repository and tag of the image, and where Docker reads it from.
    pub repo: String,
    pub tag: String,
    pub from_src: String,
}

/// The path of image `name:tag` below a base directory.
pub open spec fn spec_image_path(name: Seq<char>, tag: Seq<char>) -> Seq<char> {
    "channel-runner/images/"@ + name + "/"@ + tag
}

/// The views of a vector of strings.
pub open spec fn views(v: Seq<String>) -> Seq<Seq<char>> {
    v.map_values(|x: String| x@)
}

/// `p` builds `name:tag` from `git_url`, cloning below `temp_dir`.
pub open spec fn is_build_plan(
    p: ImageBuildPlan,
    temp_dir: Seq<char>,
    git_url: Seq<char>,
    name: Seq<char>,
    tag: Seq<char>,
) -> bool {
    &&& p.clone_dir@ == temp_dir + "/"@ + spec_image_path(name, tag)
    &&& views(p.git_args@) == seq!["clone"@, git_url, p.clone_dir@, "--recursive"@]
    &&& p.archive_path@ == spec_image_path(name, tag)
    &&& p.repo@ == name
    &&& p.tag@ == tag
    &&& p.from_src@ == "-"@
}

/// The path of image `name:tag` below a base directory.
fn image_path(name: &str, tag: &str) -> (p: String)
    ensures
        p@ == spec_image_path(name@, tag@),
{
    let mut p = String::from_str("channel-runner/images/");
    p.append(name);
    p.append("/");
    p.append(tag);
    p
}

/// How image `name:tag` is built from `git_url`, cloning below `temp_dir`.
pub fn image_build_plan(temp_dir: &str, git_url: &str, name: &str, tag: &str) -> (p: ImageBuildPlan)
    ensures
        is_build_plan(p, temp_dir@, git_url@, name@, tag@),
{
    let mut clone_dir = String::from_str(temp_dir);
    clone_dir.append("/");
    let path = image_path(name, tag);
    clone_dir.append(path.as_str());
    let mut git_args: Vec<String> = Vec::new();
    git_args.push(String::from_str("clone"));
    git_args.push(String::from_str(git_url));
    git_args.push(clone_dir.clone());
    git_args.push(String::from_str("--recursive"));
    assert(views(git_args@) =~= seq!["clone"@, git_url@, clone_dir@, "--recursive"@]);
    ImageBuildPlan {
        clone_dir,
        git_args,
        archive_path: path,
        repo: String::from_str(name),
        tag: String::from_str(tag),
        from_src: String::from_str("-"),
    }
}

/// Whether the clone went well, given whether git could be waited for and
/// whether it exited with success.
pub fn check_clone(waited: bool, succeeded: bool) -> (r: Result<(), ImageError>)
    ensures
        !waited ==> r == Err::<(), ImageError>(ImageError::CloneFailed),
        waited && !succeeded ==> r == Err::<(), ImageError>(ImageError::CloneUnsuccessful),
        waited && succeeded ==> r is Ok,
{
    if !waited {
        Err(ImageError::CloneFailed)
    } else if !succeeded {
        Err(ImageError::CloneUnsuccessful)
    } else {
        Ok(())
    }
}

/// Whether Docker's first answer to the image upload is usable: it must be
/// there and not an error.
pub fn check_build_reply(reply: Option<bool>) -> (r: Result<(), ImageError>)
    ensures
        reply == Some(true) ==> r is Ok,
        reply != Some(true) ==> r == Err::<(), ImageError>(ImageError::NoImageInfo),
{
    match reply {
        Some(true) => Ok(()),
        _ => Err(ImageError::NoImageInfo),
    }
}

/// git is always called as `clone <url> <clone dir> --recursive`, whatever
/// the URL, and the clone directory is `<temp dir>/channel-runner/images/<name>/<tag>`.
pub proof fn law_git_args(
    p: ImageBuildPlan,
    temp_dir: Seq<char>,
    git_url: Seq<char>,
    name: Seq<char>,
    tag: Seq<char>,
)
    requires
        is_build_plan(p, temp_dir, git_url, name, tag),
    ensures
        p.git_args@.len() == 4,
        p.git_args@[0]@ == "clone"@,
        p.git_args@[1]@ == git_url,
        p.git_args@[2]@ == p.clone_dir@,
        p.git_args@[3]@ == "--recursive"@,
        p.clone_dir@ == temp_dir + "/channel-runner/images/"@ + name + "/"@ + tag,
        p.archive_path@ == "channel-runner/images/"@ + name + "/"@ + tag,
{
    reveal_strlit("/");
    reveal_strlit("channel-runner/images/");
    reveal_strlit("/channel-runner/images/");
    assert(views(p.git_args@).len() == 4);
    assert(views(p.git_args@)[0] == p.git_args@[0]@);
    assert(views(p.git_args@)[1] == p.git_args@[1]@);
    assert(views(p.git_args@)[2] == p.git_args@[2]@);
    assert(views(p.git_args@)[3] == p.git_args@[3]@);
    assert("/"@ + ("channel-runner/images/"@ + name + "/"@ + tag) =~= "/channel-runner/images/"@ + name
        + "/"@ + tag);
    assert(temp_dir + "/"@ + spec_image_path(name, tag) =~= temp_dir + ("/"@ + spec_image_path(name, tag)));
}

} // verus!
