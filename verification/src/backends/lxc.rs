//! What the runner asks LXC for when it creates a container.

use vstd::prelude::*;

verus! {

/// Why an LXC container cannot be created.
#[derive(Debug, Clone, Copy, PartialEq, Eq)]
pub enum LxcError {
    /// The image or the release is missing.
    MissingImageOrRelease,
    /// The container has no create function.
    MissingCreateFunction,
}

impl LxcError {
    /// The text of the error.
    pub fn message(&self) -> (s: &'static str)
        ensures
            s@ == match *self {
                LxcError::MissingImageOrRelease => "Both image and release are required."@,
                LxcError::MissingCreateFunction => "Could not find LXC createl function."@,
            },
    {
        match self {
            LxcError::MissingImageOrRelease => "Both image and release are required.",
            LxcError::MissingCreateFunction => "Could not find LXC createl function.",
        }
    }
}

/// A call of the LXC create function: the template, and the arguments
/// handed to it.
#[derive(Debug, Clone, PartialEq, Eq)]
pub struct LxcCreatePlan {
    pub template: String,
    pub quiet: bool,
    pub args: Vec<String>,
}

/// The arguments of the download template for `image` at `release`.
pub open spec fn spec_download_args(image: Seq<char>, release: Seq<char>) -> Seq<Seq<char>> {
    seq!["-d"@, image, "-r"@, release, "-a"@, "amd64"@]
}

/// The views of the arguments of a plan.
pub open spec fn arg_views(args: Seq<String>) -> Seq<Seq<char>> {
    args.map_values(|x: String| x@)
}

/// How a container is created from `image` at `release`, where
/// `has_create_fn` says whether the container offers a create function.
/// Both image and release are needed; the create function is looked for
/// only when they are given.
pub fn lxc_create_plan(
    image: Option<&str>,
    release: Option<&str>,
    has_create_fn: bool,
) -> (r: Result<LxcCreatePlan, LxcError>)
    ensures
        (image is None || release is None) ==> r == Err::<LxcCreatePlan, LxcError>(
            LxcError::MissingImageOrRelease,
        ),
        (image is Some && release is Some && !has_create_fn) ==> r == Err::<LxcCreatePlan, LxcError>(
            LxcError::MissingCreateFunction,
        ),
        (image is Some && release is Some && has_create_fn) ==> (r matches Ok(p) && p.template@
            == "download"@ && p.quiet && arg_views(p.args@) == spec_download_args(
            image->0@,
            release->0@,
        )),
{
    let (image, release) = match (image, release) {
        (Some(i), Some(r)) => (i, r),
        _ => {
            return Err(LxcError::MissingImageOrRelease);
        },
    };
    if !has_create_fn {
        return Err(LxcError::MissingCreateFunction);
    }
    let mut args: Vec<String> = Vec::new();
    args.push(String::from_str("-d"));
    args.push(String::from_str(image));
    args.push(String::from_str("-r"));
    args.push(String::from_str(release));
    args.push(String::from_str("-a"));
    args.push(String::from_str("amd64"));
    assert(arg_views(args@) =~= spec_download_args(image@, release@));
    Ok(LxcCreatePlan { template: String::from_str("download"), quiet: true, args })
}

/// A successful plan runs the "download" template quietly with the
/// arguments `-d <image> -r <release> -a amd64`, for whatever image and
/// release it is given.
pub proof fn law_lxc_download_args(p: LxcCreatePlan, image: Seq<char>, release: Seq<char>)
    requires
        p.template@ == "download"@,
        arg_views(p.args@) == spec_download_args(image, release),
    ensures
        p.args@.len() == 6,
        p.args@[0]@ == "-d"@,
        p.args@[1]@ == image,
        p.args@[2]@ == "-r"@,
        p.args@[3]@ == release,
        p.args@[4]@ == "-a"@,
        p.args@[5]@ == "amd64"@,
{
    assert(arg_views(p.args@).len() == 6);
    assert(arg_views(p.args@)[0] == p.args@[0]@);
    assert(arg_views(p.args@)[1] == p.args@[1]@);
    assert(arg_views(p.args@)[2] == p.args@[2]@);
    assert(arg_views(p.args@)[3] == p.args@[3]@);
    assert(arg_views(p.args@)[4] == p.args@[4]@);
    assert(arg_views(p.args@)[5] == p.args@[5]@);
}

} // verus!
