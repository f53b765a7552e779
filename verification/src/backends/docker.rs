//! What the runner asks Docker for: the container of a job and the command
//! of each of its steps.

use vstd::prelude::*;
use crate::text::{
    count_char, join_with, lemma_join_split, lemma_split_len, lemma_split_pieces_free_of_sep,
    split_char, split_on, string_views,
};

verus! {

/// The settings of a container to create.
#[derive(Debug, Clone, PartialEq, Eq)]
pub struct ContainerSpec {
    pub name: String,
    pub image: String,
    pub attach_stdout: bool,
    pub cmd: Vec<String>,
    pub tty: bool,
    pub working_dir: String,
}

/// The settings of a command to run in a container.
#[derive(Debug, Clone, PartialEq, Eq)]
pub struct ExecSpec {
    pub cmd: Vec<String>,
    pub attach_stdout: bool,
    pub attach_stderr: bool,
}

/// Whether a started command is detached from the runner: it is not, the
/// runner reads its output.
pub const EXEC_DETACHED: bool = false;

/// The image reference `image:release`.
pub open spec fn spec_image_reference(image: Seq<char>, release: Seq<char>) -> Seq<char> {
    image + ":"@ + release
}

/// `c` describes the container `name` made from `image:release`.
pub open spec fn is_container_spec(
    c: ContainerSpec,
    name: Seq<char>,
    image: Seq<char>,
    release: Seq<char>,
) -> bool {
    &&& c.name@ == name
    &&& c.image@ == spec_image_reference(image, release)
    &&& c.attach_stdout
    &&& c.tty
    &&& string_views(c.cmd@) == seq!["/usr/bin/git"@, "--help"@]
    &&& c.working_dir@ == "/usr/"@
}

/// `e` runs the command line `run`, split on spaces, with its output
/// attached.
pub open spec fn is_exec_spec(e: ExecSpec, run: Seq<char>) -> bool {
    &&& string_views(e.cmd@) == split_on(run, ' ')
    &&& e.attach_stdout
    &&& e.attach_stderr
}

/// The image reference of `image` at `release`.
pub fn image_reference(image: &str, release: &str) -> (r: String)
    ensures
        r@ == spec_image_reference(image@, release@),
{
    let mut r = String::from_str(image);
    r.append(":");
    r.append(release);
    r
}

/// The container that `name` runs in, made from `image:release`.
pub fn container_spec(name: &str, image: &str, release: &str) -> (c: ContainerSpec)
    ensures
        is_container_spec(c, name@, image@, release@),
{
    let mut cmd: Vec<String> = Vec::new();
    cmd.push(String::from_str("/usr/bin/git"));
    cmd.push(String::from_str("--help"));
    assert(string_views(cmd@) =~= seq!["/usr/bin/git"@, "--help"@]);
    ContainerSpec {
        name: String::from_str(name),
        image: image_reference(image, release),
        attach_stdout: true,
        cmd,
        tty: true,
        working_dir: String::from_str("/usr/"),
    }
}

/// The command that runs the line `run`: its words, split on single spaces.
pub fn exec_spec(run: &str) -> (e: ExecSpec)
    ensures
        is_exec_spec(e, run@),
{
    ExecSpec { cmd: split_char(run, ' '), attach_stdout: true, attach_stderr: true }
}

/// The words of a step's command are the pieces of its line between spaces:
/// no word holds a space, the words joined with single spaces give the
/// line back, and there is one word more than there are spaces.
pub proof fn law_exec_words(e: ExecSpec, run: Seq<char>)
    requires
        is_exec_spec(e, run),
    ensures
        forall|i: int| 0 <= i < e.cmd@.len() ==> !(#[trigger] e.cmd@[i])@.contains(' '),
        join_with(string_views(e.cmd@), ' ') == run,
        e.cmd@.len() == count_char(run, ' ') + 1,
        e.attach_stdout,
        e.attach_stderr,
{
    lemma_join_split(run, ' ');
    lemma_split_len(run, ' ');
    lemma_split_pieces_free_of_sep(run, ' ');
    assert forall|i: int| 0 <= i < e.cmd@.len() implies !(#[trigger] e.cmd@[i])@.contains(' ') by {
        assert(string_views(e.cmd@)[i] == e.cmd@[i]@);
        assert(split_on(run, ' ')[i] == e.cmd@[i]@);
    }
}

} // verus!
