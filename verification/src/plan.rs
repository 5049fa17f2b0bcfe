//! The materialization pipeline: resolve a parsed target against the
//! build's working directory, and — once the filesystem has answered
//! whether the resolved location already exists — decide the one action
//! to perform.
//!
//! The pipeline runs in two steps so that the existence check, an
//! operation of the surrounding shell, stands between them: `plan` parses
//! and resolves, `decide_action` turns the answer into an action. An
//! existing target is never touched, whatever its kind or content.

use vstd::prelude::*;

use crate::paths::is_sep;
use crate::paths::join_path;
use crate::paths::parent_dir;
use crate::paths::spec_join;
use crate::paths::spec_parent;
use crate::target::MalformedInvocation;
use crate::target::SpecTarget;
use crate::target::TargetKind;
use crate::target::TargetSpec;
use crate::target::parse_args;
use crate::target::spec_parse;

verus! {

/// A resolved materialization: the parsed target, the location it
/// resolves to, and the parent directory chain to create beforehand.
#[derive(Clone, Debug)]
pub struct Materialization {
    pub target: TargetSpec,
    pub resolved: String,
    pub ancestor: Option<String>,
}

impl Materialization {
    /// The ancestor field as a mathematical value.
    pub open spec fn ancestor_view(&self) -> Option<Seq<char>> {
        match self.ancestor {
            Option::Some(a) => Option::Some(a@),
            Option::None => Option::None,
        }
    }

    /// Well-formed: the target is well-formed and the recorded ancestor is
    /// exactly the parent of the resolved location.
    pub open spec fn wf(&self) -> bool {
        &&& self.target@.wf()
        &&& self.ancestor_view() == spec_parent(self.resolved@)
    }
}

/// The one filesystem mutation an invocation performs, if any.
pub enum Action {
    /// The target already exists: mutate nothing.
    Skip,
    /// Create the directory at `path`, with any still-missing ancestors.
    CreateDirectory { path: String },
    /// Create the file at `path` and write `content` into it verbatim.
    CreateFile { path: String, content: String },
}

/// The mathematical value of an action.
pub enum SpecAction {
    Skip,
    CreateDirectory { path: Seq<char> },
    CreateFile { path: Seq<char>, content: Seq<char> },
}

impl View for Action {
    type V = SpecAction;

    open spec fn view(&self) -> SpecAction {
        match self {
            Action::Skip => SpecAction::Skip,
            Action::CreateDirectory { path } => SpecAction::CreateDirectory { path: path@ },
            Action::CreateFile { path, content } => SpecAction::CreateFile {
                path: path@,
                content: content@,
            },
        }
    }
}

/// The action a materialization performs: skip when the target exists;
/// otherwise create a directory, or create a file holding the given
/// content (empty when none was given).
pub open spec fn spec_action(t: SpecTarget, resolved: Seq<char>, exists: bool) -> SpecAction {
    if exists {
        SpecAction::Skip
    } else if t.kind is Directory {
        SpecAction::CreateDirectory { path: resolved }
    } else {
        SpecAction::CreateFile {
            path: resolved,
            content: match t.content {
                Option::Some(c) => c,
                Option::None => Seq::empty(),
            },
        }
    }
}

/// Resolve a parsed target against the working directory `cwd`: join the
/// target path onto it and compute the parent chain to create.
pub fn resolve(cwd: &str, target: TargetSpec) -> (m: Materialization)
    requires
        target@.wf(),
    ensures
        m.wf(),
        m.target@ == target@,
        m.resolved@ == spec_join(cwd@, target@.path),
{
    let resolved = join_path(cwd, target.path.as_str());
    let ancestor = parent_dir(resolved.as_str());
    Materialization { target, resolved, ancestor }
}

/// Parse the invocation's arguments and resolve the target against `cwd`.
pub fn plan(cwd: &str, args: &Vec<String>) -> (r: Result<Materialization, MalformedInvocation>)
    ensures
        r is Ok <==> spec_parse(args.deep_view()) is Ok,
        r matches Ok(m) ==> spec_parse(args.deep_view()) matches Ok(t) && m.wf() && m.target@ == t
            && m.resolved@ == spec_join(cwd@, t.path),
        r matches Err(e) ==> spec_parse(args.deep_view()) == Err::<SpecTarget, MalformedInvocation>(
            e,
        ),
{
    match parse_args(args) {
        Ok(target) => Ok(resolve(cwd, target)),
        Err(e) => Err(e),
    }
}

/// Given whether the resolved location already exists, decide the one
/// action to perform.
pub fn decide_action(m: &Materialization, exists: bool) -> (a: Action)
    ensures
        a@ == spec_action(m.target@, m.resolved@, exists),
{
    if exists {
        Action::Skip
    } else {
        match m.target.kind {
            TargetKind::Directory => Action::CreateDirectory { path: m.resolved.clone() },
            TargetKind::File => {
                let content = match &m.target.content {
                    Option::Some(c) => c.clone(),
                    Option::None => String::new(),
                };
                Action::CreateFile { path: m.resolved.clone(), content }
            },
        }
    }
}

/// Whether the target exists after the given action has been carried out:
/// a creating action leaves the target in place, skipping changes nothing.
pub open spec fn target_exists_after(exists: bool, a: SpecAction) -> bool {
    match a {
        SpecAction::Skip => exists,
        SpecAction::CreateDirectory { .. } => true,
        SpecAction::CreateFile { .. } => true,
    }
}

/// Law: an existing target is never touched — whatever the target and
/// wherever it resolved, when the location already exists the chosen
/// action is to skip, so earlier content is kept.
pub proof fn lemma_existing_target_untouched(t: SpecTarget, resolved: Seq<char>)
    ensures
        spec_action(t, resolved, true) is Skip,
{
}

/// Law: materialization is idempotent — a second invocation, run against
/// the filesystem state the first one leaves behind, always skips and
/// performs no mutation.
pub proof fn lemma_idempotent(t: SpecTarget, resolved: Seq<char>, exists: bool)
    ensures
        spec_action(
            t,
            resolved,
            target_exists_after(exists, spec_action(t, resolved, exists)),
        ) is Skip,
{
}

/// Law: an argument list of zero strings, or of three or more, is
/// rejected as malformed, whatever the strings hold.
pub proof fn lemma_arity_rejection(args: Seq<Seq<char>>)
    requires
        args.len() == 0 || args.len() > 2,
    ensures
        spec_parse(args) is Err,
{
}

/// Law: a parsed target is a directory exactly when the path argument
/// ends with a path separator.
pub proof fn lemma_trailing_separator_is_directory(args: Seq<Seq<char>>)
    requires
        spec_parse(args) is Ok,
    ensures
        (spec_parse(args)->Ok_0).kind is Directory <==> is_sep(args[0].last()),
{
}

} // verus!
