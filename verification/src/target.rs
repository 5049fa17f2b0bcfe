//! The target specification: the parsed path-and-optional-content pair
//! describing what to materialize, and the argument parser that builds it.
//!
//! The parser accepts one argument (path only) or two (path and literal
//! file content); any other argument count is a malformed invocation, as is
//! an empty path, which could name no filesystem entry. Whether the target
//! is a file or a directory is decided once, at parse time, by the final
//! character of the path: a trailing separator means a directory.

use vstd::prelude::*;

use crate::paths::is_path_separator;
use crate::paths::is_sep;
use vstd::string::StrSliceExecFns;

verus! {

/// What kind of filesystem entry the target names.
#[derive(Clone, Copy, Debug, PartialEq, Eq, Structural)]
pub enum TargetKind {
    File,
    Directory,
}

/// A malformed invocation: the argument list cannot describe a target.
#[derive(Clone, Copy, Debug, PartialEq, Eq, Structural)]
pub enum MalformedInvocation {
    /// No arguments were given; there is no path to materialize.
    NoArguments,
    /// More than two arguments were given.
    TooManyArguments,
    /// The path argument is the empty string, which names no entry.
    EmptyPath,
}

/// The parsed target: a path, optional literal content for a newly created
/// file, and the kind derived from the path's final character.
#[derive(Clone, Debug, PartialEq, Eq)]
pub struct TargetSpec {
    pub path: String,
    pub content: Option<String>,
    pub kind: TargetKind,
}

/// The mathematical value of a target specification.
pub struct SpecTarget {
    pub path: Seq<char>,
    pub content: Option<Seq<char>>,
    pub kind: TargetKind,
}

impl View for TargetSpec {
    type V = SpecTarget;

    open spec fn view(&self) -> SpecTarget {
        SpecTarget {
            path: self.path@,
            content: match self.content {
                Option::Some(c) => Option::Some(c@),
                Option::None => Option::None,
            },
            kind: self.kind,
        }
    }
}

impl SpecTarget {
    /// A well-formed target has a non-empty path, and its kind agrees with
    /// the path's final character.
    pub open spec fn wf(&self) -> bool {
        &&& self.path.len() > 0
        &&& (self.kind is Directory <==> is_sep(self.path.last()))
    }
}

/// What parsing an argument list yields: exactly one or two arguments with
/// a non-empty path make a target; anything else is malformed.
pub open spec fn spec_parse(args: Seq<Seq<char>>) -> Result<SpecTarget, MalformedInvocation> {
    if args.len() == 0 {
        Err(MalformedInvocation::NoArguments)
    } else if args.len() > 2 {
        Err(MalformedInvocation::TooManyArguments)
    } else if args[0].len() == 0 {
        Err(MalformedInvocation::EmptyPath)
    } else {
        Ok(
            SpecTarget {
                path: args[0],
                content: if args.len() == 2 {
                    Option::Some(args[1])
                } else {
                    Option::None
                },
                kind: if is_sep(args[0].last()) {
                    TargetKind::Directory
                } else {
                    TargetKind::File
                },
            },
        )
    }
}

/// Parse the invocation's argument list into a target specification.
pub fn parse_args(args: &Vec<String>) -> (r: Result<TargetSpec, MalformedInvocation>)
    ensures
        r is Ok <==> spec_parse(args.deep_view()) is Ok,
        r matches Ok(t) ==> spec_parse(args.deep_view()) == Ok::<SpecTarget, MalformedInvocation>(
            t@,
        ) && t@.wf(),
        r matches Err(e) ==> spec_parse(args.deep_view()) == Err::<SpecTarget, MalformedInvocation>(
            e,
        ),
{
    if args.len() == 0 {
        return Err(MalformedInvocation::NoArguments);
    }
    if args.len() > 2 {
        return Err(MalformedInvocation::TooManyArguments);
    }
    let path: &String = &args[0];
    let n = path.as_str().unicode_len();
    if n == 0 {
        return Err(MalformedInvocation::EmptyPath);
    }
    let kind = if is_path_separator(path.as_str().get_char(n - 1)) {
        TargetKind::Directory
    } else {
        TargetKind::File
    };
    let content: Option<String> = if args.len() == 2 {
        Some(args[1].clone())
    } else {
        None
    };
    let t = TargetSpec { path: path.clone(), content, kind };
    Ok(t)
}

} // verus!
