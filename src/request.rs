//! The single entry point behind the command line: hints as flags, resolved
//! into one link operation and then created.
use vstd::prelude::*;

use crate::link_error::{DuringLinkError, LinkError, LinkErrorView, PreLinkError, tagged};
use crate::link_type::{FileKind, LinkFileType, LinkHardness, LinkType, link_type_of};
use crate::paths::child_path;
use crate::wire::{encode, wire};
use crate::{HardenedLink, Link, MkLink, hinted_file_type, link_placement, mklink};

verus! {

/// Any error of a link request.
#[derive(Clone, Copy, Debug, PartialEq, Eq, Structural)]
pub enum AnyLinkError {
    /// The hints contradict each other.
    InvalidArgs,
    Pre(PreLinkError),
    During(DuringLinkError),
}

/// A link request as given on the command line.
#[derive(Clone, Debug)]
pub struct MkLinkArgs {
    pub hard: bool,
    pub file: bool,
    pub dir: bool,
    /// The file type was checked already by the caller: do not check again.
    pub raw: bool,
    pub target: String,
    pub link: String,
}

pub open spec fn hardness_flag(hard: bool) -> LinkHardness {
    if hard {
        LinkHardness::Hard
    } else {
        LinkHardness::Soft
    }
}

/// The file type hint of the flags, where at most one is given.
pub open spec fn file_type_hint(file: bool, dir: bool) -> Option<LinkFileType> {
    if file {
        Some(LinkFileType::File)
    } else if dir {
        Some(LinkFileType::Directory)
    } else {
        None
    }
}

/// The error `e` of one stage with its kind replaced by `error`.
pub open spec fn lifted<E>(e: LinkErrorView<E>, error: AnyLinkError) -> LinkErrorView<AnyLinkError> {
    LinkErrorView { error, target: e.target, link: e.link, program: e.program }
}

/// The link type that the request `args` resolves to, given the target's
/// metadata `target_kind`, or the error it fails with.
pub open spec fn requested_link_type(args: MkLinkArgs, target_kind: Option<FileKind>) -> Result<
    LinkType,
    LinkErrorView<AnyLinkError>,
> {
    if args.file && args.dir {
        Err(tagged(AnyLinkError::InvalidArgs, false, false))
    } else {
        let outcome = if args.raw {
            Ok(if args.file { LinkFileType::File } else { LinkFileType::Directory })
        } else {
            hinted_file_type(target_kind, file_type_hint(args.file, args.dir))
        };
        match outcome {
            Ok(file_type) => Ok(link_type_of(hardness_flag(args.hard), file_type)),
            Err(e) => Err(tagged(AnyLinkError::Pre(e), true, false)),
        }
    }
}

fn lift_pre(e: LinkError<PreLinkError>) -> (r: LinkError<AnyLinkError>)
    ensures
        r@ == lifted(e@, AnyLinkError::Pre(e.error)),
{
    LinkError { error: AnyLinkError::Pre(e.error), target: e.target, link: e.link, program: e.program }
}

fn lift_during(e: LinkError<DuringLinkError>) -> (r: LinkError<AnyLinkError>)
    ensures
        r@ == lifted(e@, AnyLinkError::During(e.error)),
{
    LinkError {
        error: AnyLinkError::During(e.error),
        target: e.target,
        link: e.link,
        program: e.program,
    }
}

impl MkLinkArgs {
    /// Resolves the request into one link operation, given the target's
    /// metadata (`None` where it cannot be read). In raw mode a file type
    /// flag must be given.
    pub fn as_mk_link(&self, target_kind: Option<FileKind>) -> (r: Result<MkLink, LinkError<AnyLinkError>>)
        requires
            self.raw ==> self.file || self.dir,
        ensures
            match requested_link_type(*self, target_kind) {
                Ok(link_type) => r matches Ok(m) && m.link.target@ == self.target@ && m.link.link@
                    == self.link@ && m.link_type == link_type,
                Err(v) => r matches Err(e) && e@ == v,
            },
    {
        if self.file && self.dir {
            return Err(LinkError::none(AnyLinkError::InvalidArgs));
        }
        let hardness = if self.hard {
            LinkHardness::Hard
        } else {
            LinkHardness::Soft
        };
        let file_type = if self.file {
            Some(LinkFileType::File)
        } else if self.dir {
            Some(LinkFileType::Directory)
        } else {
            None
        };
        let link: Link = mklink(self.target.as_str(), self.link.as_str());
        let link: HardenedLink = link.with_hardness(hardness);
        if self.raw {
            let file_type = if self.file {
                LinkFileType::File
            } else {
                LinkFileType::Directory
            };
            Ok(link.with_type_unchecked(file_type))
        } else {
            match link.maybe_with_type(file_type, target_kind) {
                Ok(m) => Ok(m),
                Err(e) => Err(lift_pre(e)),
            }
        }
    }

    /// Resolves the request and creates the link through `create_impl`; the
    /// link path's metadata and whether the path inside it exists are given
    /// as for `MkLink::create`.
    pub fn run<C>(
        &self,
        target_kind: Option<FileKind>,
        link_kind: Option<FileKind>,
        in_dir_exists: bool,
        create_impl: C,
    ) -> (r: Result<MkLink, LinkError<AnyLinkError>>) where
        C: FnOnce(&MkLink) -> Result<(), LinkError<DuringLinkError>>,

        requires
            self.raw ==> self.file || self.dir,
            match requested_link_type(*self, target_kind) {
                Err(_) => true,
                Ok(link_type) => match link_placement(
                    self.link@,
                    link_kind,
                    child_path(self.target@, self.link@),
                    in_dir_exists,
                ) {
                    None => true,
                    Some(path) => forall|m: &MkLink|
                        m.link.target@ == self.target@ && m.link.link@ == path && m.link_type
                            == link_type ==> #[trigger] create_impl.requires((m,)),
                },
            },
        ensures
            match requested_link_type(*self, target_kind) {
                Err(v) => r matches Err(e) && e@ == v,
                Ok(link_type) => match link_placement(
                    self.link@,
                    link_kind,
                    child_path(self.target@, self.link@),
                    in_dir_exists,
                ) {
                    None => r matches Err(e) && e@ == tagged(
                        AnyLinkError::During(DuringLinkError::LinkAlreadyExists),
                        false,
                        true,
                    ),
                    Some(path) => exists|c: &MkLink, outcome: Result<(), LinkError<DuringLinkError>>|
                        #![trigger create_impl.ensures((c,), outcome)]
                        c.link.target@ == self.target@ && c.link.link@ == path && c.link_type
                            == link_type && create_impl.ensures((c,), outcome) && match outcome {
                            Ok(()) => r matches Ok(m) && m.link.target@ == self.target@
                                && m.link.link@ == self.link@ && m.link_type == link_type,
                            Err(e) => r matches Err(err) && err@ == lifted(
                                e@,
                                AnyLinkError::During(e.error),
                            ),
                        },
                },
            },
    {
        let mk_link = match self.as_mk_link(target_kind) {
            Ok(m) => m,
            Err(e) => return Err(e),
        };
        match mk_link.create(link_kind, in_dir_exists, create_impl) {
            Ok(()) => Ok(mk_link),
            Err(e) => Err(lift_during(e)),
        }
    }
}

/// What a companion run in raw mode prints for the error `e`: the bytes of
/// the error where it arose while creating the link, and `None` otherwise,
/// since every other error is checked for before the companion runs.
pub fn raw_output(e: &LinkError<AnyLinkError>) -> (r: Option<Vec<u8>>)
    ensures
        match e.error {
            AnyLinkError::During(d) => r matches Some(bytes) && bytes@ == wire(
                LinkErrorView { error: d, target: e.target, link: e.link, program: e@.program },
            ),
            _ => r is None,
        },
{
    match e.error {
        AnyLinkError::During(d) => {
            let during = LinkError { error: d, target: e.target, link: e.link, program: e.program.clone() };
            Some(encode(&during))
        },
        _ => None,
    }
}

} // verus!
