//! Creating filesystem links: symbolic file and directory links, hard links
//! and directory junctions. A request narrows in stages, `Link` to
//! `HardenedLink` to `MkLink`, from the caller's hints and the target's
//! metadata into one link operation, which an executor then carries out.
//! Filesystem queries and the operating system calls are made by the caller
//! and handed in as plain values and closures.
use vstd::prelude::*;

pub mod link_type;
pub mod link_error;
pub mod paths;
pub mod remote;
pub mod request;
pub mod error;
pub mod wire;

use crate::link_error::{DuringLinkError, LinkError, PreLinkError, tagged};
use crate::link_type::{FileKind, LinkFileType, LinkHardness, LinkType, file_type_of, link_type_of};
use crate::paths::{child_path, file_name_of, join_path};

verus! {

/// What resolving the file type from the target's metadata gives: `None`
/// stands for a target whose metadata cannot be read.
pub open spec fn inferred_file_type(target_kind: Option<FileKind>) -> Result<LinkFileType, PreLinkError> {
    match target_kind {
        None => Err(PreLinkError::InferredNonExistentTarget),
        Some(kind) => match file_type_of(kind) {
            Some(file_type) => Ok(file_type),
            None => Err(PreLinkError::InvalidFileType),
        },
    }
}

/// What checking the requested file type `expected` against the target's
/// metadata gives: a missing target cannot contradict the request.
pub open spec fn checked_file_type(target_kind: Option<FileKind>, expected: LinkFileType) -> Result<
    LinkFileType,
    PreLinkError,
> {
    match inferred_file_type(target_kind) {
        Ok(actual) => if actual == expected {
            Ok(expected)
        } else {
            Err(PreLinkError::LinkFileTypeMismatch)
        },
        Err(PreLinkError::InferredNonExistentTarget) => Ok(expected),
        Err(e) => Err(e),
    }
}

/// The file type resolved from an optional hint.
pub open spec fn hinted_file_type(target_kind: Option<FileKind>, hint: Option<LinkFileType>) -> Result<
    LinkFileType,
    PreLinkError,
> {
    match hint {
        None => inferred_file_type(target_kind),
        Some(expected) => checked_file_type(target_kind, expected),
    }
}

/// The path at which the link is created, or `None` where something is in
/// the way. A link path naming an existing directory places the link inside
/// it, under the name `into_dir` that was computed for it.
pub open spec fn link_placement(
    link: Seq<char>,
    link_kind: Option<FileKind>,
    into_dir: Option<Seq<char>>,
    into_dir_exists: bool,
) -> Option<Seq<char>> {
    match link_kind {
        None => Some(link),
        Some(FileKind::Directory) => match into_dir {
            Some(path) => if into_dir_exists {
                None
            } else {
                Some(path)
            },
            None => None,
        },
        Some(_) => None,
    }
}

pub fn mklink<'a>(target: &'a str, link: &'a str) -> (r: Link<'a>)
    ensures
        r.target == target,
        r.link == link,
{
    Link { target, link }
}

/// A request to link `link` to `target`.
#[derive(Clone, Copy, Debug)]
pub struct Link<'a> {
    pub target: &'a str,
    pub link: &'a str,
}

impl<'a> Link<'a> {
    /// The path inside the directory at the link path that has the target's
    /// file name, if the target has one.
    pub fn link_in_dir(&self) -> (r: Option<String>)
        ensures
            crate::link_error::string_option_view(r) == child_path(self.target@, self.link@),
    {
        match file_name_of(self.target) {
            Some(name) => Some(join_path(self.link, name.as_str())),
            None => None,
        }
    }

    pub fn with_hardness(&self, hardness: LinkHardness) -> (r: HardenedLink<'a>)
        ensures
            r.link == *self,
            r.hardness == hardness,
    {
        HardenedLink { link: *self, hardness }
    }

    /// Resolves to `link_type`, checked against the target's metadata.
    pub fn with_type(&self, link_type: LinkType, target_kind: Option<FileKind>) -> (r: Result<
        MkLink<'a>,
        LinkError<PreLinkError>,
    >)
        ensures
            resolves_to(
                *self,
                crate::link_type::hardness_of(link_type),
                checked_file_type(target_kind, crate::link_type::file_type_part(link_type)),
                r,
            ),
    {
        self.with_hardness(link_type.hardness()).with_type(link_type.file_type(), target_kind)
    }
}

/// `r` is the result of resolving `link` with hardness `hardness` to the
/// file type outcome `outcome`; errors are tagged as target errors.
pub open spec fn resolves_to<'a>(
    link: Link<'a>,
    hardness: LinkHardness,
    outcome: Result<LinkFileType, PreLinkError>,
    r: Result<MkLink<'a>, LinkError<PreLinkError>>,
) -> bool {
    match outcome {
        Ok(file_type) => r matches Ok(m) && m.link == link && m.link_type == link_type_of(
            hardness,
            file_type,
        ),
        Err(e) => r matches Err(err) && err@ == tagged(e, true, false),
    }
}

/// A link request whose hardness is decided.
#[derive(Clone, Copy, Debug)]
pub struct HardenedLink<'a> {
    pub link: Link<'a>,
    pub hardness: LinkHardness,
}

impl<'a> HardenedLink<'a> {
    /// Resolves to `file_type` without looking at the target.
    pub fn with_type_unchecked(&self, file_type: LinkFileType) -> (r: MkLink<'a>)
        ensures
            r.link == self.link,
            r.link_type == link_type_of(self.hardness, file_type),
    {
        MkLink { link: self.link, link_type: LinkType::new(self.hardness, file_type) }
    }

    fn get_inferred_file_type(&self, target_kind: Option<FileKind>) -> (r: Result<
        LinkFileType,
        PreLinkError,
    >)
        ensures
            r == inferred_file_type(target_kind),
    {
        match target_kind {
            Some(kind) => match LinkFileType::from(kind) {
                Some(file_type) => Ok(file_type),
                None => Err(PreLinkError::InvalidFileType),
            },
            None => Err(PreLinkError::InferredNonExistentTarget),
        }
    }

    /// Resolves to `file_type`, which must agree with the target where the
    /// target exists.
    pub fn with_type(&self, file_type: LinkFileType, target_kind: Option<FileKind>) -> (r: Result<
        MkLink<'a>,
        LinkError<PreLinkError>,
    >)
        ensures
            resolves_to(self.link, self.hardness, checked_file_type(target_kind, file_type), r),
    {
        let checked = match self.get_inferred_file_type(target_kind) {
            Ok(real_file_type) => {
                if real_file_type == file_type {
                    Ok(self.with_type_unchecked(file_type))
                } else {
                    Err(PreLinkError::LinkFileTypeMismatch)
                }
            },
            Err(PreLinkError::InferredNonExistentTarget) => Ok(self.with_type_unchecked(file_type)),
            Err(e) => Err(e),
        };
        match checked {
            Ok(m) => Ok(m),
            Err(e) => Err(LinkError::target(e)),
        }
    }

    /// Resolves to the file type of the existing target.
    pub fn infer_type(&self, target_kind: Option<FileKind>) -> (r: Result<
        MkLink<'a>,
        LinkError<PreLinkError>,
    >)
        ensures
            resolves_to(self.link, self.hardness, inferred_file_type(target_kind), r),
    {
        match self.get_inferred_file_type(target_kind) {
            Ok(file_type) => Ok(self.with_type_unchecked(file_type)),
            Err(e) => Err(LinkError::target(e)),
        }
    }

    /// Infers the file type where no hint is given, and checks the hint
    /// otherwise.
    pub fn maybe_with_type(
        &self,
        file_type: Option<LinkFileType>,
        target_kind: Option<FileKind>,
    ) -> (r: Result<MkLink<'a>, LinkError<PreLinkError>>)
        ensures
            resolves_to(self.link, self.hardness, hinted_file_type(target_kind, file_type), r),
    {
        match file_type {
            None => self.infer_type(target_kind),
            Some(file_type) => self.with_type(file_type, target_kind),
        }
    }
}

/// A fully resolved link operation.
#[derive(Clone, Copy, Debug)]
pub struct MkLink<'a> {
    pub link: Link<'a>,
    pub link_type: LinkType,
}

impl<'a> MkLink<'a> {
    /// The path inside the directory at the link path under which the link
    /// is placed if that path is a directory: the target's file name joined
    /// to the link path.
    pub fn link_in_dir(&self) -> (r: Option<String>)
        ensures
            crate::link_error::string_option_view(r) == child_path(self.link.target@, self.link.link@),
    {
        self.link.link_in_dir()
    }

    /// The path at which the link is created, given the link path's metadata
    /// (`None` where it cannot be read) and whether `link_in_dir` exists.
    fn resolve_link(&self, link_kind: Option<FileKind>, in_dir_exists: bool) -> (r: Result<
        String,
        LinkError<DuringLinkError>,
    >)
        ensures
            placed_at(
                link_placement(
                    self.link.link@,
                    link_kind,
                    child_path(self.link.target@, self.link.link@),
                    in_dir_exists,
                ),
                r,
            ),
    {
        let in_dir = match link_kind {
            Some(FileKind::Directory) => self.link_in_dir(),
            _ => None,
        };
        place_link(self.link.link, link_kind, in_dir, in_dir_exists)
    }

    /// Creates the link through `create_impl`, at the path that `resolve_link`
    /// gives, and then hands the link that was created to `after`.
    pub fn create_and<C, F>(
        &self,
        link_kind: Option<FileKind>,
        in_dir_exists: bool,
        create_impl: C,
        after: F,
    ) -> (r: Result<(), LinkError<DuringLinkError>>) where
        C: FnOnce(&MkLink) -> Result<(), LinkError<DuringLinkError>>,
        F: FnOnce(&MkLink),

        requires
            match link_placement(
                self.link.link@,
                link_kind,
                child_path(self.link.target@, self.link.link@),
                in_dir_exists,
            ) {
                None => true,
                Some(path) => forall|m: &MkLink|
                    m.link.target == self.link.target && m.link.link@ == path && m.link_type
                        == self.link_type ==> #[trigger] create_impl.requires((m,)),
            },
            forall|m: &MkLink, o: Result<(), LinkError<DuringLinkError>>|
                #![trigger create_impl.ensures((m,), o)]
                create_impl.ensures((m,), o) && o is Ok ==> after.requires((m,)),
        ensures
            match link_placement(
                self.link.link@,
                link_kind,
                child_path(self.link.target@, self.link.link@),
                in_dir_exists,
            ) {
                None => r matches Err(e) && e@ == tagged(DuringLinkError::LinkAlreadyExists, false, true),
                Some(path) => exists|m: &MkLink|
                    #![trigger create_impl.ensures((m,), r)]
                    m.link.target == self.link.target && m.link.link@ == path && m.link_type
                        == self.link_type && create_impl.ensures((m,), r) && (r is Ok
                        ==> after.ensures((m,), ())),
            },
    {
        let link = match self.resolve_link(link_kind, in_dir_exists) {
            Ok(link) => link,
            Err(e) => return Err(e),
        };
        let mk_link = MkLink {
            link: Link { target: self.link.target, link: link.as_str() },
            link_type: self.link_type,
        };
        let created = create_impl(&mk_link);
        if created.is_ok() {
            after(&mk_link);
        }
        created
    }
}

impl<'a> MkLink<'a> {
    /// Creates the link through `create_impl`, as `create_and` does, with
    /// nothing to run afterwards.
    pub fn create<C>(&self, link_kind: Option<FileKind>, in_dir_exists: bool, create_impl: C) -> (r:
        Result<(), LinkError<DuringLinkError>>) where
        C: FnOnce(&MkLink) -> Result<(), LinkError<DuringLinkError>>,

        requires
            match link_placement(
                self.link.link@,
                link_kind,
                child_path(self.link.target@, self.link.link@),
                in_dir_exists,
            ) {
                None => true,
                Some(path) => forall|m: &MkLink|
                    m.link.target == self.link.target && m.link.link@ == path && m.link_type
                        == self.link_type ==> #[trigger] create_impl.requires((m,)),
            },
        ensures
            match link_placement(
                self.link.link@,
                link_kind,
                child_path(self.link.target@, self.link.link@),
                in_dir_exists,
            ) {
                None => r matches Err(e) && e@ == tagged(DuringLinkError::LinkAlreadyExists, false, true),
                Some(path) => exists|m: &MkLink|
                    #![trigger create_impl.ensures((m,), r)]
                    m.link.target == self.link.target && m.link.link@ == path && m.link_type
                        == self.link_type && create_impl.ensures((m,), r),
            },
    {
        self.create_and(link_kind, in_dir_exists, create_impl, |_m: &MkLink| {})
    }
}

/// `r` is the outcome of placing a link where `placement` says.
pub open spec fn placed_at(placement: Option<Seq<char>>, r: Result<String, LinkError<DuringLinkError>>) -> bool {
    match placement {
        None => r matches Err(e) && e@ == tagged(DuringLinkError::LinkAlreadyExists, false, true),
        Some(path) => r matches Ok(p) && p@ == path,
    }
}

/// Decides where a link goes: at `link` where nothing is there, at `in_dir`
/// where `link` is a directory and `in_dir` is free, and nowhere otherwise.
pub fn place_link(
    link: &str,
    link_kind: Option<FileKind>,
    in_dir: Option<String>,
    in_dir_exists: bool,
) -> (r: Result<String, LinkError<DuringLinkError>>)
    ensures
        placed_at(
            link_placement(link@, link_kind, crate::link_error::string_option_view(in_dir), in_dir_exists),
            r,
        ),
{
    let taken = LinkError::link(DuringLinkError::LinkAlreadyExists);
    match link_kind {
        None => Ok(link.to_string()),
        Some(FileKind::Directory) => match in_dir {
            Some(path) => if in_dir_exists {
                Err(taken)
            } else {
                Ok(path)
            },
            None => Err(taken),
        },
        Some(_) => Err(taken),
    }
}

/// Inferring the file type resolves an existing regular file to a file
/// link and an existing directory to a directory link, and fails on a
/// missing target; a soft link request then becomes a symbolic file or
/// directory link.
pub proof fn lemma_inference_correct()
    ensures
        inferred_file_type(Some(FileKind::File)) == Ok::<LinkFileType, PreLinkError>(LinkFileType::File),
        inferred_file_type(Some(FileKind::Directory)) == Ok::<LinkFileType, PreLinkError>(
            LinkFileType::Directory,
        ),
        inferred_file_type(None) == Err::<LinkFileType, PreLinkError>(
            PreLinkError::InferredNonExistentTarget,
        ),
        link_type_of(LinkHardness::Soft, LinkFileType::File) == LinkType::File,
        link_type_of(LinkHardness::Soft, LinkFileType::Directory) == LinkType::Directory,
{
}

/// A file type that contradicts an existing target is refused, and a
/// target of the requested type is accepted.
pub proof fn lemma_mismatch_detected(kind: FileKind, expected: LinkFileType)
    requires
        file_type_of(kind) is Some,
    ensures
        checked_file_type(Some(kind), expected) == if file_type_of(kind) == Some(expected) {
            Ok::<LinkFileType, PreLinkError>(expected)
        } else {
            Err(PreLinkError::LinkFileTypeMismatch)
        },
{
}

/// A file type requested for a missing target is trusted as given.
pub proof fn lemma_missing_target_trusts_hint(expected: LinkFileType)
    ensures
        checked_file_type(None, expected) == Ok::<LinkFileType, PreLinkError>(expected),
{
}

/// Where something that is not a directory is at the link path, no link is
/// placed, whatever the rest of the request.
pub proof fn lemma_collision_detected(
    link: Seq<char>,
    kind: FileKind,
    into_dir: Option<Seq<char>>,
    into_dir_exists: bool,
)
    requires
        kind != FileKind::Directory,
    ensures
        link_placement(link, Some(kind), into_dir, into_dir_exists) is None,
{
}

/// Where the link path is a directory, the link goes inside it under the
/// target's file name, unless something is there already.
pub proof fn lemma_link_into_directory(target: Seq<char>, link: Seq<char>, name: Seq<char>, taken: bool)
    requires
        crate::paths::path_file_name(target) == Some(name),
    ensures
        link_placement(link, Some(FileKind::Directory), child_path(target, link), taken) == if taken {
            None
        } else {
            Some(crate::paths::path_join(link, name))
        },
{
}

} // verus!
