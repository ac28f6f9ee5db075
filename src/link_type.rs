use vstd::prelude::*;

verus! {

/// Whether a link is symbolic (`Soft`) or a hard link / junction (`Hard`).
#[derive(Clone, Copy, Debug, PartialEq, Eq, Structural)]
pub enum LinkHardness {
    Soft,
    Hard,
}

/// The kind of filesystem object a link points at.
#[derive(Clone, Copy, Debug, PartialEq, Eq, Structural)]
pub enum LinkFileType {
    File,
    Directory,
}

/// What a metadata query reports about an existing filesystem entry.
#[derive(Clone, Copy, Debug, PartialEq, Eq, Structural)]
pub enum FileKind {
    File,
    Symlink,
    Directory,
    /// A device, socket, FIFO or anything else that is not linkable.
    Other,
}

/// The link file type that an entry of kind `kind` supports, if any.
pub open spec fn file_type_of(kind: FileKind) -> Option<LinkFileType> {
    match kind {
        FileKind::File | FileKind::Symlink => Some(LinkFileType::File),
        FileKind::Directory => Some(LinkFileType::Directory),
        FileKind::Other => None,
    }
}

impl LinkFileType {
    /// Regular files and symbolic links map to `File`, directories to
    /// `Directory`, and anything else is unsupported.
    pub fn from(file_type: FileKind) -> (r: Option<LinkFileType>)
        ensures
            r == file_type_of(file_type),
    {
        match file_type {
            FileKind::File | FileKind::Symlink => Some(LinkFileType::File),
            FileKind::Directory => Some(LinkFileType::Directory),
            FileKind::Other => None,
        }
    }
}

/// The four concrete link operations.
#[derive(Clone, Copy, Debug, PartialEq, Eq, Structural)]
pub enum LinkType {
    /// Symbolic link to a file.
    File,
    /// Symbolic link to a directory.
    Directory,
    /// Hard link to a file.
    Hard,
    /// Directory junction.
    Junction,
}

pub open spec fn hardness_of(t: LinkType) -> LinkHardness {
    match t {
        LinkType::File | LinkType::Directory => LinkHardness::Soft,
        LinkType::Hard | LinkType::Junction => LinkHardness::Hard,
    }
}

pub open spec fn file_type_part(t: LinkType) -> LinkFileType {
    match t {
        LinkType::File | LinkType::Hard => LinkFileType::File,
        LinkType::Directory | LinkType::Junction => LinkFileType::Directory,
    }
}

/// The link type with the given hardness and file type.
pub open spec fn link_type_of(hardness: LinkHardness, file_type: LinkFileType) -> LinkType {
    match (hardness, file_type) {
        (LinkHardness::Soft, LinkFileType::File) => LinkType::File,
        (LinkHardness::Soft, LinkFileType::Directory) => LinkType::Directory,
        (LinkHardness::Hard, LinkFileType::File) => LinkType::Hard,
        (LinkHardness::Hard, LinkFileType::Directory) => LinkType::Junction,
    }
}

impl LinkType {
    pub fn hardness(&self) -> (r: LinkHardness)
        ensures
            r == hardness_of(*self),
    {
        match self {
            LinkType::File => LinkHardness::Soft,
            LinkType::Directory => LinkHardness::Soft,
            LinkType::Hard => LinkHardness::Hard,
            LinkType::Junction => LinkHardness::Hard,
        }
    }

    pub fn file_type(&self) -> (r: LinkFileType)
        ensures
            r == file_type_part(*self),
    {
        match self {
            LinkType::File => LinkFileType::File,
            LinkType::Directory => LinkFileType::Directory,
            LinkType::Hard => LinkFileType::File,
            LinkType::Junction => LinkFileType::Directory,
        }
    }

    pub fn is_hard(&self) -> (r: bool)
        ensures
            r == (hardness_of(*self) == LinkHardness::Hard),
    {
        self.hardness() == LinkHardness::Hard
    }

    pub fn is_soft(&self) -> (r: bool)
        ensures
            r == (hardness_of(*self) == LinkHardness::Soft),
    {
        self.hardness() == LinkHardness::Soft
    }

    pub fn is_file(&self) -> (r: bool)
        ensures
            r == (file_type_part(*self) == LinkFileType::File),
    {
        self.file_type() == LinkFileType::File
    }

    pub fn is_dir(&self) -> (r: bool)
        ensures
            r == (file_type_part(*self) == LinkFileType::Directory),
    {
        self.file_type() == LinkFileType::Directory
    }

    pub fn new(hardness: LinkHardness, file_type: LinkFileType) -> (r: LinkType)
        ensures
            r == link_type_of(hardness, file_type),
            hardness_of(r) == hardness,
            file_type_part(r) == file_type,
    {
        match hardness {
            LinkHardness::Soft => match file_type {
                LinkFileType::File => LinkType::File,
                LinkFileType::Directory => LinkType::Directory,
            },
            LinkHardness::Hard => match file_type {
                LinkFileType::File => LinkType::Hard,
                LinkFileType::Directory => LinkType::Junction,
            },
        }
    }

    /// A human-readable name of the link type.
    pub fn name(&self) -> (r: &'static str)
        ensures
            r@ == link_type_name(*self)@,
    {
        match self {
            LinkType::File => "symbolic file link",
            LinkType::Directory => "symbolic directory link",
            LinkType::Hard => "hard link",
            LinkType::Junction => "directory junction",
        }
    }
}

pub open spec fn link_type_name(t: LinkType) -> &'static str {
    match t {
        LinkType::File => "symbolic file link",
        LinkType::Directory => "symbolic directory link",
        LinkType::Hard => "hard link",
        LinkType::Junction => "directory junction",
    }
}

/// Splitting a link type into its hardness and file type and joining them
/// again gives back the same link type.
pub proof fn lemma_link_type_split_join(t: LinkType)
    ensures
        link_type_of(hardness_of(t), file_type_part(t)) == t,
{
}

/// Joining a hardness and a file type into a link type and splitting it again
/// gives back the same pair.
pub proof fn lemma_link_type_join_split(hardness: LinkHardness, file_type: LinkFileType)
    ensures
        hardness_of(link_type_of(hardness, file_type)) == hardness,
        file_type_part(link_type_of(hardness, file_type)) == file_type,
{
}

} // verus!
