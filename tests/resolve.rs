use mklink::link_error::{LinkError, PreLinkError};
use mklink::link_type::{FileKind, LinkFileType, LinkHardness, LinkType};
use mklink::mklink;

fn target_error(e: PreLinkError) -> LinkError<PreLinkError> {
    LinkError { error: e, target: true, link: false, program: None }
}

#[test]
fn infer_regular_file() {
    let link = mklink("/a/f.txt", "/a/link1").with_hardness(LinkHardness::Soft);
    let m = link.infer_type(Some(FileKind::File)).unwrap();
    assert_eq!(m.link_type, LinkType::File);
    assert_eq!(m.link.target, "/a/f.txt");
    assert_eq!(m.link.link, "/a/link1");
}

#[test]
fn infer_directory() {
    let link = mklink("/a/d", "/a/l").with_hardness(LinkHardness::Soft);
    assert_eq!(link.infer_type(Some(FileKind::Directory)).unwrap().link_type, LinkType::Directory);
}

#[test]
fn infer_symlink_is_file() {
    let link = mklink("/a/s", "/a/l").with_hardness(LinkHardness::Hard);
    assert_eq!(link.infer_type(Some(FileKind::Symlink)).unwrap().link_type, LinkType::Hard);
}

#[test]
fn infer_missing_target() {
    let link = mklink("/a/none", "/a/l").with_hardness(LinkHardness::Soft);
    assert_eq!(link.infer_type(None).unwrap_err(), target_error(PreLinkError::InferredNonExistentTarget));
}

#[test]
fn infer_unsupported_target() {
    let link = mklink("/dev/null", "/a/l").with_hardness(LinkHardness::Soft);
    assert_eq!(link.infer_type(Some(FileKind::Other)).unwrap_err(), target_error(PreLinkError::InvalidFileType));
}

#[test]
fn with_type_mismatch() {
    let link = mklink("/a/d", "/a/l").with_hardness(LinkHardness::Soft);
    assert_eq!(
        link.with_type(LinkFileType::File, Some(FileKind::Directory)).unwrap_err(),
        target_error(PreLinkError::LinkFileTypeMismatch)
    );
}

#[test]
fn with_type_match() {
    let link = mklink("/a/d", "/a/l").with_hardness(LinkHardness::Hard);
    let m = link.with_type(LinkFileType::Directory, Some(FileKind::Directory)).unwrap();
    assert_eq!(m.link_type, LinkType::Junction);
}

#[test]
fn with_type_missing_target_trusts_hint() {
    let link = mklink("/a/none", "/a/l").with_hardness(LinkHardness::Hard);
    assert_eq!(link.with_type(LinkFileType::Directory, None).unwrap().link_type, LinkType::Junction);
}

#[test]
fn with_type_unsupported_target() {
    let link = mklink("/dev/null", "/a/l").with_hardness(LinkHardness::Soft);
    assert_eq!(
        link.with_type(LinkFileType::File, Some(FileKind::Other)).unwrap_err(),
        target_error(PreLinkError::InvalidFileType)
    );
}

#[test]
fn with_type_unchecked_skips_metadata() {
    let link = mklink("/a/f", "/a/l").with_hardness(LinkHardness::Soft);
    assert_eq!(link.with_type_unchecked(LinkFileType::Directory).link_type, LinkType::Directory);
}

#[test]
fn maybe_with_type_dispatch() {
    let link = mklink("/a/f", "/a/l").with_hardness(LinkHardness::Soft);
    assert_eq!(link.maybe_with_type(None, Some(FileKind::File)).unwrap().link_type, LinkType::File);
    assert_eq!(
        link.maybe_with_type(Some(LinkFileType::Directory), Some(FileKind::File)).unwrap_err(),
        target_error(PreLinkError::LinkFileTypeMismatch)
    );
    assert_eq!(
        link.maybe_with_type(None, None).unwrap_err(),
        target_error(PreLinkError::InferredNonExistentTarget)
    );
}

#[test]
fn link_with_link_type() {
    let link = mklink("/a/f", "/a/l");
    assert_eq!(link.with_type(LinkType::Hard, Some(FileKind::File)).unwrap().link_type, LinkType::Hard);
    assert_eq!(
        link.with_type(LinkType::Junction, Some(FileKind::File)).unwrap_err(),
        target_error(PreLinkError::LinkFileTypeMismatch)
    );
}
