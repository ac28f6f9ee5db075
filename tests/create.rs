use std::cell::RefCell;

use mklink::link_error::{DuringLinkError, LinkError, OSError, PreLinkError};
use mklink::link_type::{FileKind, LinkHardness, LinkType};
use mklink::request::{AnyLinkError, MkLinkArgs};
use mklink::{mklink, place_link, MkLink};

fn collision<E>(error: E) -> LinkError<E> {
    LinkError { error, target: false, link: true, program: None }
}

fn args(hard: bool, file: bool, dir: bool, target: &str, link: &str) -> MkLinkArgs {
    MkLinkArgs { hard, file, dir, raw: false, target: target.to_string(), link: link.to_string() }
}

#[test]
fn collision_for_every_link_type() {
    for t in [LinkType::File, LinkType::Directory, LinkType::Hard, LinkType::Junction].iter() {
        let m = MkLink { link: mklink("/a/f", "/a/existing"), link_type: *t };
        let called = RefCell::new(false);
        let r = m.create(Some(FileKind::File), false, |_: &MkLink| {
            *called.borrow_mut() = true;
            Ok(())
        });
        assert_eq!(r, Err(collision(DuringLinkError::LinkAlreadyExists)));
        assert!(!*called.borrow());
    }
}

#[test]
fn link_in_directory_path() {
    let m = MkLink { link: mklink("/x/foo", "/a/dir"), link_type: LinkType::File };
    assert_eq!(m.link_in_dir(), Some("/a/dir/foo".to_string()));
    let root = MkLink { link: mklink("/", "/a/dir"), link_type: LinkType::Directory };
    assert_eq!(root.link_in_dir(), None);
}

#[test]
fn link_into_directory_reports_joined_path() {
    let m = MkLink { link: mklink("/x/foo", "/a/dir"), link_type: LinkType::File };
    let created = RefCell::new(String::new());
    let reported = RefCell::new(String::new());
    let r = m.create_and(
        Some(FileKind::Directory),
        false,
        |c: &MkLink| {
            *created.borrow_mut() = c.link.link.to_string();
            Ok(())
        },
        |c: &MkLink| {
            *reported.borrow_mut() = c.link.link.to_string();
        },
    );
    assert_eq!(r, Ok(()));
    assert_eq!(*created.borrow(), "/a/dir/foo");
    assert_eq!(*reported.borrow(), "/a/dir/foo");
}

#[test]
fn link_into_directory_collision() {
    let m = MkLink { link: mklink("/x/foo", "/a/dir"), link_type: LinkType::Junction };
    let r = m.create(Some(FileKind::Directory), true, |_: &MkLink| Ok(()));
    assert_eq!(r, Err(collision(DuringLinkError::LinkAlreadyExists)));
}

#[test]
fn hook_not_run_on_failure() {
    let m = MkLink { link: mklink("/x/foo", "/a/new"), link_type: LinkType::File };
    let reported = RefCell::new(false);
    let failure = LinkError { error: DuringLinkError::OS(OSError(5)), target: true, link: true, program: None };
    let r = m.create_and(None, false, |_: &MkLink| Err(failure.clone_error()), |_: &MkLink| {
        *reported.borrow_mut() = true;
    });
    assert_eq!(r, Err(LinkError { error: DuringLinkError::OS(OSError(5)), target: true, link: true, program: None }));
    assert!(!*reported.borrow());
}

trait CloneError {
    fn clone_error(&self) -> Self;
}

impl CloneError for LinkError<DuringLinkError> {
    fn clone_error(&self) -> Self {
        LinkError { error: self.error, target: self.target, link: self.link, program: self.program.clone() }
    }
}

#[test]
fn place_link_cases() {
    assert_eq!(place_link("/a/l", None, None, false), Ok("/a/l".to_string()));
    assert_eq!(
        place_link("/a/l", Some(FileKind::Directory), Some("/a/l/f".to_string()), false),
        Ok("/a/l/f".to_string())
    );
    assert_eq!(
        place_link("/a/l", Some(FileKind::Directory), Some("/a/l/f".to_string()), true),
        Err(collision(DuringLinkError::LinkAlreadyExists))
    );
    assert_eq!(
        place_link("/a/l", Some(FileKind::Directory), None, false),
        Err(collision(DuringLinkError::LinkAlreadyExists))
    );
    assert_eq!(
        place_link("/a/l", Some(FileKind::Symlink), None, false),
        Err(collision(DuringLinkError::LinkAlreadyExists))
    );
}

#[test]
fn scenario_file_link() {
    let a = args(false, false, false, "/a/f.txt", "/a/link1");
    let created = RefCell::new(None);
    let m = a
        .run(Some(FileKind::File), None, false, |c: &MkLink| {
            *created.borrow_mut() = Some((c.link_type, c.link.target.to_string(), c.link.link.to_string()));
            Ok(())
        })
        .unwrap();
    assert_eq!(m.link_type, LinkType::File);
    assert_eq!(
        *created.borrow(),
        Some((LinkType::File, "/a/f.txt".to_string(), "/a/link1".to_string()))
    );
}

#[test]
fn scenario_junction() {
    let a = args(true, false, false, "/a/d", "/a/link2");
    let m = a.run(Some(FileKind::Directory), None, false, |_: &MkLink| Ok(())).unwrap();
    assert_eq!(m.link_type, LinkType::Junction);
}

#[test]
fn scenario_missing_target() {
    let a = args(false, false, false, "/a/missing", "/a/link3");
    let called = RefCell::new(false);
    let r = a.run(None, None, false, |_: &MkLink| {
        *called.borrow_mut() = true;
        Ok(())
    });
    assert!(!*called.borrow());
    assert_eq!(
        r.unwrap_err(),
        LinkError {
            error: AnyLinkError::Pre(PreLinkError::InferredNonExistentTarget),
            target: true,
            link: false,
            program: None
        }
    );
}

#[test]
fn scenario_existing_link() {
    for target in [Some(FileKind::File), Some(FileKind::Directory)].iter() {
        let a = args(false, false, false, "/a/f.txt", "/a/existing");
        let r = a.run(*target, Some(FileKind::File), false, |_: &MkLink| Ok(()));
        assert_eq!(r.unwrap_err(), collision(AnyLinkError::During(DuringLinkError::LinkAlreadyExists)));
    }
    let a = args(false, true, false, "/a/missing", "/a/existing");
    let r = a.run(None, Some(FileKind::File), false, |_: &MkLink| Ok(()));
    assert_eq!(r.unwrap_err(), collision(AnyLinkError::During(DuringLinkError::LinkAlreadyExists)));
}

#[test]
fn run_reports_os_error() {
    let a = args(true, false, false, "/a/f", "/a/l");
    let r = a.run(Some(FileKind::File), None, false, |_: &MkLink| {
        Err(LinkError { error: DuringLinkError::OS(OSError(17)), target: true, link: true, program: None })
    });
    assert_eq!(
        r.unwrap_err(),
        LinkError { error: AnyLinkError::During(DuringLinkError::OS(OSError(17))), target: true, link: true, program: None }
    );
}

#[test]
fn conflicting_hints() {
    let a = args(false, true, true, "/a/f", "/a/l");
    assert_eq!(
        a.as_mk_link(Some(FileKind::File)).unwrap_err(),
        LinkError { error: AnyLinkError::InvalidArgs, target: false, link: false, program: None }
    );
}

#[test]
fn raw_mode_skips_checks() {
    let mut a = args(true, false, true, "/a/f", "/a/l");
    a.raw = true;
    let m = a.as_mk_link(Some(FileKind::File)).unwrap();
    assert_eq!(m.link_type, LinkType::Junction);
    assert_eq!(m.link.target, "/a/f");
}

#[test]
fn hint_checked_against_target() {
    let a = args(false, false, true, "/a/f", "/a/l");
    assert_eq!(
        a.as_mk_link(Some(FileKind::File)).unwrap_err(),
        LinkError {
            error: AnyLinkError::Pre(PreLinkError::LinkFileTypeMismatch),
            target: true,
            link: false,
            program: None
        }
    );
    let hard = mklink("/a/f", "/a/l").with_hardness(LinkHardness::Hard);
    assert_eq!(hard.hardness, LinkHardness::Hard);
}
