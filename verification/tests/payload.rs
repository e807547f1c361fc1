use std::io::Read;
use std::path::PathBuf;

use retrovert_player::payload::{
    inspected, ArchiveRead, Contents, Entry, Failure, Found, Installed, PayloadStep, PayloadStore,
    UnpackFailure,
};
use retrovert_player::tree::TreePath;

fn archive_with(entries: &[(&str, &[u8])]) -> Vec<u8> {
    let mut builder = tar::Builder::new(Vec::new());
    for (name, bytes) in entries {
        let mut header = tar::Header::new_gnu();
        header.set_size(bytes.len() as u64);
        header.set_mode(0o644);
        header.set_cksum();
        builder.append_data(&mut header, name, *bytes).unwrap();
    }
    let tarred = builder.into_inner().unwrap();
    zstd::stream::encode_all(tarred.as_slice(), 0).unwrap()
}

fn installed(name: &str, path: &str) -> Installed {
    Installed {
        name: name.to_string(),
        target: None,
        version: None,
        revision: "abc1234".to_string(),
        sha256: "ab".repeat(32),
        size: 0,
        path: path.to_string(),
    }
}

fn lib_name(name: &str) -> String {
    format!("{}_playback{}", name, ".so")
}

fn base() -> TreePath {
    TreePath::new(PathBuf::from("/disk"))
}

fn store() -> PayloadStore {
    PayloadStore::new(base().join("payloads"), ".so")
}

fn shown(place: &TreePath) -> String {
    place.segments.join("/")
}

fn failure(place: &TreePath, cause: &str) -> Failure {
    Failure {
        shown: shown(place),
        cause: cause.to_string(),
    }
}

/// A file system in memory: directories, and files that are regular or links.
struct Disk {
    dirs: Vec<TreePath>,
    files: Vec<(TreePath, Vec<u8>, bool)>,
    asked: Vec<String>,
}

impl Disk {
    fn new() -> Self {
        Disk {
            dirs: Vec::new(),
            files: Vec::new(),
            asked: Vec::new(),
        }
    }

    fn write(&mut self, place: TreePath, bytes: &[u8]) {
        self.files.push((place, bytes.to_vec(), true));
    }

    fn read(&self, place: &TreePath) -> Option<&Vec<u8>> {
        self.files.iter().find(|file| &file.0 == place).map(|file| &file.1)
    }

    fn is_file(&self, place: &TreePath) -> bool {
        self.files.iter().any(|file| &file.0 == place && file.2)
    }

    fn beneath(place: &TreePath, dir: &TreePath) -> bool {
        place.segments.len() > dir.segments.len()
            && place.segments[..dir.segments.len()] == dir.segments[..]
    }

    fn unpack(&mut self, tarred: impl Read, into: &TreePath) -> Result<(), String> {
        let mut archive = tar::Archive::new(tarred);
        for entry in archive.entries().map_err(|e| e.to_string())? {
            let mut entry = entry.map_err(|e| e.to_string())?;
            let name = entry.path().unwrap().to_string_lossy().into_owned();
            let regular = entry.header().entry_type().is_file();
            let mut bytes = Vec::new();
            entry.read_to_end(&mut bytes).map_err(|e| e.to_string())?;
            let mut place = into.clone();
            for segment in name.split('/') {
                place = place.join(segment);
            }
            self.files.push((place, bytes, regular));
        }
        Ok(())
    }

    /// Does what the store asks for until the payload is there or refused.
    fn ensure(
        &mut self,
        id: &str,
        generation_dir: &TreePath,
        artifacts: &[Installed],
    ) -> Result<Vec<TreePath>, String> {
        let store = store();
        let committed = self.dirs.contains(&store.dir_of(id));
        let mut step = store.ensure(id, generation_dir, &artifacts.to_vec(), committed);
        loop {
            step = match step {
                PayloadStep::ClearStaging(extraction) => {
                    self.asked.push(format!("clear {}", shown(&extraction.staging)));
                    let staging = extraction.staging.clone();
                    self.dirs.retain(|dir| dir != &staging);
                    self.files.retain(|file| !Disk::beneath(&file.0, &staging));
                    extraction.cleared(Ok(()))
                }
                PayloadStep::CreateStaging(extraction) => {
                    self.asked.push(format!("create {}", shown(&extraction.staging)));
                    self.dirs.push(extraction.staging.clone());
                    extraction.created(Ok(()))
                }
                PayloadStep::ReadArchive(unpacking) => {
                    self.asked.push(format!("read {}", shown(&unpacking.archive)));
                    let read = match self.read(&unpacking.archive) {
                        Some(bytes) => ArchiveRead::Bytes(bytes.clone()),
                        None => ArchiveRead::Unopened(failure(&unpacking.archive, "not found")),
                    };
                    unpacking.read(read)
                }
                PayloadStep::Unpack(unpacking, contents) => {
                    let into = unpacking.extraction.staging.clone();
                    let result = match contents {
                        Contents::Tar(tarred) => {
                            self.asked.push("unpack a tree".to_string());
                            self.unpack(tarred.as_slice(), &into)
                        }
                        Contents::Stream => {
                            self.asked.push("unpack a stream".to_string());
                            let bytes = self.read(&unpacking.archive).unwrap().clone();
                            let decoder =
                                zstd::stream::read::Decoder::new(bytes.as_slice()).unwrap();
                            self.unpack(decoder, &into)
                        }
                    };
                    let archive = unpacking.archive.clone();
                    unpacking.unpacked(
                        result.map_err(|_| UnpackFailure::Unpack(failure(&archive, "damaged"))),
                    )
                }
                PayloadStep::Commit(extraction) => {
                    self.asked.push(format!("commit {}", shown(&extraction.dir)));
                    let staging = extraction.staging.clone();
                    let dir = extraction.dir.clone();
                    for place in self.dirs.iter_mut() {
                        if place == &staging {
                            *place = dir.clone();
                        }
                    }
                    for file in self.files.iter_mut() {
                        if Disk::beneath(&file.0, &staging) {
                            let mut moved = dir.clone();
                            for segment in &file.0.segments[staging.segments.len()..] {
                                moved = moved.join(segment);
                            }
                            file.0 = moved;
                        }
                    }
                    extraction.committed(Ok(()), &shown(&dir))
                }
                PayloadStep::Inspect(libraries) => {
                    let found: Vec<Found> = libraries
                        .iter()
                        .map(|library| Found {
                            regular: self.is_file(library),
                            shown: shown(library),
                        })
                        .collect();
                    return inspected(libraries, &found);
                }
                PayloadStep::Refused(why) => return Err(why),
            };
        }
    }
}

#[test]
fn an_archive_extracts_into_a_committed_tree() {
    let mut disk = Disk::new();
    let generation_dir = base().join("generation");
    let archive = archive_with(&[
        (&lib_name("spu"), b"not really a library"),
        ("spu_data/table.bin", b"payload data"),
    ]);
    disk.write(generation_dir.join("spu.tar.zst"), &archive);

    let store = store();
    let libraries = disk
        .ensure("gen-a", &generation_dir, &[installed("spu", "spu.tar.zst")])
        .expect("an extracted payload");

    assert_eq!(libraries, vec![store.dir_of("gen-a").join(&lib_name("spu"))]);
    assert!(disk.is_file(&libraries[0]));
    assert!(disk.is_file(&store.dir_of("gen-a").join("spu_data").join("table.bin")));
    assert_eq!(
        disk.asked,
        vec![
            "clear payloads/.staging-gen-a",
            "create payloads/.staging-gen-a",
            "read generation/spu.tar.zst",
            "unpack a tree",
            "commit payloads/gen-a"
        ]
    );
}

#[test]
fn a_committed_tree_is_trusted_and_never_re_extracted() {
    let mut disk = Disk::new();
    let store = store();
    let committed = store.dir_of("gen-a");
    disk.dirs.push(committed.clone());
    disk.write(committed.join(&lib_name("spu")), b"planted");

    // The generation directory holds no archive at all: extraction would
    // fail, so returning the planted library proves it was not attempted.
    let libraries = disk
        .ensure("gen-a", &base(), &[installed("spu", "spu.tar.zst")])
        .expect("the committed tree");
    assert_eq!(disk.read(&libraries[0]).unwrap(), b"planted");
    assert!(disk.asked.is_empty());
}

#[test]
fn a_missing_library_after_extraction_is_refused() {
    let mut disk = Disk::new();
    let generation_dir = base().join("generation");
    let archive = archive_with(&[("README", b"no library here")]);
    disk.write(generation_dir.join("spu.tar.zst"), &archive);

    let refused = disk.ensure("gen-a", &generation_dir, &[installed("spu", "spu.tar.zst")]);
    assert!(refused.is_err(), "{refused:?}");
    assert_eq!(
        refused.unwrap_err(),
        "payloads/gen-a/spu_playback.so is missing from the extracted payload"
    );
}

#[test]
fn a_library_that_is_a_symlink_is_refused() {
    let mut disk = Disk::new();
    let generation_dir = base().join("generation");
    let outside = PathBuf::from("/disk/outside.so");
    disk.write(base().join("outside.so"), b"a library the archive does not own");

    // The target escapes the tree even though nothing is written outside it.
    let mut builder = tar::Builder::new(Vec::new());
    let mut header = tar::Header::new_gnu();
    header.set_size(0);
    header.set_mode(0o777);
    header.set_entry_type(tar::EntryType::Symlink);
    header.set_link_name(&outside).unwrap();
    header.set_cksum();
    builder
        .append_data(&mut header, lib_name("spu"), std::io::empty())
        .unwrap();
    let archive = zstd::stream::encode_all(builder.into_inner().unwrap().as_slice(), 0).unwrap();
    disk.write(generation_dir.join("spu.tar.zst"), &archive);

    let refused = disk.ensure("gen-a", &generation_dir, &[installed("spu", "spu.tar.zst")]);
    assert!(
        refused.is_err(),
        "a symlinked library must not load: {refused:?}"
    );
}

#[test]
fn retain_keeps_the_live_trees_and_clears_the_rest() {
    let store = store();
    let mut entries: Vec<Entry> = ["gen-a", "gen-b", ".staging-gen-c"]
        .iter()
        .map(|id| Entry {
            name: Some(id.to_string()),
            is_dir: true,
        })
        .collect();
    entries.push(Entry {
        name: Some("notes.txt".to_string()),
        is_dir: false,
    });
    entries.push(Entry {
        name: None,
        is_dir: true,
    });

    let gone = store.retain(&vec!["gen-a".to_string()], &entries);

    assert!(!gone.contains(&store.dir_of("gen-a")));
    assert!(gone.contains(&store.dir_of("gen-b")));
    assert!(gone.contains(&store.staging_of("gen-c")));
    assert_eq!(gone, vec![store.dir_of("gen-b"), store.root().join(".staging-gen-c")]);
}

#[test]
fn leftovers_of_a_crashed_run_do_not_merge_in() {
    let mut disk = Disk::new();
    let store = store();
    let staging = store.staging_of("gen-a");
    disk.dirs.push(staging.clone());
    disk.write(staging.join("stale.bin"), b"stale");
    let generation_dir = base().join("generation");
    let archive = archive_with(&[(&lib_name("spu"), b"fresh")]);
    disk.write(generation_dir.join("spu.tar.zst"), &archive);

    let libraries = disk
        .ensure("gen-a", &generation_dir, &[installed("spu", "spu.tar.zst")])
        .unwrap();
    assert_eq!(disk.read(&libraries[0]).unwrap(), b"fresh");
    assert!(!disk.is_file(&store.dir_of("gen-a").join("stale.bin")));
}

#[test]
fn a_tree_commits_only_when_every_artifact_is_in_it() {
    let mut disk = Disk::new();
    let generation_dir = base().join("generation");
    let archive = archive_with(&[(&lib_name("spu"), b"one")]);
    disk.write(generation_dir.join("spu.tar.zst"), &archive);

    let artifacts = [installed("spu", "spu.tar.zst"), installed("sid", "sid.tar.zst")];
    let refused = disk.ensure("gen-a", &generation_dir, &artifacts);
    assert_eq!(refused.unwrap_err(), "could not open generation/sid.tar.zst: not found");
    assert!(!disk.dirs.contains(&store().dir_of("gen-a")));

    let archive = archive_with(&[(&lib_name("sid"), b"two")]);
    disk.write(generation_dir.join("sid.tar.zst"), &archive);
    let libraries = disk.ensure("gen-a", &generation_dir, &artifacts).unwrap();
    assert_eq!(disk.read(&libraries[0]).unwrap(), b"one");
    assert_eq!(disk.read(&libraries[1]).unwrap(), b"two");
}

#[test]
fn a_generation_without_artifacts_commits_an_empty_tree() {
    let mut disk = Disk::new();
    assert_eq!(disk.ensure("gen-a", &base(), &[]).unwrap(), Vec::new());
    assert!(disk.dirs.contains(&store().dir_of("gen-a")));
}

#[test]
fn an_artifact_in_another_form_is_refused() {
    let mut disk = Disk::new();
    let refused = disk.ensure("gen-a", &base(), &[installed("spu", "spu.zip")]);
    assert_eq!(
        refused.unwrap_err(),
        "artifact spu is not a .tar.zst archive: spu.zip"
    );
}

#[test]
fn a_damaged_archive_is_read_as_a_stream_and_refused() {
    let mut disk = Disk::new();
    let generation_dir = base().join("generation");
    disk.write(generation_dir.join("spu.tar.zst"), b"no zstd at all");
    let refused = disk.ensure("gen-a", &generation_dir, &[installed("spu", "spu.tar.zst")]);
    assert_eq!(
        refused.unwrap_err(),
        "could not unpack generation/spu.tar.zst: damaged"
    );
    assert!(disk.asked.contains(&"unpack a stream".to_string()));
}

#[test]
fn damage_behind_the_end_of_the_tree_does_not_matter() {
    let mut disk = Disk::new();
    let generation_dir = base().join("generation");
    let mut archive = archive_with(&[(&lib_name("spu"), b"whole")]);
    archive.extend_from_slice(b"trailing noise");
    disk.write(generation_dir.join("spu.tar.zst"), &archive);
    let libraries = disk
        .ensure("gen-a", &generation_dir, &[installed("spu", "spu.tar.zst")])
        .unwrap();
    assert_eq!(disk.read(&libraries[0]).unwrap(), b"whole");
    assert!(disk.asked.contains(&"unpack a stream".to_string()));
}

fn begun() -> retrovert_player::payload::Extraction {
    let step = store().ensure(
        "gen-a",
        &base(),
        &vec![installed("spu", "spu.tar.zst")],
        false,
    );
    match step {
        PayloadStep::ClearStaging(extraction) => extraction,
        other => panic!("{other:?}"),
    }
}

fn reading() -> retrovert_player::payload::Unpacking {
    match begun().created(Ok(())) {
        PayloadStep::ReadArchive(unpacking) => unpacking,
        other => panic!("{other:?}"),
    }
}

fn refused(step: PayloadStep) -> String {
    match step {
        PayloadStep::Refused(why) => why,
        other => panic!("{other:?}"),
    }
}

#[test]
fn every_failure_is_described() {
    let why = || Failure {
        shown: "/x".to_string(),
        cause: "denied".to_string(),
    };
    assert_eq!(refused(begun().cleared(Err(why()))), "could not clear /x: denied");
    assert_eq!(refused(begun().created(Err(why()))), "could not create /x: denied");
    assert_eq!(
        refused(begun().committed(Err(why()), "/y")),
        "could not commit /x to /y: denied"
    );
    assert_eq!(
        refused(reading().read(ArchiveRead::Unopened(why()))),
        "could not open /x: denied"
    );
    assert_eq!(
        refused(reading().unpacked(Err(UnpackFailure::Open(why())))),
        "could not open /x: denied"
    );
    assert_eq!(
        refused(reading().unpacked(Err(UnpackFailure::Decode(why())))),
        "could not decode /x: denied"
    );
    assert_eq!(
        refused(reading().unpacked(Err(UnpackFailure::Unpack(why())))),
        "could not unpack /x: denied"
    );
}

#[test]
fn an_archive_is_decoded_before_it_is_unpacked() {
    let tarred = b"some bytes that a tree could be in".repeat(50);
    let archive = zstd::stream::encode_all(tarred.as_slice(), 0).unwrap();
    assert_ne!(archive, tarred);
    match reading().read(ArchiveRead::Bytes(archive)) {
        PayloadStep::Unpack(_, Contents::Tar(content)) => assert_eq!(content, tarred),
        other => panic!("{other:?}"),
    }
    assert!(matches!(
        reading().read(ArchiveRead::Broken),
        PayloadStep::Unpack(_, Contents::Stream)
    ));
    assert!(matches!(
        reading().decoded(None),
        PayloadStep::Unpack(_, Contents::Stream)
    ));
    match reading().decoded(Some(vec![1, 2])) {
        PayloadStep::Unpack(_, Contents::Tar(content)) => assert_eq!(content, vec![1, 2]),
        other => panic!("{other:?}"),
    }
}

#[test]
fn places_are_reckoned_from_their_base() {
    let place = base().join("a").join("b");
    assert_eq!(place.base, PathBuf::from("/disk"));
    assert_eq!(place.segments, vec!["a", "b"]);
    assert_ne!(place, base().join("a"));
    assert_eq!(place.clone(), place);
}
