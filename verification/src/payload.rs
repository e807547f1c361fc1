//! Extracted payload trees: the loadable form of an installed generation.
//!
//! A generation as the updater publishes it holds the release set's archives,
//! verbatim. Loading needs the flat tree inside them, so each generation is
//! extracted once into `payloads/<generation id>/` beside the updater's own
//! root. Extraction lands in a staging directory and is renamed into place,
//! so a committed tree is always a complete one; a tree that exists is
//! trusted and never re-extracted.
//!
//! The host does what a [`PayloadStep`] asks for and hands back how it went.

use vstd::prelude::*;
use vstd::string::*;

use crate::text::{copy_if, ends_with, names, texts};
use crate::tree::{places, TreePath, TreePathView};

verus! {

/// The archive form every plugin artifact ships in.
pub const ARCHIVE_SUFFIX: &'static str = ".tar.zst";

/// Where an extraction stages before its tree commits. Never a valid
/// generation id, so a crashed extraction cannot shadow one.
pub const STAGING_PREFIX: &'static str = ".staging-";

/// One artifact of an installed generation.
#[derive(Debug)]
pub struct Installed {
    /// The plugin's name.
    pub name: String,
    /// The release target it was built for, when it names one.
    pub target: Option<String>,
    /// Its version, when it has one.
    pub version: Option<String>,
    /// The source revision it was built from.
    pub revision: String,
    /// The digest of its archive.
    pub sha256: String,
    /// The size of its archive in bytes.
    pub size: u64,
    /// Its archive, below the generation's directory.
    pub path: String,
}

impl Clone for Installed {
    fn clone(&self) -> (r: Self)
        ensures
            r == *self,
    {
        Installed {
            name: self.name.clone(),
            target: copy_if(&self.target),
            version: copy_if(&self.version),
            revision: self.revision.clone(),
            sha256: self.sha256.clone(),
            size: self.size,
            path: self.path.clone(),
        }
    }
}

/// Something the host was asked to do to a place, and why it could not.
#[derive(Debug)]
pub struct Failure {
    /// The place, as the host displays it.
    pub shown: String,
    /// What went wrong.
    pub cause: String,
}

/// `what` failed on the place that `failure` names.
pub open spec fn failed(what: Seq<char>, failure: Failure) -> Seq<char> {
    what + failure.shown@ + ": "@ + failure.cause@
}

fn say_failed(what: &str, failure: &Failure) -> (r: String)
    ensures
        r@ == failed(what@, *failure),
{
    let mut r = what.to_owned();
    r.append(failure.shown.as_str());
    r.append(": ");
    r.append(failure.cause.as_str());
    r
}

/// The file name of the library that the artifact `name` loads from.
pub open spec fn library_name(name: Seq<char>, dll_suffix: Seq<char>) -> Seq<char> {
    name + "_playback"@ + dll_suffix
}

/// The library each artifact loads from, inside the tree at `dir`.
pub open spec fn library_places(
    dir: TreePathView,
    artifacts: Seq<Installed>,
    dll_suffix: Seq<char>,
) -> Seq<TreePathView> {
    artifacts.map_values(|a: Installed| dir.join(library_name(a.name@, dll_suffix)))
}

/// Where the extracted trees sit.
#[derive(Debug)]
pub struct PayloadStore {
    root: TreePath,
    dll_suffix: String,
}

impl PayloadStore {
    /// The directory that holds the trees.
    pub closed spec fn place(&self) -> TreePathView {
        self.root@
    }

    /// What the platform's libraries end in.
    pub closed spec fn suffix(&self) -> Seq<char> {
        self.dll_suffix@
    }

    /// A store below `root`, on a platform whose libraries end in
    /// `dll_suffix`.
    pub fn new(root: TreePath, dll_suffix: &str) -> (r: Self)
        ensures
            r.place() == root@,
            r.suffix() == dll_suffix@,
    {
        PayloadStore { root, dll_suffix: dll_suffix.to_owned() }
    }

    /// The directory that holds the trees.
    pub fn root(&self) -> (r: &TreePath)
        ensures
            r@ == self.place(),
    {
        &self.root
    }

    /// Where the committed tree for `id` sits.
    pub fn dir_of(&self, id: &str) -> (r: TreePath)
        ensures
            r@ == self.place().join(id@),
    {
        self.root.join(id)
    }

    /// Where the tree for `id` is extracted before it commits.
    pub fn staging_of(&self, id: &str) -> (r: TreePath)
        ensures
            r@ == self.place().join(STAGING_PREFIX@ + id@),
    {
        let mut name = STAGING_PREFIX.to_owned();
        name.append(id);
        self.root.join(name.as_str())
    }

    /// The library each artifact loads from, inside a committed tree.
    pub fn libraries(&self, dir: &TreePath, artifacts: &Vec<Installed>) -> (r: Vec<TreePath>)
        ensures
            places(r@) == library_places(dir@, artifacts@, self.suffix()),
            r@.len() == artifacts@.len(),
            forall|i: int|
                0 <= i < artifacts@.len() ==> (#[trigger] r@[i])@ == dir@.join(
                    artifacts@[i].name@ + "_playback"@ + self.suffix(),
                ),
    {
        let mut r: Vec<TreePath> = Vec::new();
        let ghost all = library_places(dir@, artifacts@, self.suffix());
        for i in 0..artifacts.len()
            invariant
                all == library_places(dir@, artifacts@, self.suffix()),
                places(r@) == all.take(i as int),
        {
            let ghost was = r@;
            let mut name = artifacts[i].name.clone();
            name.append("_playback");
            name.append(self.dll_suffix.as_str());
            let place = dir.join(name.as_str());
            assert(place@ == all[i as int]);
            r.push(place);
            assert(places(r@) == places(was).push(place@));
        }
        assert(places(r@).len() == artifacts@.len());
        assert forall|i: int| 0 <= i < artifacts@.len() implies (#[trigger] r@[i])@ == dir@.join(
            artifacts@[i].name@ + "_playback"@ + self.suffix(),
        ) by {
            assert(places(r@)[i] == all[i]);
        }
        r
    }

    /// Set out to make the tree for the generation `id` loadable.
    ///
    /// `committed` says whether the tree exists already; one that does is
    /// looked into as it is.
    pub fn ensure(
        &self,
        id: &str,
        generation_dir: &TreePath,
        artifacts: &Vec<Installed>,
        committed: bool,
    ) -> (r: PayloadStep)
        ensures
            committed ==> (r matches PayloadStep::Inspect(libraries) && places(libraries@)
                == library_places(self.place().join(id@), artifacts@, self.suffix())),
            !committed ==> (r matches PayloadStep::ClearStaging(extraction)
                && extraction.begins(self, id@, generation_dir@, artifacts@)),
    {
        let dir = self.dir_of(id);
        let libraries = self.libraries(&dir, artifacts);
        if committed {
            return PayloadStep::Inspect(libraries);
        }
        let mut rest: Vec<Installed> = Vec::new();
        for i in 0..artifacts.len()
            invariant
                rest@ == artifacts@.take(i as int),
        {
            rest.push(artifacts[i].clone());
        }
        assert(rest@ == artifacts@);
        let staging = self.staging_of(id);
        let extraction = Extraction {
            staging,
            dir,
            generation_dir: generation_dir.clone(),
            libraries,
            unpacked: Vec::new(),
            rest,
        };
        PayloadStep::ClearStaging(extraction)
    }

    /// The entries of the store's directory to remove: every tree but the
    /// ones `live` names, and every staging leftover.
    pub fn retain(&self, live: &Vec<String>, entries: &Vec<Entry>) -> (r: Vec<TreePath>)
        ensures
            places(r@) == doomed(self.place(), texts(live@), entries@),
    {
        let mut r: Vec<TreePath> = Vec::new();
        let ghost kept = texts(live@);
        let ghost goes = |entry: Entry| entry.retired(kept);
        let ghost at = |entry: Entry| self.place().join(entry.name->0@);
        assert(places(r@) == entries@.take(0).filter(goes).map_values(at));
        for i in 0..entries.len()
            invariant
                kept == texts(live@),
                goes == (|entry: Entry| entry.retired(kept)),
                at == (|entry: Entry| self.place().join(entry.name->0@)),
                places(r@) == entries@.take(i as int).filter(goes).map_values(at),
        {
            let ghost before = entries@.take(i as int).filter(goes);
            let ghost was = r@;
            proof {
                assert(entries@.take(i + 1) == entries@.take(i as int).push(entries@[i as int]));
                entries@.take(i as int).lemma_filter_push(entries@[i as int], goes);
            }
            match &entries[i].name {
                Some(name) => {
                    if !names(live, name) && entries[i].is_dir {
                        let place = self.root.join(name.as_str());
                        r.push(place);
                        assert(places(r@) == places(was).push(place@));
                        assert(before.push(entries@[i as int]).map_values(at) == before.map_values(
                            at,
                        ).push(place@));
                    }
                },
                None => {},
            }
        }
        assert(entries@.take(entries@.len() as int) == entries@);
        r
    }
}

/// One entry of the store's directory.
#[derive(Debug)]
pub struct Entry {
    /// Its name, when it is text.
    pub name: Option<String>,
    /// Whether it is a directory.
    pub is_dir: bool,
}

impl Entry {
    /// Whether the entry goes when only `live` is to stay.
    pub open spec fn retired(self, live: Seq<Seq<char>>) -> bool {
        self.is_dir && self.name is Some && !live.contains(self.name->0@)
    }
}

/// What goes from the directory `root` when only `live` is to stay.
pub open spec fn doomed(
    root: TreePathView,
    live: Seq<Seq<char>>,
    entries: Seq<Entry>,
) -> Seq<TreePathView> {
    entries.filter(|entry: Entry| entry.retired(live)).map_values(
        |entry: Entry| root.join(entry.name->0@),
    )
}

/// What the host is to do next for a payload.
#[derive(Debug)]
pub enum PayloadStep {
    /// Remove the staging directory if it exists: a crashed run's leftovers
    /// would otherwise merge into this one.
    ClearStaging(Extraction),
    /// Create the staging directory.
    CreateStaging(Extraction),
    /// Read the bytes of an archive.
    ReadArchive(Unpacking),
    /// Unpack an archive into the staging directory.
    Unpack(Unpacking, Contents),
    /// Rename the staging directory to the committed tree.
    Commit(Extraction),
    /// Tell of each library whether it is a regular file, without following
    /// links: an archive that ships the library as a link would otherwise
    /// redirect the load outside the tree.
    Inspect(Vec<TreePath>),
    /// The payload will not load, and this is why.
    Refused(String),
}

/// An extraction under way.
#[derive(Debug)]
pub struct Extraction {
    /// Where it extracts to.
    pub staging: TreePath,
    /// Where the finished tree goes.
    pub dir: TreePath,
    /// Where the archives are.
    pub generation_dir: TreePath,
    /// The libraries the finished tree has to hold.
    pub libraries: Vec<TreePath>,
    /// The artifacts that are in the staging directory.
    pub unpacked: Vec<Installed>,
    /// The artifacts still to come.
    pub rest: Vec<Installed>,
}

/// One archive of an extraction.
#[derive(Debug)]
pub struct Unpacking {
    /// The archive.
    pub archive: TreePath,
    /// The artifact it ships.
    pub artifact: Installed,
    /// The extraction it belongs to.
    pub extraction: Extraction,
}

/// What to unpack.
#[derive(Debug)]
pub enum Contents {
    /// The decoded archive.
    Tar(Vec<u8>),
    /// The archive as it lies on disk, decoded while it is read: only as much
    /// of it is looked at as the tree inside it takes.
    Stream,
}

/// How reading an archive went.
#[derive(Debug)]
pub enum ArchiveRead {
    /// Its bytes.
    Bytes(Vec<u8>),
    /// It opened, and could not be read to its end.
    Broken,
    /// It would not open.
    Unopened(Failure),
}

/// Where the way from an archive to its tree ended early.
#[derive(Debug)]
pub enum UnpackFailure {
    /// The archive would not open.
    Open(Failure),
    /// The decoder could not be set up.
    Decode(Failure),
    /// The archive would not unpack.
    Unpack(Failure),
}

/// What is known of a library in a committed tree.
#[derive(Debug)]
pub struct Found {
    /// Whether it is there as a regular file.
    pub regular: bool,
    /// The library, as the host displays it.
    pub shown: String,
}

/// An artifact that is not in the archive form.
pub open spec fn misshapen(artifact: Installed) -> Seq<char> {
    "artifact "@ + artifact.name@ + " is not a "@ + ARCHIVE_SUFFIX@ + " archive: "@ + artifact.path@
}

/// Whether a host that did what `step` asks can be asked for `next` then.
pub open spec fn follows(step: PayloadStep, next: PayloadStep) -> bool {
    ||| next is Refused
    ||| match step {
        PayloadStep::ClearStaging(extraction) => next == PayloadStep::CreateStaging(extraction),
        PayloadStep::CreateStaging(extraction) => extraction.goes_on(next),
        PayloadStep::ReadArchive(unpacking) => next matches PayloadStep::Unpack(same, _) && same
            == unpacking,
        PayloadStep::Unpack(unpacking, _) => exists|done: Extraction| #[trigger]
            unpacking.finishes(done) && done.goes_on(next),
        PayloadStep::Commit(extraction) => next == PayloadStep::Inspect(extraction.libraries),
        _ => false,
    }
}

impl Extraction {
    /// All artifacts of the generation.
    pub open spec fn all(self) -> Seq<Installed> {
        self.unpacked@ + self.rest@
    }

    /// Whether this is the extraction of `artifacts` for `id`, with nothing
    /// unpacked yet.
    pub open spec fn begins(
        self,
        store: &PayloadStore,
        id: Seq<char>,
        generation_dir: TreePathView,
        artifacts: Seq<Installed>,
    ) -> bool {
        &&& self.staging@ == store.place().join(STAGING_PREFIX@ + id)
        &&& self.dir@ == store.place().join(id)
        &&& self.generation_dir@ == generation_dir
        &&& places(self.libraries@) == library_places(self.dir@, artifacts, store.suffix())
        &&& self.unpacked@ == Seq::<Installed>::empty()
        &&& self.rest@ == artifacts
    }

    /// Whether `other` extracts the same generation to the same place.
    pub open spec fn same_work(self, other: Extraction) -> bool {
        &&& self.staging == other.staging
        &&& self.dir == other.dir
        &&& self.generation_dir == other.generation_dir
        &&& self.libraries == other.libraries
    }

    /// What follows once everything in `unpacked` is in the staging
    /// directory.
    pub open spec fn goes_on(self, step: PayloadStep) -> bool {
        if self.rest@.len() == 0 {
            step == PayloadStep::Commit(self)
        } else {
            let artifact = self.rest@[0];
            if ARCHIVE_SUFFIX@.is_suffix_of(artifact.path@) {
                &&& step matches PayloadStep::ReadArchive(unpacking)
                &&& unpacking.archive@ == self.generation_dir@.join(artifact.path@)
                &&& unpacking.artifact == artifact
                &&& unpacking.extraction.same_work(self)
                &&& unpacking.extraction.unpacked == self.unpacked
                &&& unpacking.extraction.rest@ == self.rest@.skip(1)
            } else {
                step matches PayloadStep::Refused(why) && why@ == misshapen(artifact)
            }
        }
    }

    fn next(self) -> (r: PayloadStep)
        ensures
            self.goes_on(r),
    {
        if self.rest.len() == 0 {
            return PayloadStep::Commit(self);
        }
        let mut extraction = self;
        let artifact = extraction.rest.remove(0);
        if !ends_with(artifact.path.as_str(), ARCHIVE_SUFFIX) {
            let mut why = "artifact ".to_owned();
            why.append(artifact.name.as_str());
            why.append(" is not a ");
            why.append(ARCHIVE_SUFFIX);
            why.append(" archive: ");
            why.append(artifact.path.as_str());
            return PayloadStep::Refused(why);
        }
        let archive = extraction.generation_dir.join(artifact.path.as_str());
        PayloadStep::ReadArchive(Unpacking { archive, artifact, extraction })
    }

    /// The staging directory is out of the way, or could not be removed.
    pub fn cleared(self, result: Result<(), Failure>) -> (r: PayloadStep)
        ensures
            follows(PayloadStep::ClearStaging(self), r),
            match result {
                Ok(_) => r == PayloadStep::CreateStaging(self),
                Err(failure) => r matches PayloadStep::Refused(why) && why@ == failed(
                    "could not clear "@,
                    failure,
                ),
            },
    {
        match result {
            Ok(_) => PayloadStep::CreateStaging(self),
            Err(failure) => PayloadStep::Refused(say_failed("could not clear ", &failure)),
        }
    }

    /// The staging directory is there, or could not be created.
    pub fn created(self, result: Result<(), Failure>) -> (r: PayloadStep)
        ensures
            follows(PayloadStep::CreateStaging(self), r),
            match result {
                Ok(_) => self.goes_on(r),
                Err(failure) => r matches PayloadStep::Refused(why) && why@ == failed(
                    "could not create "@,
                    failure,
                ),
            },
    {
        match result {
            Ok(_) => self.next(),
            Err(failure) => PayloadStep::Refused(say_failed("could not create ", &failure)),
        }
    }

    /// The staging directory became the committed tree, or `dir_shown` could
    /// not be made of it.
    pub fn committed(self, result: Result<(), Failure>, dir_shown: &str) -> (r: PayloadStep)
        ensures
            follows(PayloadStep::Commit(self), r),
            match result {
                Ok(_) => r == PayloadStep::Inspect(self.libraries),
                Err(failure) => r matches PayloadStep::Refused(why) && why@ == "could not commit "@
                    + failure.shown@ + " to "@ + dir_shown@ + ": "@ + failure.cause@,
            },
    {
        match result {
            Ok(_) => PayloadStep::Inspect(self.libraries),
            Err(failure) => {
                let mut why = "could not commit ".to_owned();
                why.append(failure.shown.as_str());
                why.append(" to ");
                why.append(dir_shown);
                why.append(": ");
                why.append(failure.cause.as_str());
                PayloadStep::Refused(why)
            },
        }
    }
}

/// What a zstd stream decodes to, when it is sound to its end.
pub uninterp spec fn zstd_decoded(archive: Seq<u8>) -> Option<Seq<u8>>;

/// `zstd::stream::decode_all` over the whole of `archive`.
///
/// It gives something only of a sound stream, and then what that stream
/// holds. That it gives something of every sound stream is not claimed: the
/// decoder reports an error when it cannot allocate its buffers.
#[verifier::external_body]
fn decode_all(archive: &[u8]) -> (r: Option<Vec<u8>>)
    ensures
        r matches Some(content) ==> zstd_decoded(archive@) == Some(content@),
{
    zstd::stream::decode_all(archive).ok()
}

impl Unpacking {
    /// The archive was read, or not.
    pub fn read(self, archive: ArchiveRead) -> (r: PayloadStep)
        ensures
            follows(PayloadStep::ReadArchive(self), r),
            match archive {
                ArchiveRead::Bytes(bytes) => {
                    ||| r == PayloadStep::Unpack(self, Contents::Stream)
                    ||| r matches PayloadStep::Unpack(unpacking, Contents::Tar(content))
                        && unpacking == self && zstd_decoded(bytes@) == Some(content@)
                },
                ArchiveRead::Broken => r == PayloadStep::Unpack(self, Contents::Stream),
                ArchiveRead::Unopened(failure) => r matches PayloadStep::Refused(why) && why@
                    == failed("could not open "@, failure),
            },
    {
        match archive {
            ArchiveRead::Bytes(bytes) => self.decoded(decode_all(bytes.as_slice())),
            ArchiveRead::Broken => self.decoded(None),
            ArchiveRead::Unopened(failure) => PayloadStep::Refused(
                say_failed("could not open ", &failure),
            ),
        }
    }

    /// The archive decoded to `content`, or not to its end.
    pub fn decoded(self, content: Option<Vec<u8>>) -> (r: PayloadStep)
        ensures
            r == PayloadStep::Unpack(
                self,
                match content {
                    Some(content) => Contents::Tar(content),
                    None => Contents::Stream,
                },
            ),
    {
        match content {
            Some(content) => PayloadStep::Unpack(self, Contents::Tar(content)),
            None => PayloadStep::Unpack(self, Contents::Stream),
        }
    }

    /// The extraction once the archive is in the staging directory.
    pub open spec fn finishes(self, done: Extraction) -> bool {
        &&& done.same_work(self.extraction)
        &&& done.unpacked@ == self.extraction.unpacked@.push(self.artifact)
        &&& done.rest == self.extraction.rest
    }

    /// The archive is in the staging directory, or would not go there.
    pub fn unpacked(self, result: Result<(), UnpackFailure>) -> (r: PayloadStep)
        ensures
            forall|contents: Contents| #[trigger]
                follows(PayloadStep::Unpack(self, contents), r),
            match result {
                Ok(_) => exists|done: Extraction| #[trigger]
                    self.finishes(done) && done.goes_on(r),
                Err(UnpackFailure::Open(failure)) => r matches PayloadStep::Refused(why) && why@
                    == failed("could not open "@, failure),
                Err(UnpackFailure::Decode(failure)) => r matches PayloadStep::Refused(why) && why@
                    == failed("could not decode "@, failure),
                Err(UnpackFailure::Unpack(failure)) => r matches PayloadStep::Refused(why) && why@
                    == failed("could not unpack "@, failure),
            },
    {
        match result {
            Ok(_) => {
                let mut done = self.extraction;
                done.unpacked.push(self.artifact);
                assert(self.finishes(done));
                done.next()
            },
            Err(UnpackFailure::Open(failure)) => PayloadStep::Refused(
                say_failed("could not open ", &failure),
            ),
            Err(UnpackFailure::Decode(failure)) => PayloadStep::Refused(
                say_failed("could not decode ", &failure),
            ),
            Err(UnpackFailure::Unpack(failure)) => PayloadStep::Refused(
                say_failed("could not unpack ", &failure),
            ),
        }
    }
}

/// The first of `found` that is not a regular file.
pub open spec fn first_missing(found: Seq<Found>) -> Option<Found>
    decreases found.len(),
{
    if found.len() == 0 {
        None
    } else if !found[0].regular {
        Some(found[0])
    } else {
        first_missing(found.skip(1))
    }
}

/// The loadable libraries of a committed tree, or why there are none.
///
/// `found` tells of each library, in order, what is there.
pub fn inspected(libraries: Vec<TreePath>, found: &Vec<Found>) -> (r: Result<Vec<TreePath>, String>)
    requires
        found@.len() == libraries@.len(),
    ensures
        match first_missing(found@) {
            None => r == Ok::<Vec<TreePath>, String>(libraries),
            Some(missing) => r matches Err(why) && why@ == missing.shown@
                + " is missing from the extracted payload"@,
        },
{
    assert(found@.skip(0) == found@);
    for i in 0..found.len()
        invariant
            first_missing(found@) == first_missing(found@.skip(i as int)),
    {
        assert(found@.skip(i as int).skip(1) == found@.skip(i + 1));
        if !found[i].regular {
            let mut why = found[i].shown.clone();
            why.append(" is missing from the extracted payload");
            return Err(why);
        }
    }
    Ok(libraries)
}

} // verus!
